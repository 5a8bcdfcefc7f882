use macchina_read::macos_version_to_name;
use macchina_read::text::to_decimal;
use macchina_read::MacOSProductReadout;
use macchina_read::NSOperatingSystemVersion;

#[test]
fn version_names_of_the_table() {
    assert_eq!(macos_version_to_name(10, 15), "Mojave");
    assert_eq!(macos_version_to_name(11, 0), "Big Sur");
    assert_eq!(macos_version_to_name(11, 99), "Big Sur");
    assert_eq!(macos_version_to_name(9, 5), "Unknown");
    assert_eq!(macos_version_to_name(10, 16), "Unknown");
}

#[test]
fn version_names_of_the_older_releases() {
    let expected = [
        (1, "Puma"),
        (2, "Jaguar"),
        (3, "Panther"),
        (4, "Tiger"),
        (5, "Leopard"),
        (6, "Snow Leopard"),
        (7, "Lion"),
        (8, "Mountain Lion"),
        (9, "Mavericks"),
        (10, "Yosemite"),
        (11, "El Capitan"),
        (12, "Sierra"),
        (13, "High Sierra"),
        (14, "Mojave"),
    ];
    for (minor, name) in expected {
        assert_eq!(macos_version_to_name(10, minor), name);
    }
}

#[test]
fn version_names_outside_the_table() {
    assert_eq!(macos_version_to_name(10, 0), "Unknown");
    assert_eq!(macos_version_to_name(0, 0), "Unknown");
    assert_eq!(macos_version_to_name(12, 1), "Unknown");
    assert_eq!(macos_version_to_name(u64::MAX, 15), "Unknown");
    assert_eq!(macos_version_to_name(11, u64::MAX), "Big Sur");
}

#[test]
fn version_formats_as_dotted_triple() {
    let readout = MacOSProductReadout::new();
    let triple = NSOperatingSystemVersion { major_version: 10, minor_version: 15, patch_version: 7 };
    assert_eq!(readout.version(triple), Ok(String::from("10.15.7")));
    assert_eq!(triple.into_string(), "10.15.7");
}

#[test]
fn version_formats_zero_and_large_parts() {
    let zero = NSOperatingSystemVersion { major_version: 0, minor_version: 0, patch_version: 0 };
    assert_eq!(zero.into_string(), "0.0.0");
    let large = NSOperatingSystemVersion {
        major_version: u64::MAX,
        minor_version: 100,
        patch_version: 1_000_000,
    };
    assert_eq!(large.into_string(), "18446744073709551615.100.1000000");
}

#[test]
fn product_constants() {
    let readout = MacOSProductReadout::new();
    assert_eq!(readout.vendor(), Ok(String::from("Apple")));
    assert_eq!(readout.family(), Ok(String::from("Unix, Macintosh")));
    assert_eq!(readout.product(), Ok(String::from("macOS")));
}

#[test]
fn decimal_numerals() {
    assert_eq!(to_decimal(0), "0");
    assert_eq!(to_decimal(7), "7");
    assert_eq!(to_decimal(10), "10");
    assert_eq!(to_decimal(1234567890), "1234567890");
    assert_eq!(to_decimal(u128::MAX), u128::MAX.to_string());
    for n in 0..2000u128 {
        assert_eq!(to_decimal(n), n.to_string());
    }
}

#[test]
fn decimal_is_appended() {
    let mut text = String::from("n=");
    macchina_read::text::push_decimal(&mut text, 405);
    assert_eq!(text, "n=405");
}
