//! The operating-system version, its marketing name and the product readout.

use vstd::prelude::*;
use vstd::string::StringExecFns;
use crate::error::ReadoutError;
use crate::text::decimal;
use crate::text::push_decimal;

verus! {

/// The version triple that the process-information query reports.
#[derive(Debug, Clone, Copy, PartialEq, Eq)]
pub struct NSOperatingSystemVersion {
    pub major_version: u64,
    pub minor_version: u64,
    pub patch_version: u64,
}

/// `"major.minor.patch"`, each part a decimal numeral.
pub open spec fn version_text(v: NSOperatingSystemVersion) -> Seq<char> {
    decimal(v.major_version as nat) + seq!['.'] + decimal(v.minor_version as nat) + seq!['.']
        + decimal(v.patch_version as nat)
}

impl NSOperatingSystemVersion {
    /// The version written as `"major.minor.patch"`.
    pub fn into_string(self) -> (s: String)
        ensures
            s@ == version_text(self),
    {
        proof {
            reveal_strlit(".");
        }
        assert("."@ =~= seq!['.']);
        let mut s = String::new();
        push_decimal(&mut s, self.major_version as u128);
        s.append(".");
        push_decimal(&mut s, self.minor_version as u128);
        s.append(".");
        push_decimal(&mut s, self.patch_version as u128);
        assert(s@ =~= version_text(self));
        s
    }
}

/// The marketing name of release `major.minor`: a fixed table over the 10.x
/// releases, one name for every release of major version 11, and `"Unknown"`
/// for everything else.
pub open spec fn version_name(major: u64, minor: u64) -> Seq<char> {
    if major == 11 {
        "Big Sur"@
    } else if major != 10 {
        "Unknown"@
    } else if minor == 1 {
        "Puma"@
    } else if minor == 2 {
        "Jaguar"@
    } else if minor == 3 {
        "Panther"@
    } else if minor == 4 {
        "Tiger"@
    } else if minor == 5 {
        "Leopard"@
    } else if minor == 6 {
        "Snow Leopard"@
    } else if minor == 7 {
        "Lion"@
    } else if minor == 8 {
        "Mountain Lion"@
    } else if minor == 9 {
        "Mavericks"@
    } else if minor == 10 {
        "Yosemite"@
    } else if minor == 11 {
        "El Capitan"@
    } else if minor == 12 {
        "Sierra"@
    } else if minor == 13 {
        "High Sierra"@
    } else if minor == 14 || minor == 15 {
        "Mojave"@
    } else {
        "Unknown"@
    }
}

/// Looks up the marketing name of release `major.minor`.
pub fn macos_version_to_name(major: u64, minor: u64) -> (name: &'static str)
    ensures
        name@ == version_name(major, minor),
{
    match (major, minor) {
        (10, 1) => "Puma",
        (10, 2) => "Jaguar",
        (10, 3) => "Panther",
        (10, 4) => "Tiger",
        (10, 5) => "Leopard",
        (10, 6) => "Snow Leopard",
        (10, 7) => "Lion",
        (10, 8) => "Mountain Lion",
        (10, 9) => "Mavericks",
        (10, 10) => "Yosemite",
        (10, 11) => "El Capitan",
        (10, 12) => "Sierra",
        (10, 13) => "High Sierra",
        (10, 14) => "Mojave",
        (10, 15) => "Mojave",
        (11, _) => "Big Sur",
        _ => "Unknown",
    }
}

/// Product facts of the operating system.
#[derive(Debug, Clone, Copy)]
pub struct MacOSProductReadout;

impl MacOSProductReadout {
    /// The product readout; it holds nothing.
    pub fn new() -> (r: MacOSProductReadout) {
        MacOSProductReadout
    }

    /// The version `os_version` as `"major.minor.patch"`; never fails.
    pub fn version(&self, os_version: NSOperatingSystemVersion) -> (r: Result<String, ReadoutError>)
        ensures
            r is Ok,
            r->Ok_0@ == version_text(os_version),
    {
        Ok(os_version.into_string())
    }

    /// Always `"Apple"`.
    pub fn vendor(&self) -> (r: Result<String, ReadoutError>)
        ensures
            r is Ok,
            r->Ok_0@ == "Apple"@,
    {
        Ok(String::from_str("Apple"))
    }

    /// Always `"Unix, Macintosh"`.
    pub fn family(&self) -> (r: Result<String, ReadoutError>)
        ensures
            r is Ok,
            r->Ok_0@ == "Unix, Macintosh"@,
    {
        Ok(String::from_str("Unix, Macintosh"))
    }

    /// Always `"macOS"`.
    pub fn product(&self) -> (r: Result<String, ReadoutError>)
        ensures
            r is Ok,
            r->Ok_0@ == "macOS"@,
    {
        Ok(String::from_str("macOS"))
    }
}

} // verus!
