use macchina_read::MacOSBatteryReadout;
use macchina_read::MacOSIOPMPowerSource;
use macchina_read::PowerSourceProperties;
use macchina_read::ReadoutError;

fn other(message: &str) -> ReadoutError {
    ReadoutError::Other(String::from(message))
}

#[test]
fn snapshot_of_a_full_dictionary() {
    let properties = PowerSourceProperties {
        battery_installed: Some(1),
        state_of_charge: Some(87),
        is_charging: Some(0),
    };
    let snapshot = MacOSIOPMPowerSource::new(Ok(properties));
    assert_eq!(
        snapshot,
        Ok(MacOSIOPMPowerSource {
            battery_installed: Some(true),
            state_of_charge: Some(87),
            charging: Some(false),
        })
    );
    let readout = MacOSBatteryReadout::new(Ok(properties));
    assert_eq!(readout.percentage(), Ok(String::from("87")));
    assert_eq!(readout.status(), Ok(String::from("FALSE")));
}

#[test]
fn nonzero_means_true() {
    let properties = PowerSourceProperties {
        battery_installed: Some(-3),
        state_of_charge: Some(0),
        is_charging: Some(2),
    };
    let snapshot = MacOSIOPMPowerSource::new(Ok(properties)).unwrap();
    assert_eq!(snapshot.battery_installed, Some(true));
    assert_eq!(snapshot.charging, Some(true));
    let readout = MacOSBatteryReadout::new(Ok(properties));
    assert_eq!(readout.percentage(), Ok(String::from("0")));
    assert_eq!(readout.status(), Ok(String::from("TRUE")));
}

#[test]
fn missing_charging_key_leaves_no_snapshot() {
    let properties = PowerSourceProperties {
        battery_installed: Some(1),
        state_of_charge: Some(55),
        is_charging: None,
    };
    assert_eq!(
        MacOSIOPMPowerSource::new(Ok(properties)),
        Err(other("No information available regarding charging state."))
    );
    let readout = MacOSBatteryReadout::new(Ok(properties));
    assert_eq!(readout.percentage(), Err(ReadoutError::MetricNotAvailable));
    assert_eq!(readout.status(), Err(ReadoutError::MetricNotAvailable));
}

#[test]
fn first_missing_key_is_reported() {
    let none = PowerSourceProperties { battery_installed: None, state_of_charge: None, is_charging: None };
    assert_eq!(
        MacOSIOPMPowerSource::new(Ok(none)),
        Err(other("No information available regarding installation status of battery."))
    );
    let no_charge = PowerSourceProperties {
        battery_installed: Some(0),
        state_of_charge: None,
        is_charging: None,
    };
    assert_eq!(
        MacOSIOPMPowerSource::new(Ok(no_charge)),
        Err(other("No information available regarding state of charge."))
    );
    let readout = MacOSBatteryReadout::new(Ok(no_charge));
    assert_eq!(readout.percentage(), Err(ReadoutError::MetricNotAvailable));
    assert_eq!(readout.status(), Err(ReadoutError::MetricNotAvailable));
}

#[test]
fn failed_fetch_leaves_no_snapshot() {
    assert_eq!(
        MacOSIOPMPowerSource::new(Err(ReadoutError::MetricNotAvailable)),
        Err(ReadoutError::MetricNotAvailable)
    );
    let readout = MacOSBatteryReadout::new(Err(ReadoutError::MetricNotAvailable));
    assert_eq!(readout, MacOSBatteryReadout::with_snapshot(None));
    assert_eq!(readout.percentage(), Err(ReadoutError::MetricNotAvailable));
    assert_eq!(readout.status(), Err(ReadoutError::MetricNotAvailable));
}

#[test]
fn absent_fields_of_a_snapshot() {
    let readout = MacOSBatteryReadout::with_snapshot(Some(MacOSIOPMPowerSource {
        battery_installed: Some(true),
        state_of_charge: None,
        charging: Some(true),
    }));
    assert_eq!(readout.percentage(), Err(ReadoutError::MetricNotAvailable));
    assert_eq!(readout.status(), Ok(String::from("TRUE")));
    let readout = MacOSBatteryReadout::with_snapshot(Some(MacOSIOPMPowerSource {
        battery_installed: None,
        state_of_charge: Some(100),
        charging: None,
    }));
    assert_eq!(readout.percentage(), Ok(String::from("100")));
    assert_eq!(readout.status(), Err(ReadoutError::MetricNotAvailable));
}
