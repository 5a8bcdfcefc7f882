//! The battery readout and the power-source snapshot behind it.

use vstd::prelude::*;
use vstd::string::StringExecFns;
use crate::error::ReadoutError;
use crate::error::ReadoutErrorView;
use crate::error::text_result;
use crate::text::decimal;
use crate::text::to_decimal;

verus! {

/// What the power source's property dictionary holds under the three keys
/// `BatteryInstalled`, `StateOfCharge` and `IsCharging`: the number under the
/// key, or `None` where the key is absent.
#[derive(Debug, Clone, Copy, PartialEq, Eq)]
pub struct PowerSourceProperties {
    pub battery_installed: Option<i32>,
    pub state_of_charge: Option<i32>,
    pub is_charging: Option<i32>,
}

/// The state of the battery at the instant the snapshot was taken.
#[derive(Debug, Clone, Copy, PartialEq, Eq)]
pub struct MacOSIOPMPowerSource {
    pub battery_installed: Option<bool>,
    pub state_of_charge: Option<usize>,
    pub charging: Option<bool>,
}

/// The error for a dictionary without `BatteryInstalled`.
pub open spec fn installed_missing() -> ReadoutErrorView {
    ReadoutErrorView::Other("No information available regarding installation status of battery."@)
}

/// The error for a dictionary without `StateOfCharge`.
pub open spec fn charge_missing() -> ReadoutErrorView {
    ReadoutErrorView::Other("No information available regarding state of charge."@)
}

/// The error for a dictionary without `IsCharging`.
pub open spec fn charging_missing() -> ReadoutErrorView {
    ReadoutErrorView::Other("No information available regarding charging state."@)
}

/// The snapshot that a dictionary gives: all three fields where all three
/// keys are present, else the error of the first key that is absent.
pub open spec fn snapshot_of(properties: PowerSourceProperties) -> Result<
    MacOSIOPMPowerSource,
    ReadoutErrorView,
> {
    if properties.battery_installed is None {
        Err(installed_missing())
    } else if properties.state_of_charge is None {
        Err(charge_missing())
    } else if properties.is_charging is None {
        Err(charging_missing())
    } else {
        Ok(
            MacOSIOPMPowerSource {
                battery_installed: Some(properties.battery_installed->Some_0 != 0),
                state_of_charge: Some(properties.state_of_charge->Some_0 as usize),
                charging: Some(properties.is_charging->Some_0 != 0),
            },
        )
    }
}

impl MacOSIOPMPowerSource {
    /// Builds the snapshot from the outcome of fetching the dictionary. A
    /// failed fetch is handed on; a dictionary that lacks a key gives the
    /// error of the first such key, and no snapshot.
    pub fn new(dictionary: Result<PowerSourceProperties, ReadoutError>) -> (r: Result<
        MacOSIOPMPowerSource,
        ReadoutError,
    >)
        ensures
            match dictionary {
                Ok(properties) => match snapshot_of(properties) {
                    Ok(snapshot) => r == Ok::<_, ReadoutError>(snapshot),
                    Err(e) => r is Err && r->Err_0@ == e,
                },
                Err(e) => r is Err && r->Err_0@ == e@,
            },
    {
        let properties = dictionary?;
        let battery_installed: bool = match properties.battery_installed {
            Some(value) => value != 0,
            None => {
                return Err(
                    ReadoutError::other(
                        "No information available regarding installation status of battery.",
                    ),
                );
            },
        };
        let state_of_charge: usize = match properties.state_of_charge {
            Some(value) => value as usize,
            None => {
                return Err(ReadoutError::other("No information available regarding state of charge."));
            },
        };
        let charging: bool = match properties.is_charging {
            Some(value) => value != 0,
            None => {
                return Err(ReadoutError::other("No information available regarding charging state."));
            },
        };
        Ok(
            MacOSIOPMPowerSource {
                battery_installed: Some(battery_installed),
                state_of_charge: Some(state_of_charge),
                charging: Some(charging),
            },
        )
    }
}

/// The battery readout: a snapshot, or none where it could not be built.
#[derive(Debug, Clone, Copy, PartialEq, Eq)]
pub struct MacOSBatteryReadout {
    power_info: Option<MacOSIOPMPowerSource>,
}

/// The snapshot that a readout keeps of a fetched dictionary: none where the
/// fetch failed or a key is absent.
pub open spec fn kept_snapshot(dictionary: Result<PowerSourceProperties, ReadoutError>) -> Option<
    MacOSIOPMPowerSource,
> {
    match dictionary {
        Ok(properties) => match snapshot_of(properties) {
            Ok(snapshot) => Some(snapshot),
            Err(_) => None,
        },
        Err(_) => None,
    }
}

/// The charge that a readout over `power_info` reports.
pub open spec fn percentage_of(power_info: Option<MacOSIOPMPowerSource>) -> Result<
    Seq<char>,
    ReadoutErrorView,
> {
    match power_info {
        Some(MacOSIOPMPowerSource { state_of_charge: Some(charge), .. }) => Ok(decimal(charge as nat)),
        _ => Err(ReadoutErrorView::MetricNotAvailable),
    }
}

/// The charging state that a readout over `power_info` reports.
pub open spec fn status_of(power_info: Option<MacOSIOPMPowerSource>) -> Result<
    Seq<char>,
    ReadoutErrorView,
> {
    match power_info {
        Some(MacOSIOPMPowerSource { charging: Some(charging), .. }) => if charging {
            Ok("TRUE"@)
        } else {
            Ok("FALSE"@)
        },
        _ => Err(ReadoutErrorView::MetricNotAvailable),
    }
}

impl MacOSBatteryReadout {
    /// The snapshot that the readout holds, if any.
    pub closed spec fn power_info(&self) -> Option<MacOSIOPMPowerSource> {
        self.power_info
    }

    /// Makes the readout from the outcome of fetching the dictionary. Never
    /// fails: where no snapshot can be built the readout holds none.
    pub fn new(dictionary: Result<PowerSourceProperties, ReadoutError>) -> (r: MacOSBatteryReadout)
        ensures
            r.power_info() == kept_snapshot(dictionary),
    {
        match MacOSIOPMPowerSource::new(dictionary) {
            Ok(snapshot) => MacOSBatteryReadout { power_info: Some(snapshot) },
            Err(_) => MacOSBatteryReadout { power_info: None },
        }
    }

    /// A readout over a snapshot that was built elsewhere, or over none.
    pub fn with_snapshot(power_info: Option<MacOSIOPMPowerSource>) -> (r: MacOSBatteryReadout)
        ensures
            r.power_info() == power_info,
    {
        MacOSBatteryReadout { power_info }
    }

    /// The state of charge as a decimal numeral; `MetricNotAvailable` without
    /// a snapshot or without a charge in it.
    pub fn percentage(&self) -> (r: Result<String, ReadoutError>)
        ensures
            text_result(r) == percentage_of(self.power_info()),
    {
        match &self.power_info {
            Some(info) => match info.state_of_charge {
                Some(charge) => Ok(to_decimal(charge as u128)),
                None => Err(ReadoutError::MetricNotAvailable),
            },
            None => Err(ReadoutError::MetricNotAvailable),
        }
    }

    /// `"TRUE"` while charging, `"FALSE"` while not; `MetricNotAvailable`
    /// without a snapshot or without a charging state in it.
    pub fn status(&self) -> (r: Result<String, ReadoutError>)
        ensures
            text_result(r) == status_of(self.power_info()),
    {
        match &self.power_info {
            Some(info) => {
                if let Some(charging) = info.charging {
                    return match charging {
                        true => Ok(String::from_str("TRUE")),
                        false => Ok(String::from_str("FALSE")),
                    };
                }
                Err(ReadoutError::MetricNotAvailable)
            },
            None => Err(ReadoutError::MetricNotAvailable),
        }
    }
}

/// A dictionary that lacks any of the three keys leaves the readout without a
/// snapshot, so that both the charge and the charging state are reported as
/// `MetricNotAvailable`.
pub proof fn missing_key_leaves_no_metric(properties: PowerSourceProperties)
    requires
        properties.battery_installed is None || properties.state_of_charge is None
            || properties.is_charging is None,
    ensures
        snapshot_of(properties) is Err,
        kept_snapshot(Ok(properties)) is None,
        percentage_of(kept_snapshot(Ok(properties))) == Err::<Seq<char>, _>(
            ReadoutErrorView::MetricNotAvailable,
        ),
        status_of(kept_snapshot(Ok(properties))) == Err::<Seq<char>, _>(
            ReadoutErrorView::MetricNotAvailable,
        ),
{
}

/// A failed fetch of the dictionary leaves the readout without a snapshot as
/// well.
pub proof fn failed_fetch_leaves_no_metric(e: ReadoutError)
    ensures
        kept_snapshot(Err(e)) is None,
        percentage_of(kept_snapshot(Err(e))) == Err::<Seq<char>, _>(
            ReadoutErrorView::MetricNotAvailable,
        ),
        status_of(kept_snapshot(Err(e))) == Err::<Seq<char>, _>(ReadoutErrorView::MetricNotAvailable),
{
}

} // verus!
