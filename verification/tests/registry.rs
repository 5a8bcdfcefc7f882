use macchina_read::battery::PowerSourceProperties;
use macchina_read::registry::begin;
use macchina_read::registry::fetch_result;
use macchina_read::registry::get_power_source_dict;
use macchina_read::registry::step;
use macchina_read::registry::POWER_SOURCE_SERVICE;
use macchina_read::FetchAction;
use macchina_read::FetchEvent;
use macchina_read::FetchState;
use macchina_read::ReadoutError;

/// Runs a fetch against a registry that answers the lookup with `entry` and
/// the copy with `kern_return`; returns obtained entries, releases, and
/// whether the dictionary was delivered.
fn run(entry: u32, kern_return: i32) -> (u32, u32, bool) {
    let mut obtained = 0;
    let mut released = 0;
    let mut state = begin();
    if entry != 0 {
        obtained += 1;
    }
    let mut event = FetchEvent::Matched { entry };
    for _ in 0..10 {
        let (next, action) = step(state, event);
        state = next;
        match action {
            FetchAction::CopyProperties { entry: asked } => {
                assert_eq!(asked, entry);
                event = FetchEvent::Copied { kern_return };
            }
            FetchAction::Release { entry: asked } => {
                assert_eq!(asked, entry);
                released += 1;
                event = FetchEvent::Released;
            }
            FetchAction::Deliver => {
                assert_eq!(state, FetchState::Finished { copied: true });
                return (obtained, released, true);
            }
            FetchAction::Fail => {
                assert_eq!(state, FetchState::Finished { copied: false });
                return (obtained, released, false);
            }
            FetchAction::Ignore => panic!("the fetch ignored an event that it asked for"),
        }
    }
    panic!("the fetch did not end");
}

#[test]
fn successful_fetch_releases_its_entry() {
    assert_eq!(run(42, 0), (1, 1, true));
}

#[test]
fn failed_copy_still_releases_its_entry() {
    assert_eq!(run(42, 5), (1, 1, false));
    assert_eq!(run(u32::MAX, -1), (1, 1, false));
}

#[test]
fn no_service_nothing_to_release() {
    assert_eq!(run(0, 0), (0, 0, false));
}

#[test]
fn steps_of_a_fetch() {
    assert_eq!(begin(), FetchState::Matching);
    assert_eq!(
        step(FetchState::Matching, FetchEvent::Matched { entry: 7 }),
        (FetchState::Copying { entry: 7 }, FetchAction::CopyProperties { entry: 7 })
    );
    assert_eq!(
        step(FetchState::Copying { entry: 7 }, FetchEvent::Copied { kern_return: 0 }),
        (FetchState::Releasing { copied: true }, FetchAction::Release { entry: 7 })
    );
    assert_eq!(
        step(FetchState::Copying { entry: 7 }, FetchEvent::Copied { kern_return: 1 }),
        (FetchState::Releasing { copied: false }, FetchAction::Release { entry: 7 })
    );
    assert_eq!(
        step(FetchState::Releasing { copied: true }, FetchEvent::Released),
        (FetchState::Finished { copied: true }, FetchAction::Deliver)
    );
}

#[test]
fn events_out_of_turn_are_ignored() {
    let holding = FetchState::Copying { entry: 9 };
    assert_eq!(step(holding, FetchEvent::Released), (holding, FetchAction::Ignore));
    assert_eq!(step(holding, FetchEvent::Matched { entry: 3 }), (holding, FetchAction::Ignore));
    let done = FetchState::Finished { copied: true };
    assert_eq!(step(done, FetchEvent::Copied { kern_return: 0 }), (done, FetchAction::Ignore));
    assert_eq!(
        step(FetchState::Matching, FetchEvent::Released),
        (FetchState::Matching, FetchAction::Ignore)
    );
}

#[test]
fn result_of_a_fetch() {
    let properties = PowerSourceProperties {
        battery_installed: Some(1),
        state_of_charge: Some(10),
        is_charging: Some(1),
    };
    assert_eq!(get_power_source_dict(Some(properties)), Ok(properties));
    assert_eq!(get_power_source_dict(None), Err(ReadoutError::MetricNotAvailable));
    assert_eq!(POWER_SOURCE_SERVICE, "IOPMPowerSource");
}

#[test]
fn result_follows_the_state() {
    let properties = PowerSourceProperties {
        battery_installed: Some(1),
        state_of_charge: Some(10),
        is_charging: Some(1),
    };
    assert_eq!(fetch_result(FetchState::Finished { copied: true }, Some(properties)), Ok(properties));
    assert_eq!(
        fetch_result(FetchState::Finished { copied: true }, None),
        Err(ReadoutError::MetricNotAvailable)
    );
    let others = [
        FetchState::Finished { copied: false },
        FetchState::Matching,
        FetchState::Copying { entry: 4 },
        FetchState::Releasing { copied: true },
    ];
    for state in others {
        assert_eq!(fetch_result(state, Some(properties)), Err(ReadoutError::MetricNotAvailable));
        assert_eq!(fetch_result(state, None), Err(ReadoutError::MetricNotAvailable));
    }
}
