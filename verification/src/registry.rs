//! Fetching the property dictionary of a device service, as a state machine.
//!
//! The caller performs each [`FetchAction`] against the device registry and
//! reports what came back as a [`FetchEvent`]; [`step`] decides what comes
//! next. A service entry that was obtained is released on every path, whether
//! its dictionary could be copied or not.

use vstd::prelude::*;
use crate::battery::PowerSourceProperties;
use crate::error::ReadoutError;
use crate::error::ReadoutErrorView;
use crate::kern::KERN_SUCCESS;

verus! {

/// The name of the service whose dictionary describes the power source.
pub const POWER_SOURCE_SERVICE: &'static str = "IOPMPowerSource";

/// Where a fetch stands.
#[derive(Debug, Clone, Copy, PartialEq, Eq)]
pub enum FetchState {
    /// The service was asked for; no entry is held.
    Matching,
    /// The entry is held and its dictionary was asked for.
    Copying { entry: u32 },
    /// The entry was handed back for release; `copied` tells whether its
    /// dictionary was obtained.
    Releasing { copied: bool },
    /// The fetch is over.
    Finished { copied: bool },
}

/// What the registry answered.
#[derive(Debug, Clone, Copy, PartialEq, Eq)]
pub enum FetchEvent {
    /// The lookup of the service returned `entry`; zero means no such service.
    Matched { entry: u32 },
    /// The copy of the dictionary returned the status `kern_return`.
    Copied { kern_return: i32 },
    /// The entry was released.
    Released,
}

/// What the caller does next.
#[derive(Debug, Clone, Copy, PartialEq, Eq)]
pub enum FetchAction {
    /// Copy the property dictionary of `entry`.
    CopyProperties { entry: u32 },
    /// Release `entry`.
    Release { entry: u32 },
    /// Hand out the dictionary that was copied.
    Deliver,
    /// Report that the metric is not available.
    Fail,
    /// The event does not fit the state: do nothing.
    Ignore,
}

/// The entry that the fetch holds in `state` and has not yet handed back.
pub open spec fn held(state: FetchState) -> Option<u32> {
    match state {
        FetchState::Copying { entry } => Some(entry),
        _ => None,
    }
}

/// The state and the action that follow `event` in `state`.
pub open spec fn next(state: FetchState, event: FetchEvent) -> (FetchState, FetchAction) {
    match (state, event) {
        (FetchState::Matching, FetchEvent::Matched { entry }) => if entry == 0 {
            (FetchState::Finished { copied: false }, FetchAction::Fail)
        } else {
            (FetchState::Copying { entry }, FetchAction::CopyProperties { entry })
        },
        (FetchState::Copying { entry }, FetchEvent::Copied { kern_return }) => (
            FetchState::Releasing { copied: kern_return == KERN_SUCCESS },
            FetchAction::Release { entry },
        ),
        (FetchState::Releasing { copied }, FetchEvent::Released) => (
            FetchState::Finished { copied },
            if copied {
                FetchAction::Deliver
            } else {
                FetchAction::Fail
            },
        ),
        _ => (state, FetchAction::Ignore),
    }
}

/// The state in which every fetch begins: the caller looks the service up
/// and reports the entry.
pub fn begin() -> (state: FetchState)
    ensures
        state == FetchState::Matching,
{
    FetchState::Matching
}

/// Decides what follows `event` in `state`.
pub fn step(state: FetchState, event: FetchEvent) -> (r: (FetchState, FetchAction))
    ensures
        r == next(state, event),
{
    match state {
        FetchState::Matching => match event {
            FetchEvent::Matched { entry } => {
                if entry != 0 {
                    (FetchState::Copying { entry }, FetchAction::CopyProperties { entry })
                } else {
                    (FetchState::Finished { copied: false }, FetchAction::Fail)
                }
            },
            _ => (state, FetchAction::Ignore),
        },
        FetchState::Copying { entry } => match event {
            FetchEvent::Copied { kern_return } => (
                FetchState::Releasing { copied: kern_return == KERN_SUCCESS },
                FetchAction::Release { entry },
            ),
            _ => (state, FetchAction::Ignore),
        },
        FetchState::Releasing { copied } => match event {
            FetchEvent::Released => {
                let action = if copied {
                    FetchAction::Deliver
                } else {
                    FetchAction::Fail
                };
                (FetchState::Finished { copied }, action)
            },
            _ => (state, FetchAction::Ignore),
        },
        FetchState::Finished { .. } => (state, FetchAction::Ignore),
    }
}

/// The result of a fetch that ended with `dictionary`: the dictionary, or
/// `MetricNotAvailable` where there is none.
pub fn get_power_source_dict(dictionary: Option<PowerSourceProperties>) -> (r: Result<
    PowerSourceProperties,
    ReadoutError,
>)
    ensures
        dictionary matches Some(properties) ==> r == Ok::<_, ReadoutError>(properties),
        dictionary is None ==> r is Err && r->Err_0@ == ReadoutErrorView::MetricNotAvailable,
{
    match dictionary {
        Some(properties) => Ok(properties),
        None => Err(ReadoutError::MetricNotAvailable),
    }
}

/// The result of a fetch that stands in `state` with `dictionary` in hand:
/// the dictionary where the fetch has ended with its copy made, else
/// `MetricNotAvailable`.
pub fn fetch_result(state: FetchState, dictionary: Option<PowerSourceProperties>) -> (r: Result<
    PowerSourceProperties,
    ReadoutError,
>)
    ensures
        state == (FetchState::Finished { copied: true }) && dictionary is Some ==> r == Ok::<
            _,
            ReadoutError,
        >(dictionary->Some_0),
        !(state == (FetchState::Finished { copied: true }) && dictionary is Some) ==> r is Err
            && r->Err_0@ == ReadoutErrorView::MetricNotAvailable,
{
    match state {
        FetchState::Finished { copied: true } => get_power_source_dict(dictionary),
        _ => get_power_source_dict(None),
    }
}

/// While an entry is held, the only step that leaves the state is the one
/// that asks for the release of that very entry; and it is asked for whatever
/// status the copy returned.
pub proof fn held_entry_leaves_only_by_release(state: FetchState, event: FetchEvent)
    requires
        held(state) is Some,
    ensures
        next(state, event).0 == state && next(state, event).1 == FetchAction::Ignore || (held(
            next(state, event).0,
        ) is None && next(state, event).1 == (FetchAction::Release { entry: held(state)->Some_0 })),
        event is Copied ==> next(state, event).1 == (FetchAction::Release {
            entry: held(state)->Some_0,
        }),
{
}

/// No release is asked for while no entry is held, and an entry comes to be
/// held only when the lookup reports one that is not zero.
pub proof fn nothing_released_unless_held(state: FetchState, event: FetchEvent)
    requires
        held(state) is None,
    ensures
        !(next(state, event).1 is Release),
        held(next(state, event).0) matches Some(entry) ==> entry != 0 && state == FetchState::Matching
            && event == (FetchEvent::Matched { entry }),
{
}

/// The state that a fetch reaches from `state` through `events`.
pub open spec fn state_after(state: FetchState, events: Seq<FetchEvent>) -> FetchState
    decreases events.len(),
{
    if events.len() == 0 {
        state
    } else {
        state_after(next(state, events[0]).0, events.drop_first())
    }
}

/// How many entries a fetch obtains on its way from `state` through `events`:
/// one for each step that takes an entry and asks for its dictionary.
pub open spec fn obtained(state: FetchState, events: Seq<FetchEvent>) -> nat
    decreases events.len(),
{
    if events.len() == 0 {
        0
    } else {
        let (following, action) = next(state, events[0]);
        let here: nat = if action is CopyProperties {
            1
        } else {
            0
        };
        here + obtained(following, events.drop_first())
    }
}

/// How many releases a fetch asks for on its way from `state` through
/// `events`.
pub open spec fn released(state: FetchState, events: Seq<FetchEvent>) -> nat
    decreases events.len(),
{
    if events.len() == 0 {
        0
    } else {
        let (following, action) = next(state, events[0]);
        let here: nat = if action is Release {
            1
        } else {
            0
        };
        here + released(following, events.drop_first())
    }
}

/// How many entries are held in `state`: one or none.
pub open spec fn holding(state: FetchState) -> nat {
    if held(state) is Some {
        1
    } else {
        0
    }
}

/// Whatever the registry answers and in whatever order, what was held at the
/// start and what was obtained since is either released or still held.
pub proof fn releases_balance_obtained(state: FetchState, events: Seq<FetchEvent>)
    ensures
        holding(state) + obtained(state, events) == released(state, events) + holding(
            state_after(state, events),
        ),
    decreases events.len(),
{
    if events.len() > 0 {
        releases_balance_obtained(next(state, events[0]).0, events.drop_first());
    }
}

/// A fetch that has ended asked for as many releases as it obtained entries,
/// whether the dictionary was copied or not.
pub proof fn finished_fetch_released_every_entry(events: Seq<FetchEvent>)
    requires
        state_after(FetchState::Matching, events) is Finished,
    ensures
        released(FetchState::Matching, events) == obtained(FetchState::Matching, events),
{
    releases_balance_obtained(FetchState::Matching, events);
}

/// A whole fetch, whatever the registry answers: with no service nothing is
/// obtained and nothing released; with a service its entry is released exactly
/// once, before the fetch ends, and the dictionary is delivered only where the
/// copy reported success.
pub proof fn fetch_releases_what_it_obtained(entry: u32, kern_return: i32)
    ensures
        ({
            let first = next(FetchState::Matching, FetchEvent::Matched { entry });
            let second = next(first.0, FetchEvent::Copied { kern_return });
            let third = next(second.0, FetchEvent::Released);
            if entry == 0 {
                &&& first == (FetchState::Finished { copied: false }, FetchAction::Fail)
                &&& second.1 == FetchAction::Ignore
                &&& third.1 == FetchAction::Ignore
            } else {
                &&& first.1 == (FetchAction::CopyProperties { entry })
                &&& second.1 == (FetchAction::Release { entry })
                &&& held(second.0) is None
                &&& third.0 == (FetchState::Finished { copied: kern_return == KERN_SUCCESS })
                &&& third.1 == if kern_return == KERN_SUCCESS {
                    FetchAction::Deliver
                } else {
                    FetchAction::Fail
                }
            }
        }),
{
}

} // verus!
