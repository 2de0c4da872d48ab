//! Whether the machine runs on battery, and when that is worth reporting.
//!
//! A reading that cannot be made (no battery, or the platform query failed)
//! counts as "not on battery". Only a change is reported, so an idle
//! machine adds no traffic.

use vstd::prelude::*;

verus! {

/// The state of the first battery, as the platform reports it.
#[derive(Clone, Copy, Debug, PartialEq, Eq, Structural)]
pub enum PowerState {
    Discharging,
    Empty,
    Charging,
    Full,
    Unknown,
}

/// On battery when discharging or empty; not when charging or full;
/// unknown otherwise.
pub open spec fn on_battery_spec(state: PowerState) -> Option<bool> {
    match state {
        PowerState::Discharging | PowerState::Empty => Some(true),
        PowerState::Charging | PowerState::Full => Some(false),
        PowerState::Unknown => None,
    }
}

pub fn is_on_battery(state: PowerState) -> (r: Option<bool>)
    ensures
        r == on_battery_spec(state),
{
    match state {
        PowerState::Discharging | PowerState::Empty => Some(true),
        PowerState::Charging | PowerState::Full => Some(false),
        PowerState::Unknown => None,
    }
}

/// One poll: the reading, with no reading counted as not on battery, is
/// reported when it differs from the last known state, and becomes the
/// last known state. The result is the new last known state and what to
/// report.
pub open spec fn poll_spec(last_known: bool, reading: Option<bool>) -> (bool, Option<bool>) {
    let on = match reading {
        Some(v) => v,
        None => false,
    };
    (on, if on != last_known {
        Some(on)
    } else {
        None
    })
}

/// One poll (see [`poll_spec`]).
pub fn battery_poll(last_known: bool, reading: Option<bool>) -> (r: (bool, Option<bool>))
    ensures
        r == poll_spec(last_known, reading),
{
    let on = match reading {
        Some(v) => v,
        None => false,
    };
    if on != last_known {
        (on, Some(on))
    } else {
        (last_known, None)
    }
}

/// A reading is reported once: polling again with the same reading reports
/// nothing, and a report always carries the new state.
pub proof fn law_a_repeated_reading_is_reported_once(last_known: bool, reading: Option<bool>)
    ensures
        poll_spec(poll_spec(last_known, reading).0, reading).1 is None,
        poll_spec(last_known, reading).1 matches Some(v) ==> v == poll_spec(last_known, reading).0,
{
}

} // verus!
