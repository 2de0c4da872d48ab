use orbok::battery::{battery_poll, is_on_battery, PowerState};

/// Runs the poller over `readings` from its initial "not on battery" state
/// and returns every observation it sends.
fn observations(readings: &[Option<bool>]) -> Vec<bool> {
    let mut last_known = false;
    let mut sent = Vec::new();
    for reading in readings {
        let (next, report) = battery_poll(last_known, *reading);
        last_known = next;
        if let Some(on_battery) = report {
            sent.push(on_battery);
        }
    }
    sent
}

#[test]
fn sends_an_observation_on_each_transition() {
    let sent = observations(&[
        Some(false),
        Some(false),
        Some(true),
        Some(true),
        Some(true),
        Some(false),
    ]);
    assert_eq!(sent, vec![true, false]);
}

#[test]
fn no_observation_when_state_never_changes() {
    assert!(observations(&[Some(false); 20]).is_empty());
}

#[test]
fn undetermined_readings_never_produce_an_observation() {
    assert!(observations(&[None, None, None]).is_empty());
}

#[test]
fn repeated_identical_readings_do_not_spam_observations() {
    assert_eq!(observations(&[Some(true); 20]), vec![true]);
}

#[test]
fn an_undetermined_reading_on_battery_counts_as_leaving_it() {
    assert_eq!(observations(&[Some(true), None, None]), vec![true, false]);
}

#[test]
fn the_platform_state_decides_on_battery() {
    assert_eq!(is_on_battery(PowerState::Discharging), Some(true));
    assert_eq!(is_on_battery(PowerState::Empty), Some(true));
    assert_eq!(is_on_battery(PowerState::Charging), Some(false));
    assert_eq!(is_on_battery(PowerState::Full), Some(false));
    assert_eq!(is_on_battery(PowerState::Unknown), None);
}
