use relink::property::{property_text, property_value};
use relink::recovery::{
    DeviceError, DeviceProperty, DeviceRecovery, RecoveryAction, RecoveryEvent, RecoveryOutcome,
    RecoveryPhase, StateChange,
};

/// Drives a recovery with events chosen by `answer`, recording every action.
fn drive(
    target: &str,
    dwell_secs: u64,
    mut answer: impl FnMut(RecoveryAction) -> RecoveryEvent,
) -> (Vec<RecoveryAction>, RecoveryOutcome) {
    let mut rec = DeviceRecovery::new(target.to_string(), dwell_secs);
    let mut actions = Vec::new();
    for _ in 0..1000 {
        let action = rec.action();
        if let RecoveryAction::Finish { outcome } = action {
            assert_eq!(rec.outcome(), Some(outcome));
            return (actions, outcome);
        }
        assert_eq!(rec.outcome(), None);
        actions.push(action);
        rec.advance(answer(action));
    }
    panic!("recovery did not finish");
}

fn system(
    devices: Vec<(Option<&'static str>, Option<&'static str>)>,
) -> impl FnMut(RecoveryAction) -> RecoveryEvent {
    move |action| match action {
        RecoveryAction::EnumerateDevice { index } => {
            if (index as usize) < devices.len() {
                RecoveryEvent::Done
            } else {
                RecoveryEvent::NoMoreDevices
            }
        }
        RecoveryAction::QueryProperty { index, property } => {
            let d = devices[index as usize];
            let v = match property {
                DeviceProperty::FriendlyName => d.0,
                DeviceProperty::Description => d.1,
            };
            RecoveryEvent::Property(v.map(|s| s.to_string()))
        }
        _ => RecoveryEvent::Done,
    }
}

fn commands(actions: &[RecoveryAction]) -> Vec<RecoveryAction> {
    actions
        .iter()
        .copied()
        .filter(|a| matches!(a, RecoveryAction::ChangeState { .. } | RecoveryAction::Wait { .. }))
        .collect()
}

#[test]
fn single_matching_device_is_toggled_once() {
    let devs = vec![(Some("A"), None), (None, Some("NIC")), (Some("B"), Some("NIC"))];
    let (actions, outcome) = drive("NIC", 7, system(devs));
    assert_eq!(outcome, RecoveryOutcome::Restarted);
    assert_eq!(
        commands(&actions),
        vec![
            RecoveryAction::ChangeState { index: 1, change: StateChange::Disable },
            RecoveryAction::Wait { secs: 7 },
            RecoveryAction::ChangeState { index: 1, change: StateChange::Enable },
        ]
    );
    assert_eq!(actions.first(), Some(&RecoveryAction::OpenDeviceSet));
    assert_eq!(actions.last(), Some(&RecoveryAction::ReleaseDeviceSet));
    // the scan stops at the match
    assert!(!actions.contains(&RecoveryAction::EnumerateDevice { index: 2 }));
}

#[test]
fn no_matching_device_changes_nothing() {
    let devs = vec![(Some("A"), None), (None, Some("B")), (None, None)];
    let (actions, outcome) = drive("NIC", 3, system(devs));
    assert_eq!(outcome, RecoveryOutcome::DeviceNotFound);
    assert!(commands(&actions).is_empty());
    assert_eq!(actions.last(), Some(&RecoveryAction::ReleaseDeviceSet));
}

#[test]
fn empty_device_list_finds_nothing() {
    let (actions, outcome) = drive("NIC", 3, system(vec![]));
    assert_eq!(outcome, RecoveryOutcome::DeviceNotFound);
    assert_eq!(
        actions,
        vec![
            RecoveryAction::OpenDeviceSet,
            RecoveryAction::EnumerateDevice { index: 0 },
            RecoveryAction::ReleaseDeviceSet,
        ]
    );
}

#[test]
fn friendly_name_hides_description() {
    // a friendly name that differs is not followed by the description
    let devs = vec![(Some("Other"), Some("NIC"))];
    let (actions, outcome) = drive("NIC", 3, system(devs));
    assert_eq!(outcome, RecoveryOutcome::DeviceNotFound);
    assert!(!actions.contains(&RecoveryAction::QueryProperty {
        index: 0,
        property: DeviceProperty::Description
    }));
}

#[test]
fn name_match_is_exact() {
    let devs = vec![(Some("NIC 2"), None), (Some("nic"), None)];
    let (_, outcome) = drive("NIC", 3, system(devs));
    assert_eq!(outcome, RecoveryOutcome::DeviceNotFound);
}

#[test]
fn open_failure_releases_nothing() {
    let (actions, outcome) = drive("NIC", 3, |_| RecoveryEvent::Failed(-5));
    assert_eq!(outcome, RecoveryOutcome::Failed(DeviceError { code: -5 }));
    assert_eq!(actions, vec![RecoveryAction::OpenDeviceSet]);
}

#[test]
fn disable_failure_still_releases() {
    let mut sys = system(vec![(Some("NIC"), None)]);
    let (actions, outcome) = drive("NIC", 3, move |a| match a {
        RecoveryAction::ChangeState { change: StateChange::Disable, .. } => RecoveryEvent::Failed(-9),
        other => sys(other),
    });
    assert_eq!(outcome, RecoveryOutcome::Failed(DeviceError { code: -9 }));
    assert!(!actions.contains(&RecoveryAction::ChangeState { index: 0, change: StateChange::Enable }));
    assert_eq!(actions.last(), Some(&RecoveryAction::ReleaseDeviceSet));
}

#[test]
fn enable_failure_is_reported_after_release() {
    let mut sys = system(vec![(Some("NIC"), None)]);
    let (actions, outcome) = drive("NIC", 3, move |a| match a {
        RecoveryAction::ChangeState { change: StateChange::Enable, .. } => RecoveryEvent::Failed(-2),
        RecoveryAction::ReleaseDeviceSet => RecoveryEvent::Failed(-3),
        other => sys(other),
    });
    assert_eq!(outcome, RecoveryOutcome::Failed(DeviceError { code: -2 }));
    assert_eq!(actions.last(), Some(&RecoveryAction::ReleaseDeviceSet));
}

#[test]
fn release_failure_after_success_is_an_error() {
    let mut sys = system(vec![(Some("NIC"), None)]);
    let (_, outcome) = drive("NIC", 3, move |a| match a {
        RecoveryAction::ReleaseDeviceSet => RecoveryEvent::Failed(-4),
        other => sys(other),
    });
    assert_eq!(outcome, RecoveryOutcome::Failed(DeviceError { code: -4 }));
}

#[test]
fn failed_name_query_falls_back_to_description() {
    let (actions, outcome) = drive("NIC", 3, |a| match a {
        RecoveryAction::EnumerateDevice { index: 0 } => RecoveryEvent::Done,
        RecoveryAction::EnumerateDevice { .. } => RecoveryEvent::NoMoreDevices,
        RecoveryAction::QueryProperty { property: DeviceProperty::FriendlyName, .. } => {
            RecoveryEvent::Failed(13)
        }
        RecoveryAction::QueryProperty { .. } => RecoveryEvent::Property(Some("NIC".to_string())),
        _ => RecoveryEvent::Done,
    });
    assert_eq!(outcome, RecoveryOutcome::Restarted);
    assert!(actions.contains(&RecoveryAction::ChangeState { index: 0, change: StateChange::Disable }));
}

#[test]
fn unrelated_event_leaves_phase() {
    let mut rec = DeviceRecovery::new("NIC".to_string(), 3);
    rec.advance(RecoveryEvent::NoMoreDevices);
    assert_eq!(rec.phase, RecoveryPhase::Open);
    rec.advance(RecoveryEvent::Done);
    assert_eq!(rec.phase, RecoveryPhase::Enumerate { index: 0 });
}

#[test]
fn property_text_stops_at_nul() {
    let raw = vec![b'N', 0, b'I', 0, b'C', 0, 0, 0, b'X', 0];
    assert_eq!(property_text(&raw), "NIC");
}

#[test]
fn property_text_without_nul_and_odd_byte() {
    let raw = vec![0xE9, 0x00, b'a', 0, 7];
    assert_eq!(property_text(&raw), "\u{e9}a");
}

#[test]
fn property_text_invalid_unit_is_replaced() {
    let raw = vec![0x00, 0xD8, b'a', 0];
    assert_eq!(property_text(&raw), "\u{fffd}a");
}

#[test]
fn property_value_absent_cases() {
    assert_eq!(property_value(0, Ok(vec![b'a', 0])), Ok(None));
    assert_eq!(property_value(0, Err(DeviceError { code: 13 })), Ok(None));
    assert_eq!(property_value(4, Ok(vec![b'a', 0, 0, 0])), Ok(Some("a".to_string())));
}

#[test]
fn property_value_failed_read_keeps_error() {
    assert_eq!(
        property_value(4, Err(DeviceError { code: 13 })),
        Err(DeviceError { code: 13 })
    );
}
