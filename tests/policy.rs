use relink::config::AppConfig;
use relink::inspector::InspectError;
use relink::policy::{evaluate, to_mbps, HealthDecision};
use relink::recovery::{
    DeviceRecovery, RecoveryAction, RecoveryEvent, RecoveryOutcome, StateChange,
};

fn config_with_threshold(threshold: u64) -> AppConfig {
    let mut c = AppConfig::default();
    c.link_speed_threshold_bps = threshold;
    c
}

/// Runs a recovery against present devices, every call succeeding.
fn run_recovery(
    target: &str,
    dwell_secs: u64,
    devices: &[(Option<&str>, Option<&str>)],
) -> (Vec<RecoveryAction>, RecoveryOutcome) {
    let mut rec = DeviceRecovery::new(target.to_string(), dwell_secs);
    let mut commands = Vec::new();
    for _ in 0..1000 {
        let action = rec.action();
        let event = match action {
            RecoveryAction::Finish { outcome } => return (commands, outcome),
            RecoveryAction::EnumerateDevice { index } => {
                if (index as usize) < devices.len() {
                    RecoveryEvent::Done
                } else {
                    RecoveryEvent::NoMoreDevices
                }
            }
            RecoveryAction::QueryProperty { index, property } => {
                let d = devices[index as usize];
                let v = match property {
                    relink::recovery::DeviceProperty::FriendlyName => d.0,
                    relink::recovery::DeviceProperty::Description => d.1,
                };
                RecoveryEvent::Property(v.map(|s| s.to_string()))
            }
            RecoveryAction::ChangeState { .. } | RecoveryAction::Wait { .. } => {
                commands.push(action);
                RecoveryEvent::Done
            }
            _ => RecoveryEvent::Done,
        };
        rec.advance(event);
    }
    panic!("recovery did not finish");
}

#[test]
fn forced_degraded_link_restarts_device_once() {
    let config = config_with_threshold(100_000_000);
    let d = evaluate(&config, Ok(Some(50_000_000)), true);
    let (target, dwell) = match d {
        HealthDecision::RestartDevice { target, dwell_secs } => (target, dwell_secs),
        other => panic!("unexpected decision {:?}", other),
    };
    assert_eq!(target, "Realtek Gaming USB 2.5GbE Family Controller");
    assert_eq!(dwell, 3);
    let devices = [
        (Some("Other Device"), Some("Other")),
        (Some("Realtek Gaming USB 2.5GbE Family Controller"), None),
    ];
    let (commands, outcome) = run_recovery(&target, dwell, &devices);
    assert_eq!(
        commands,
        vec![
            RecoveryAction::ChangeState { index: 1, change: StateChange::Disable },
            RecoveryAction::Wait { secs: 3 },
            RecoveryAction::ChangeState { index: 1, change: StateChange::Enable },
        ]
    );
    assert_eq!(outcome, RecoveryOutcome::Restarted);
}

#[test]
fn unforced_degraded_link_is_ignored() {
    let config = config_with_threshold(100_000_000);
    let d = evaluate(&config, Ok(Some(50_000_000)), false);
    assert!(matches!(d, HealthDecision::IgnoredNotWake));
}

#[test]
fn missing_adapter_is_reported_forced_or_not() {
    let config = AppConfig::default();
    for forced in [false, true, true, false] {
        let d = evaluate(&config, Ok(None), forced);
        assert!(matches!(d, HealthDecision::AdapterNotFound));
    }
}

#[test]
fn reading_at_threshold_counts_as_degraded() {
    let config = config_with_threshold(100_000_000);
    assert!(matches!(
        evaluate(&config, Ok(Some(100_000_000)), false),
        HealthDecision::IgnoredNotWake
    ));
    assert!(matches!(
        evaluate(&config, Ok(Some(100_000_000)), true),
        HealthDecision::RestartDevice { .. }
    ));
}

#[test]
fn fast_link_is_normal_forced_or_not() {
    let config = config_with_threshold(100_000_000);
    assert!(matches!(evaluate(&config, Ok(Some(100_000_001)), true), HealthDecision::SpeedNormal));
    assert!(matches!(evaluate(&config, Ok(Some(2_500_000_000)), false), HealthDecision::SpeedNormal));
}

#[test]
fn zero_threshold_and_zero_speed() {
    let config = config_with_threshold(0);
    assert!(matches!(evaluate(&config, Ok(Some(0)), true), HealthDecision::RestartDevice { .. }));
    assert!(matches!(evaluate(&config, Ok(Some(1)), true), HealthDecision::SpeedNormal));
}

#[test]
fn inspection_error_is_reported() {
    let config = AppConfig::default();
    let d = evaluate(&config, Err(InspectError::Os(87)), true);
    assert!(matches!(d, HealthDecision::InspectFailed(InspectError::Os(87))));
    let d = evaluate(&config, Err(InspectError::BufferStillTooSmall), false);
    assert!(matches!(d, HealthDecision::InspectFailed(InspectError::BufferStillTooSmall)));
}

#[test]
fn speeds_in_megabits() {
    assert_eq!(to_mbps(2_500_000_000), 2500);
    assert_eq!(to_mbps(999_999), 0);
    assert_eq!(to_mbps(100_000_000), 100);
}
