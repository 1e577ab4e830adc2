use ofo_core::kill_switch::{EmergencyKillSwitch, KillSwitchError, ViolationSeverity};

#[test]
fn activation_holds_until_reset_succeeds() {
    let mut k = EmergencyKillSwitch::new(5_000, 0);
    assert!(!k.is_activated());
    k.activate(1);
    assert!(k.is_activated());
    k.report_violation("probe".to_string(), ViolationSeverity::Low, "still on".to_string(), 2);
    k.update_safety_check(3);
    assert!(k.is_activated());
    assert!(k.should_emergency_stop(4));
    assert_eq!(k.reset(5), Ok(()));
    assert!(!k.is_activated());
    assert_eq!(k.get_violation_count(), 0);
}

#[test]
fn reset_from_armed_fails_and_changes_nothing() {
    let mut k = EmergencyKillSwitch::new(5_000, 0);
    k.report_violation("probe".to_string(), ViolationSeverity::High, "kept".to_string(), 1);
    assert_eq!(k.reset(2), Err(KillSwitchError::NotActivated));
    assert!(!k.is_activated());
    assert_eq!(k.get_violation_count(), 1);
}

#[test]
fn three_critical_violations_trip_the_auto_trigger() {
    let mut k = EmergencyKillSwitch::new(5_000, 0);
    k.report_violation("a".to_string(), ViolationSeverity::Critical, "one".to_string(), 1);
    k.report_violation("b".to_string(), ViolationSeverity::Critical, "two".to_string(), 2);
    assert!(!k.should_emergency_stop(3));
    k.report_violation("c".to_string(), ViolationSeverity::Critical, "three".to_string(), 3);
    assert!(k.should_emergency_stop(4));
    assert!(!k.is_activated());
}

#[test]
fn non_critical_violations_do_not_trip_the_trigger() {
    let mut k = EmergencyKillSwitch::new(5_000, 0);
    for (i, sev) in [
        ViolationSeverity::Low,
        ViolationSeverity::Medium,
        ViolationSeverity::High,
        ViolationSeverity::Low,
        ViolationSeverity::High,
    ]
    .into_iter()
    .enumerate()
    {
        k.report_violation("x".to_string(), sev, "routine".to_string(), i as u64);
    }
    assert!(!k.should_emergency_stop(6));
    assert_eq!(k.get_violation_count(), 5);
}

#[test]
fn stale_heartbeat_trips_the_trigger_strictly() {
    let mut k = EmergencyKillSwitch::new(5_000, 0);
    assert!(!k.should_emergency_stop(10_000));
    assert!(k.should_emergency_stop(10_001));
    k.update_safety_check(10_000);
    assert!(!k.should_emergency_stop(10_001));
    assert!(k.should_emergency_stop(20_001));
}

#[test]
fn activation_is_logged_as_a_critical_violation() {
    let mut k = EmergencyKillSwitch::new(5_000, 0);
    assert_eq!(k.get_violation_count(), 0);
    k.activate(1);
    assert_eq!(k.get_violation_count(), 1);
    k.activate(2);
    assert!(k.is_activated());
    assert_eq!(k.get_violation_count(), 2);
}

#[test]
fn initialize_rearms_and_clears_history() {
    let mut k = EmergencyKillSwitch::new(5_000, 0);
    k.activate(1);
    k.report_violation("y".to_string(), ViolationSeverity::Critical, "noise".to_string(), 2);
    k.initialize(3);
    assert!(!k.is_activated());
    assert_eq!(k.get_violation_count(), 0);
    assert!(!k.should_emergency_stop(4));
}

#[test]
fn shutdown_always_leaves_the_switch_triggered() {
    let mut k = EmergencyKillSwitch::new(5_000, 0);
    k.shutdown();
    assert!(k.is_activated());
    let mut k2 = EmergencyKillSwitch::new(5_000, 0);
    k2.activate(1);
    k2.shutdown();
    assert!(k2.is_activated());
}
