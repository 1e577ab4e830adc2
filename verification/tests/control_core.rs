use ofo_core::control_core::{EVAConfig, EVARustCore};
use ofo_core::kill_switch::ViolationSeverity;

fn running_core(config: EVAConfig) -> EVARustCore {
    let mut core = EVARustCore::new(config, 0);
    core.initialize(0);
    core.start();
    core
}

#[test]
fn default_configuration_values() {
    let c = EVAConfig::default();
    assert_eq!(c.max_concurrent_leases, 10);
    assert_eq!(c.default_lease_duration, 300_000);
    assert_eq!(c.emergency_timeout, 5_000);
    assert_eq!(c.safety_check_interval, 1_000);
}

#[test]
fn core_grant_cycle_with_one_slot() {
    let config = EVAConfig { max_concurrent_leases: 1, ..EVAConfig::default() };
    let mut core = running_core(config);
    let first = core.request_lease("computation", None, 0);
    assert!(first.is_some());
    let first_id = first.unwrap();
    assert!(core.request_lease("computation", None, 1).is_none());
    assert!(core.lease_manager.revoke_lease(first_id));
    assert!(core.request_lease("computation", None, 2).is_some());
}

#[test]
fn stopped_core_grants_nothing() {
    let mut core = EVARustCore::new(EVAConfig::default(), 0);
    core.initialize(0);
    assert!(core.request_lease("computation", None, 1).is_none());
    assert_eq!(core.lease_manager.total_granted, 0);
}

#[test]
fn emergency_stop_halts_and_revokes_everything() {
    let mut core = running_core(EVAConfig::default());
    let id = core.request_lease("computation", None, 1).unwrap();
    core.emergency_stop(2);
    assert!(core.kill_switch.is_activated());
    assert!(!core.lease_manager.is_lease_valid(id, 3));
    assert!(core.request_lease("learning", None, 4).is_none());
    let status = core.get_system_status(5);
    assert!(!status.running);
    assert_eq!(status.leases.active_leases, 0);
}

#[test]
fn safety_poll_is_a_no_op_while_all_is_well() {
    let mut core = running_core(EVAConfig::default());
    assert!(!core.safety_poll(1));
    let status = core.get_system_status(2);
    assert!(status.running);
}

#[test]
fn safety_poll_cascades_on_the_auto_trigger() {
    let mut core = running_core(EVAConfig::default());
    let id = core.request_lease("computation", None, 1).unwrap();
    for t in [2, 3, 4] {
        core.kill_switch.report_violation(
            "overload".to_string(),
            ViolationSeverity::Critical,
            "repeated critical fault".to_string(),
            t,
        );
    }
    assert!(core.safety_poll(5));
    assert!(core.kill_switch.is_activated());
    assert!(!core.get_system_status(6).running);
    assert!(!core.lease_manager.is_lease_valid(id, 6));
}

#[test]
fn safety_poll_cascades_on_a_stale_heartbeat() {
    let mut core = running_core(EVAConfig::default());
    assert!(!core.safety_poll(10_000));
    assert!(core.safety_poll(10_001));
    assert!(!core.get_system_status(10_002).running);
}

#[test]
fn expiry_poll_retires_reached_deadlines() {
    let mut core = running_core(EVAConfig::default());
    let short = core.request_lease("computation", Some(10), 0).unwrap();
    let long = core.request_lease("learning", Some(10_000), 0).unwrap();
    core.expiry_poll(10);
    assert!(!core.lease_manager.is_lease_valid(short, 10));
    assert!(core.lease_manager.is_lease_valid(long, 10));
    assert_eq!(core.get_system_status(10).leases.active_leases, 1);
}

#[test]
fn status_aggregates_all_components() {
    let mut core = running_core(EVAConfig::default());
    core.request_lease("computation", None, 1);
    let status = core.get_system_status(2);
    assert!(status.running);
    assert_eq!(status.leases.active_leases, 1);
    assert_eq!(status.leases.total_granted, 1);
    assert_eq!(status.leases.utilization_permille, 100);
    assert_eq!(status.policies.active_policies, 3);
    assert!(status.policies.enforcement_active);
}

#[test]
fn shutdown_leaves_a_safe_terminal_state() {
    let mut core = running_core(EVAConfig::default());
    let id = core.request_lease("computation", None, 1).unwrap();
    core.shutdown();
    assert!(!core.get_system_status(2).running);
    assert!(core.kill_switch.is_activated());
    assert!(!core.policy_engine.enforcement_active);
    assert!(!core.lease_manager.is_lease_valid(id, 2));
}

#[test]
fn denied_requests_never_count_as_grants() {
    let mut core = running_core(EVAConfig { max_concurrent_leases: 1, ..EVAConfig::default() });
    core.request_lease("computation", None, 0);
    core.request_lease("computation", None, 1);
    core.request_lease("unknown_kind", None, 2);
    assert_eq!(core.lease_manager.total_granted, 1);
}
