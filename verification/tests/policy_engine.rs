use ofo_core::policy_engine::{PolicyLevel, RustPolicyEngine};

#[test]
fn initialize_seeds_three_active_policies() {
    let mut e = RustPolicyEngine::new(0);
    e.initialize(10);
    let status = e.get_status(10);
    assert_eq!(status.active_policies, 3);
    assert_eq!(status.violations_count, 0);
    assert!(status.enforcement_active);
    assert_eq!(e.policies.len(), 3);
    assert_eq!(e.policies[0].id, "rust_safety_001");
    assert_eq!(e.policies[1].id, "rust_resource_001");
    assert_eq!(e.policies[2].id, "rust_learning_001");
    e.initialize(11);
    assert_eq!(e.get_status(11).active_policies, 3);
}

#[test]
fn enforcement_off_grants_every_kind() {
    let mut e = RustPolicyEngine::new(0);
    e.initialize(0);
    e.shutdown();
    assert!(!e.get_status(1).enforcement_active);
    for kind in ["computation", "learning", "device_control", "no_such_kind", ""] {
        assert!(e.can_grant_lease(kind), "kind {kind} was denied with enforcement off");
    }
}

#[test]
fn current_rule_set_approves_known_kinds() {
    let mut e = RustPolicyEngine::new(0);
    e.initialize(0);
    for kind in [
        "computation",
        "network_access",
        "file_system",
        "device_control",
        "learning",
        "experimentation",
    ] {
        assert!(e.can_grant_lease(kind), "kind {kind} was denied by the seed policies");
    }
}

#[test]
fn lockdown_keeps_only_critical_policies_and_is_idempotent() {
    let mut e = RustPolicyEngine::new(0);
    e.initialize(0);
    e.emergency_lockdown();
    let status = e.get_status(1);
    assert_eq!(status.active_policies, 1);
    assert!(status.enforcement_active);
    assert!(e.policies[0].active);
    assert!(!e.policies[1].active);
    assert!(!e.policies[2].active);
    e.emergency_lockdown();
    assert_eq!(e.get_status(2).active_policies, 1);
}

#[test]
fn violations_are_appended_without_touching_policies() {
    let mut e = RustPolicyEngine::new(0);
    e.initialize(0);
    e.report_violation(
        "rust_resource_001".to_string(),
        "cpu_budget".to_string(),
        PolicyLevel::High,
        "cpu over budget".to_string(),
        5,
    );
    e.report_violation(
        "rust_safety_001".to_string(),
        "consent".to_string(),
        PolicyLevel::Critical,
        "missing consent".to_string(),
        6,
    );
    let status = e.get_status(7);
    assert_eq!(status.violations_count, 2);
    assert_eq!(status.active_policies, 3);
    assert_eq!(e.violations[0].timestamp, 5);
    assert_eq!(e.violations[1].policy_id, "rust_safety_001");
}

#[test]
fn last_check_reports_elapsed_milliseconds() {
    let mut e = RustPolicyEngine::new(0);
    e.initialize(100);
    assert_eq!(e.get_status(250).last_check, 150);
    assert_eq!(e.get_status(100).last_check, 0);
    assert_eq!(e.get_status(50).last_check, 0);
}

#[test]
fn seed_policy_levels_and_rules() {
    let mut e = RustPolicyEngine::new(0);
    e.initialize(0);
    assert!(matches!(e.policies[0].level, PolicyLevel::Critical));
    assert!(matches!(e.policies[1].level, PolicyLevel::High));
    assert!(matches!(e.policies[2].level, PolicyLevel::High));
    assert_eq!(e.policies[0].rules.len(), 3);
    assert_eq!(e.policies[1].rules.len(), 3);
    assert_eq!(e.policies[2].rules.len(), 3);
    assert_eq!(e.policies[0].rules[0].0, "harm_prevention");
    assert_eq!(e.policies[1].rules[0].0, "max_cpu_usage");
    assert_eq!(e.policies[2].rules[2].0, "experiment_safety_check");
}
