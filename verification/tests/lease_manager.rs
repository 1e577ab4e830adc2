use ofo_core::lease_manager::{LeaseType, RustLeaseManager};

#[test]
fn concurrency_ceiling_is_never_exceeded() {
    let mut m = RustLeaseManager::new(2, 1_000);
    assert!(m.request_lease("computation", None, 0).is_some());
    assert!(m.request_lease("network_access", None, 1).is_some());
    assert!(m.request_lease("file_system", None, 2).is_none());
    let status = m.get_status();
    assert_eq!(status.active_leases, 2);
    assert_eq!(status.total_granted, 2);
}

#[test]
fn single_slot_grant_deny_revoke_regrant() {
    let mut m = RustLeaseManager::new(1, 1_000);
    let first = m.request_lease("computation", None, 0);
    assert!(first.is_some());
    let first_id = first.unwrap();
    assert!(m.request_lease("computation", None, 1).is_none());
    assert!(m.revoke_lease(first_id));
    let third = m.request_lease("computation", None, 2);
    assert!(third.is_some());
    assert_ne!(third.unwrap(), first_id);
}

#[test]
fn granted_lease_records_a_uuid() {
    let mut m = RustLeaseManager::new(1, 1_000);
    let id = m.request_lease("computation", None, 0).unwrap();
    let uuid = m.get_lease_uuid(id).unwrap();
    assert_eq!(uuid.chars().count(), 36);
    assert!(m.get_lease_uuid(id + 1).is_none());
}

#[test]
fn unknown_kind_is_rejected_without_side_effect() {
    let mut m = RustLeaseManager::new(5, 1_000);
    assert!(m.request_lease("unknown_kind", None, 0).is_none());
    assert!(m.request_lease("", None, 0).is_none());
    let status = m.get_status();
    assert_eq!(status.total_granted, 0);
    assert_eq!(status.active_leases, 0);
}

#[test]
fn all_six_kinds_are_recognized() {
    let mut m = RustLeaseManager::new(6, 1_000);
    for kind in [
        "computation",
        "network_access",
        "file_system",
        "device_control",
        "learning",
        "experimentation",
    ] {
        assert!(m.request_lease(kind, None, 0).is_some(), "kind {kind} was rejected");
    }
    assert_eq!(m.get_status().active_leases, 6);
}

#[test]
fn validity_ends_exactly_at_the_deadline() {
    let mut m = RustLeaseManager::new(1, 1_000);
    let id = m.request_lease("learning", Some(100), 50).unwrap();
    assert!(m.is_lease_valid(id, 50));
    assert!(m.is_lease_valid(id, 149));
    assert!(!m.is_lease_valid(id, 150));
    assert!(!m.is_lease_valid(id + 7, 50));
}

#[test]
fn cleanup_retires_only_reached_deadlines() {
    let mut m = RustLeaseManager::new(3, 1_000);
    let short = m.request_lease("computation", Some(10), 0).unwrap();
    let long = m.request_lease("learning", Some(1_000), 0).unwrap();
    m.cleanup_expired_leases(10);
    assert!(!m.is_lease_valid(short, 10));
    assert!(m.is_lease_valid(long, 10));
    let status = m.get_status();
    assert_eq!(status.active_leases, 1);
    assert_eq!(status.total_granted, 2);
}

#[test]
fn revoked_ids_stay_invalid() {
    let mut m = RustLeaseManager::new(3, 1_000);
    let a = m.request_lease("computation", None, 0).unwrap();
    let b = m.request_lease("learning", None, 0).unwrap();
    let c = m.request_lease("file_system", None, 0).unwrap();
    m.revoke_all_leases();
    for id in [a, b, c] {
        assert!(!m.is_lease_valid(id, 0));
    }
    assert_eq!(m.get_status().active_leases, 0);
    let d = m.request_lease("computation", None, 1).unwrap();
    assert!(m.is_lease_valid(d, 1));
    for id in [a, b, c] {
        assert!(!m.is_lease_valid(id, 1));
    }
}

#[test]
fn revoking_a_missing_lease_reports_failure() {
    let mut m = RustLeaseManager::new(1, 1_000);
    assert!(!m.revoke_lease(0));
    let id = m.request_lease("computation", None, 0).unwrap();
    assert!(m.revoke_lease(id));
    assert!(!m.revoke_lease(id));
}

#[test]
fn utilization_is_active_per_thousand_of_ceiling() {
    let mut m = RustLeaseManager::new(4, 1_000);
    assert_eq!(m.get_status().utilization_permille, 0);
    m.request_lease("computation", None, 0);
    assert_eq!(m.get_status().utilization_permille, 250);
    m.request_lease("learning", None, 0);
    assert_eq!(m.get_status().utilization_permille, 500);
    let empty = RustLeaseManager::new(0, 1_000);
    assert_eq!(empty.get_status().utilization_permille, 0);
}

#[test]
fn status_lists_distinct_active_kinds() {
    let mut m = RustLeaseManager::new(4, 1_000);
    m.request_lease("computation", None, 0);
    m.request_lease("computation", None, 0);
    m.request_lease("learning", None, 0);
    let kinds = m.get_status().lease_types;
    assert_eq!(kinds, vec![LeaseType::Computation, LeaseType::Learning]);
}

#[test]
fn initialize_clears_grants() {
    let mut m = RustLeaseManager::new(2, 1_000);
    let id = m.request_lease("computation", None, 0).unwrap();
    m.initialize();
    assert!(!m.is_lease_valid(id, 0));
    assert_eq!(m.get_status().active_leases, 0);
    assert_eq!(m.get_status().total_granted, 1);
    m.initialize();
    assert_eq!(m.get_status().active_leases, 0);
}

#[test]
fn expiry_is_strictly_after_grant() {
    let mut m = RustLeaseManager::new(2, 7);
    let id = m.request_lease("computation", None, 100).unwrap();
    assert!(m.is_lease_valid(id, 106));
    assert!(!m.is_lease_valid(id, 107));
}
