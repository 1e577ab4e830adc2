//! The control core: composes the lease manager, the policy engine and the
//! emergency kill switch behind a running flag, and decides one step of
//! each supervisory loop. The surrounding runtime owns the clock, the
//! scheduling of the two loops, and the shutdown signal.

use vstd::prelude::*;

verus! {

use crate::lease_manager::{Lease, LeaseStatus, RustLeaseManager, spec_deactivated,
    spec_lease_type_of};
use crate::policy_engine::{PolicyStatus, RustPolicyEngine, spec_active_policy_count,
    spec_is_core_policies};
use crate::kill_switch::{EmergencyKillSwitch, ViolationSeverity};

/// Configuration of the core; durations and intervals are in milliseconds.
#[derive(Debug, Clone, Copy, PartialEq, Eq, Structural)]
pub struct EVAConfig {
    pub max_concurrent_leases: usize,
    pub default_lease_duration: u64,
    pub emergency_timeout: u64,
    pub safety_check_interval: u64,
}

impl EVAConfig {
    /// A usable configuration: leases must run for some time, and the
    /// doubled emergency timeout must be computable.
    pub open spec fn wf(self) -> bool {
        &&& self.default_lease_duration > 0
        &&& self.emergency_timeout * 2 <= u64::MAX
    }
}

impl Default for EVAConfig {
    /// Ten concurrent leases of five minutes; a five-second emergency
    /// timeout and a one-second safety poll.
    fn default() -> (r: Self)
        ensures
            r.wf(),
            r.max_concurrent_leases == 10,
            r.default_lease_duration == 300_000,
            r.emergency_timeout == 5_000,
            r.safety_check_interval == 1_000,
    {
        EVAConfig {
            max_concurrent_leases: 10,
            default_lease_duration: 300_000,
            emergency_timeout: 5_000,
            safety_check_interval: 1_000,
        }
    }
}

/// Aggregated status snapshot of the whole core.
#[derive(Debug)]
pub struct SystemStatus {
    pub running: bool,
    pub leases: LeaseStatus,
    pub policies: PolicyStatus,
}

/// The orchestrator. All mutation of a component goes through that
/// component's own operations.
pub struct EVARustCore {
    pub config: EVAConfig,
    pub lease_manager: RustLeaseManager,
    pub policy_engine: RustPolicyEngine,
    pub kill_switch: EmergencyKillSwitch,
    pub running: bool,
}

impl EVARustCore {
    /// The components are well formed and carry the configured limits.
    pub open spec fn wf(self) -> bool {
        &&& self.config.wf()
        &&& self.lease_manager.wf()
        &&& self.kill_switch.wf()
        &&& self.lease_manager.max_concurrent == self.config.max_concurrent_leases
        &&& self.lease_manager.default_duration == self.config.default_lease_duration
        &&& self.kill_switch.emergency_timeout == self.config.emergency_timeout
    }

    /// What an emergency stop does: the kill switch is Triggered with one
    /// more (critical, activation) record, the running flag is cleared,
    /// every active lease is retired into the history, and the policy
    /// engine and configuration are untouched.
    pub open spec fn spec_emergency_stopped(pre: Self, post: Self, now: u64) -> bool {
        &&& post.config == pre.config
        &&& post.policy_engine == pre.policy_engine
        &&& !post.running
        &&& post.kill_switch.activated
        &&& post.kill_switch.emergency_timeout == pre.kill_switch.emergency_timeout
        &&& post.kill_switch.last_safety_check == pre.kill_switch.last_safety_check
        &&& post.kill_switch.safety_violations@.len() == pre.kill_switch.safety_violations@.len()
            + 1
        &&& post.kill_switch.safety_violations@.subrange(
            0,
            pre.kill_switch.safety_violations@.len() as int,
        ) == pre.kill_switch.safety_violations@
        &&& post.kill_switch.safety_violations@.last().timestamp == now
        &&& post.kill_switch.safety_violations@.last().severity == ViolationSeverity::Critical
        &&& post.lease_manager.active_leases@.len() == 0
        &&& post.lease_manager.total_granted == pre.lease_manager.total_granted
        &&& post.lease_manager.max_concurrent == pre.lease_manager.max_concurrent
        &&& post.lease_manager.default_duration == pre.lease_manager.default_duration
        &&& post.lease_manager.lease_history@ == pre.lease_manager.lease_history@
            + pre.lease_manager.active_leases@.map_values(|l: Lease| spec_deactivated(l))
    }

    /// A core built from the configuration; nothing is granted, nothing is
    /// triggered, and the core is not yet running.
    pub fn new(config: EVAConfig, now: u64) -> (r: Self)
        requires
            config.wf(),
        ensures
            r.wf(),
            r.config == config,
            !r.running,
            r.lease_manager.active_leases@.len() == 0,
            r.lease_manager.lease_history@.len() == 0,
            r.lease_manager.total_granted == 0,
            r.policy_engine.policies@.len() == 0,
            r.policy_engine.violations@.len() == 0,
            r.policy_engine.enforcement_active,
            !r.kill_switch.activated,
            r.kill_switch.safety_violations@.len() == 0,
            r.kill_switch.last_safety_check == now,
    {
        EVARustCore {
            lease_manager: RustLeaseManager::new(
                config.max_concurrent_leases,
                config.default_lease_duration,
            ),
            policy_engine: RustPolicyEngine::new(now),
            kill_switch: EmergencyKillSwitch::new(config.emergency_timeout, now),
            config,
            running: false,
        }
    }

    /// Initializes the subsystems in dependency order: the policy engine
    /// and the lease manager must be ready before any request is served;
    /// the kill switch comes last, armed with a fresh heartbeat.
    pub fn initialize(&mut self, now: u64)
        requires
            old(self).wf(),
        ensures
            final(self).wf(),
            final(self).config == old(self).config,
            final(self).running == old(self).running,
            spec_is_core_policies(final(self).policy_engine.policies@),
            final(self).policy_engine.enforcement_active,
            final(self).policy_engine.violations@ == old(self).policy_engine.violations@,
            final(self).lease_manager.active_leases@.len() == 0,
            final(self).lease_manager.total_granted == old(self).lease_manager.total_granted,
            !final(self).kill_switch.activated,
            final(self).kill_switch.safety_violations@.len() == 0,
            final(self).kill_switch.last_safety_check == now,
    {
        self.policy_engine.initialize(now);
        self.lease_manager.initialize();
        self.kill_switch.initialize(now);
    }

    /// Marks the core as running; the supervisory loops a runtime drives
    /// observe this flag.
    pub fn start(&mut self)
        requires
            old(self).wf(),
        ensures
            final(self).wf(),
            final(self).running,
            final(self).config == old(self).config,
            final(self).lease_manager == old(self).lease_manager,
            final(self).policy_engine == old(self).policy_engine,
            final(self).kill_switch == old(self).kill_switch,
    {
        self.running = true;
    }

    /// Serves a lease request: a stopped core grants nothing, the policy
    /// engine is consulted first, and only an approved request reaches the
    /// lease manager — a denied one changes nothing at all, not even the
    /// grant counter.
    pub fn request_lease(&mut self, lease_type: &str, duration: Option<u64>, now: u64) -> (r:
        Option<u64>)
        requires
            old(self).wf(),
            duration matches Some(d) ==> d > 0,
            now + old(self).lease_manager.spec_duration_or(duration) <= u64::MAX,
            old(self).lease_manager.total_granted < u64::MAX,
        ensures
            final(self).wf(),
            final(self).config == old(self).config,
            final(self).policy_engine == old(self).policy_engine,
            final(self).kill_switch == old(self).kill_switch,
            final(self).running == old(self).running,
            (r is Some) <==> (old(self).running && old(self).policy_engine.spec_can_grant(
                lease_type@,
            ) && old(self).lease_manager.active_leases@.len()
                < old(self).lease_manager.max_concurrent && spec_lease_type_of(lease_type@)
                is Some),
            r is None ==> final(self).lease_manager == old(self).lease_manager,
            r matches Some(id) ==> RustLeaseManager::spec_grant_transition(
                old(self).lease_manager,
                final(self).lease_manager,
                lease_type@,
                duration,
                now,
                id,
            ),
    {
        if !self.running {
            return None;
        }
        if !self.policy_engine.can_grant_lease(lease_type) {
            return None;
        }
        self.lease_manager.request_lease(lease_type, duration, now)
    }

    /// Triggers the kill switch, halts the core, and revokes every active
    /// lease: when this returns, no lease is valid and no new lease can be
    /// granted.
    pub fn emergency_stop(&mut self, now: u64)
        requires
            old(self).wf(),
        ensures
            final(self).wf(),
            Self::spec_emergency_stopped(*old(self), *final(self), now),
    {
        self.kill_switch.activate(now);
        self.running = false;
        self.lease_manager.revoke_all_leases();
    }

    /// One step of the safety loop: if the kill switch reports the stop
    /// condition, performs the emergency stop and says so; otherwise the
    /// core is left exactly as it was.
    pub fn safety_poll(&mut self, now: u64) -> (stopped: bool)
        requires
            old(self).wf(),
        ensures
            final(self).wf(),
            stopped == old(self).kill_switch.spec_should_stop(now),
            !stopped ==> *final(self) == *old(self),
            stopped ==> Self::spec_emergency_stopped(*old(self), *final(self), now),
    {
        if self.kill_switch.should_emergency_stop(now) {
            self.emergency_stop(now);
            true
        } else {
            false
        }
    }

    /// One step of the expiry loop: retires every lease whose deadline has
    /// been reached.
    pub fn expiry_poll(&mut self, now: u64)
        requires
            old(self).wf(),
        ensures
            final(self).wf(),
            final(self).config == old(self).config,
            final(self).policy_engine == old(self).policy_engine,
            final(self).kill_switch == old(self).kill_switch,
            final(self).running == old(self).running,
            final(self).lease_manager.total_granted == old(self).lease_manager.total_granted,
            final(self).lease_manager.active_leases@
                == old(self).lease_manager.active_leases@.filter(|l: Lease| now < l.expires_at),
            final(self).lease_manager.lease_history@ == old(self).lease_manager.lease_history@
                + old(self).lease_manager.active_leases@.filter(
                |l: Lease| l.expires_at <= now,
            ).map_values(|l: Lease| spec_deactivated(l)),
    {
        self.lease_manager.cleanup_expired_leases(now);
    }

    /// Aggregated status snapshot; a pure read of the components.
    pub fn get_system_status(&self, now: u64) -> (r: SystemStatus)
        requires
            self.wf(),
        ensures
            r.running == self.running,
            r.leases.active_leases == self.lease_manager.active_leases@.len(),
            r.leases.total_granted == self.lease_manager.total_granted,
            r.leases.lease_types@ == self.lease_manager.spec_active_kinds(),
            r.leases.utilization_permille == self.lease_manager.spec_utilization_permille(),
            r.policies.active_policies == spec_active_policy_count(self.policy_engine.policies@),
            r.policies.violations_count == self.policy_engine.violations@.len(),
            r.policies.enforcement_active == self.policy_engine.enforcement_active,
    {
        SystemStatus {
            running: self.running,
            leases: self.lease_manager.get_status(),
            policies: self.policy_engine.get_status(now),
        }
    }

    /// Halts the core and shuts the subsystems down in turn: the lease
    /// manager first (revoking everything), then the policy engine, and
    /// the kill switch last, which always ends Triggered.
    pub fn shutdown(&mut self)
        requires
            old(self).wf(),
        ensures
            final(self).wf(),
            final(self).config == old(self).config,
            !final(self).running,
            final(self).lease_manager.active_leases@.len() == 0,
            final(self).lease_manager.lease_history@ == old(self).lease_manager.lease_history@
                + old(self).lease_manager.active_leases@.map_values(
                |l: Lease| spec_deactivated(l),
            ),
            !final(self).policy_engine.enforcement_active,
            final(self).policy_engine.policies@ == old(self).policy_engine.policies@,
            final(self).kill_switch.activated,
    {
        self.running = false;
        self.lease_manager.shutdown();
        self.policy_engine.shutdown();
        self.kill_switch.shutdown();
    }
}

} // verus!
