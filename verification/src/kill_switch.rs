//! Emergency kill switch: a two-state machine (Armed / Triggered) with a
//! violation log, an automatic trigger on repeated critical violations,
//! and a staleness check on a periodic safety heartbeat.

use vstd::prelude::*;

verus! {

/// Severity of a recorded safety violation.
#[derive(Debug, Clone, Copy, PartialEq, Eq, Structural)]
pub enum ViolationSeverity {
    Low,
    Medium,
    High,
    Critical,
}

/// An append-only log record; never mutated after creation.
#[derive(Debug)]
pub struct SafetyViolation {
    pub timestamp: u64,
    pub violation_type: String,
    pub severity: ViolationSeverity,
    pub description: String,
}

/// The one way a kill-switch operation can fail: `reset` from Armed.
#[derive(Debug, Clone, Copy, PartialEq, Eq, Structural)]
pub enum KillSwitchError {
    NotActivated,
}

/// Critical violations at or above this count trip the automatic trigger.
pub const CRITICAL_VIOLATION_LIMIT: usize = 3;

pub open spec fn spec_is_critical(v: SafetyViolation) -> bool {
    v.severity == ViolationSeverity::Critical
}

/// How many recorded violations are of critical severity.
pub open spec fn spec_critical_count(s: Seq<SafetyViolation>) -> nat
    decreases s.len(),
{
    if s.len() == 0 {
        0
    } else {
        spec_critical_count(s.drop_last()) + (if spec_is_critical(s.last()) {
            1nat
        } else {
            0nat
        })
    }
}

/// Appending one record raises the critical count by one exactly when the
/// record is critical.
pub proof fn lemma_critical_count_push(s: Seq<SafetyViolation>, v: SafetyViolation)
    ensures
        spec_critical_count(s.push(v)) == spec_critical_count(s) + (if spec_is_critical(v) {
            1nat
        } else {
            0nat
        }),
{
    assert(s.push(v).drop_last() =~= s);
    assert(s.push(v).last() == v);
}

/// Global emergency-stop state machine. `activated` is monotonic: once
/// Triggered it stays Triggered until an explicit, successful `reset`.
pub struct EmergencyKillSwitch {
    pub activated: bool,
    /// Stale-heartbeat threshold base, in milliseconds; the trigger fires
    /// at twice this value.
    pub emergency_timeout: u64,
    pub last_safety_check: u64,
    pub safety_violations: Vec<SafetyViolation>,
}

impl EmergencyKillSwitch {
    /// The doubled timeout must be computable without overflow.
    pub open spec fn wf(self) -> bool {
        self.emergency_timeout * 2 <= u64::MAX
    }

    pub fn new(emergency_timeout: u64, now: u64) -> (r: Self)
        requires
            emergency_timeout * 2 <= u64::MAX,
        ensures
            r.wf(),
            !r.activated,
            r.emergency_timeout == emergency_timeout,
            r.last_safety_check == now,
            r.safety_violations@ == Seq::<SafetyViolation>::empty(),
    {
        EmergencyKillSwitch {
            activated: false,
            emergency_timeout,
            last_safety_check: now,
            safety_violations: Vec::new(),
        }
    }

    /// Re-arms the switch, clears the violation history, and stamps the
    /// heartbeat.
    pub fn initialize(&mut self, now: u64)
        requires
            old(self).wf(),
        ensures
            final(self).wf(),
            !final(self).activated,
            final(self).emergency_timeout == old(self).emergency_timeout,
            final(self).last_safety_check == now,
            final(self).safety_violations@ == Seq::<SafetyViolation>::empty(),
    {
        self.activated = false;
        self.safety_violations.clear();
        self.last_safety_check = now;
    }

    /// Moves the switch to Triggered and appends a critical activation
    /// record. Idempotent with respect to the state, though it still logs.
    /// Cascading shutdown is the orchestrator's responsibility.
    pub fn activate(&mut self, now: u64)
        requires
            old(self).wf(),
        ensures
            final(self).wf(),
            final(self).activated,
            final(self).emergency_timeout == old(self).emergency_timeout,
            final(self).last_safety_check == old(self).last_safety_check,
            final(self).safety_violations@.len() == old(self).safety_violations@.len() + 1,
            final(self).safety_violations@.subrange(
                0,
                old(self).safety_violations@.len() as int,
            ) == old(self).safety_violations@,
            final(self).safety_violations@.last().timestamp == now,
            final(self).safety_violations@.last().violation_type@ == "emergency_activation"@,
            final(self).safety_violations@.last().severity == ViolationSeverity::Critical,
            final(self).safety_violations@.last().description@
                == "Emergency kill switch manually activated"@,
    {
        self.activated = true;
        let violation = SafetyViolation {
            timestamp: now,
            violation_type: "emergency_activation".to_owned(),
            severity: ViolationSeverity::Critical,
            description: "Emergency kill switch manually activated".to_owned(),
        };
        self.safety_violations.push(violation);
        proof {
            assert(self.safety_violations@.subrange(0, old(self).safety_violations@.len() as int)
                =~= old(self).safety_violations@);
        }
    }

    /// The emergency-stop condition: already Triggered, the critical
    /// violation count has reached the limit, or the heartbeat is staler
    /// than twice the emergency timeout.
    pub open spec fn spec_should_stop(self, now: u64) -> bool {
        ||| self.activated
        ||| spec_critical_count(self.safety_violations@) >= CRITICAL_VIOLATION_LIMIT
        ||| now > self.last_safety_check + 2 * self.emergency_timeout
    }

    /// Decides the stop condition; reading it does not change the state.
    pub fn should_emergency_stop(&self, now: u64) -> (r: bool)
        requires
            self.wf(),
        ensures
            r == self.spec_should_stop(now),
    {
        if self.activated {
            return true;
        }
        let s = &self.safety_violations;
        let n = s.len();
        let mut c: usize = 0;
        let mut i: usize = 0;
        while i < n
            invariant
                i <= n,
                n == s@.len(),
                s == self.safety_violations,
                c <= i,
                c as nat == spec_critical_count(s@.subrange(0, i as int)),
            decreases n - i,
        {
            proof {
                assert(s@.subrange(0, i as int + 1) =~= s@.subrange(0, i as int).push(
                    s@[i as int],
                ));
                lemma_critical_count_push(s@.subrange(0, i as int), s@[i as int]);
            }
            match s[i].severity {
                ViolationSeverity::Critical => {
                    c = c + 1;
                },
                _ => {},
            }
            i = i + 1;
        }
        proof {
            assert(s@.subrange(0, n as int) =~= s@);
        }
        if c >= CRITICAL_VIOLATION_LIMIT {
            return true;
        }
        now > self.last_safety_check && now - self.last_safety_check > 2 * self.emergency_timeout
    }

    /// Appends to the violation log; the activation state is untouched.
    pub fn report_violation(
        &mut self,
        violation_type: String,
        severity: ViolationSeverity,
        description: String,
        now: u64,
    )
        requires
            old(self).wf(),
        ensures
            final(self).wf(),
            final(self).activated == old(self).activated,
            final(self).emergency_timeout == old(self).emergency_timeout,
            final(self).last_safety_check == old(self).last_safety_check,
            final(self).safety_violations@ == old(self).safety_violations@.push(
                (SafetyViolation { timestamp: now, violation_type, severity, description }),
            ),
    {
        let violation = SafetyViolation { timestamp: now, violation_type, severity, description };
        self.safety_violations.push(violation);
    }

    /// The periodic liveness heartbeat; without it the staleness trigger
    /// eventually fires.
    pub fn update_safety_check(&mut self, now: u64)
        requires
            old(self).wf(),
        ensures
            final(self).wf(),
            final(self).activated == old(self).activated,
            final(self).emergency_timeout == old(self).emergency_timeout,
            final(self).last_safety_check == now,
            final(self).safety_violations@ == old(self).safety_violations@,
    {
        self.last_safety_check = now;
    }

    pub fn is_activated(&self) -> (r: bool)
        ensures
            r == self.activated,
    {
        self.activated
    }

    pub fn get_violation_count(&self) -> (r: usize)
        ensures
            r == self.safety_violations@.len(),
    {
        self.safety_violations.len()
    }

    /// Re-arms a Triggered switch, clearing the log and re-stamping the
    /// heartbeat. From Armed this is an invalid transition: it fails and
    /// changes nothing.
    pub fn reset(&mut self, now: u64) -> (r: Result<(), KillSwitchError>)
        requires
            old(self).wf(),
        ensures
            final(self).wf(),
            final(self).emergency_timeout == old(self).emergency_timeout,
            (r is Ok) == old(self).activated,
            !old(self).activated ==> *final(self) == *old(self) && r == Err::<
                (),
                KillSwitchError,
            >(KillSwitchError::NotActivated),
            old(self).activated ==> {
                &&& !final(self).activated
                &&& final(self).safety_violations@ == Seq::<SafetyViolation>::empty()
                &&& final(self).last_safety_check == now
            },
    {
        if !self.activated {
            return Err(KillSwitchError::NotActivated);
        }
        self.activated = false;
        self.safety_violations.clear();
        self.last_safety_check = now;
        Ok(())
    }

    /// Final safety posture: shutdown always leaves the switch Triggered.
    pub fn shutdown(&mut self)
        requires
            old(self).wf(),
        ensures
            final(self).wf(),
            final(self).activated,
            final(self).emergency_timeout == old(self).emergency_timeout,
            final(self).last_safety_check == old(self).last_safety_check,
            final(self).safety_violations@ == old(self).safety_violations@,
    {
        if !self.activated {
            self.activated = true;
        }
    }
}

/// Law: once the critical violation count reaches the limit, the stop
/// condition holds, with or without an explicit activation.
pub proof fn lemma_critical_violations_force_stop(k: EmergencyKillSwitch, now: u64)
    requires
        spec_critical_count(k.safety_violations@) >= CRITICAL_VIOLATION_LIMIT,
    ensures
        k.spec_should_stop(now),
{
}

/// Law: a Triggered switch reports the stop condition whatever the clock
/// reads and whatever the log holds.
pub proof fn lemma_triggered_reports_stop(k: EmergencyKillSwitch, now: u64)
    requires
        k.activated,
    ensures
        k.spec_should_stop(now),
{
}

/// Law: a heartbeat staler than twice the emergency timeout reports the
/// stop condition.
pub proof fn lemma_stale_heartbeat_forces_stop(k: EmergencyKillSwitch, now: u64)
    requires
        now > k.last_safety_check + 2 * k.emergency_timeout,
    ensures
        k.spec_should_stop(now),
{
}

} // verus!
