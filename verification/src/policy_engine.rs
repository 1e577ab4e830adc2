//! Policy engine: a registry of named, leveled policies that gate lease
//! admission while enforcement is active.

use vstd::prelude::*;

verus! {

use crate::text::str_eq;

/// Enforcement level of a policy; `Critical` policies survive lockdown.
#[derive(Debug, Clone, Copy, PartialEq, Eq, Structural)]
pub enum PolicyLevel {
    Critical,
    High,
    Medium,
    Low,
}

/// A constraint value attached to a policy rule or a lease permission.
#[derive(Debug)]
pub enum RuleValue {
    Flag(bool),
    Limit(u64),
    Text(String),
    TextList(Vec<String>),
}

/// A named enforcement rule.
#[derive(Debug)]
pub struct Policy {
    pub id: String,
    pub name: String,
    pub description: String,
    pub level: PolicyLevel,
    pub rules: Vec<(String, RuleValue)>,
    pub active: bool,
}

/// An append-only record of a reported policy violation.
#[derive(Debug)]
pub struct PolicyViolation {
    pub timestamp: u64,
    pub policy_id: String,
    pub violation_type: String,
    pub severity: PolicyLevel,
    pub description: String,
}

/// Status snapshot of the policy engine.
#[derive(Debug)]
pub struct PolicyStatus {
    pub active_policies: usize,
    pub violations_count: usize,
    pub enforcement_active: bool,
    /// Milliseconds elapsed since the last safety check, 0 if the clock
    /// reads earlier than that check.
    pub last_check: u64,
}

/// Whether a policy lets a request of this kind pass. The evaluation
/// protocol is what the engine fixes: every seeded policy is consulted by
/// its identity, and the first denial wins. The rule bodies themselves are
/// pluggable; each of the current ones approves every request it inspects.
pub open spec fn spec_complies(p: Policy, kind: Seq<char>) -> bool {
    if p.id@ == "rust_safety_001"@ {
        true
    } else if p.id@ == "rust_resource_001"@ {
        true
    } else if p.id@ == "rust_learning_001"@ {
        true
    } else {
        true
    }
}

/// How many policies in the registry are active.
pub open spec fn spec_active_policy_count(s: Seq<Policy>) -> nat
    decreases s.len(),
{
    if s.len() == 0 {
        0
    } else {
        spec_active_policy_count(s.drop_last()) + (if s.last().active {
            1nat
        } else {
            0nat
        })
    }
}

/// Appending one policy raises the active count by one exactly when that
/// policy is active.
pub proof fn lemma_active_count_push(s: Seq<Policy>, p: Policy)
    ensures
        spec_active_policy_count(s.push(p)) == spec_active_policy_count(s) + (if p.active {
            1nat
        } else {
            0nat
        }),
{
    assert(s.push(p).drop_last() =~= s);
    assert(s.push(p).last() == p);
}

/// A policy as the emergency lockdown leaves it: non-critical policies are
/// deactivated, critical ones are untouched.
pub open spec fn spec_locked_policy(p: Policy) -> Policy {
    if p.level == PolicyLevel::Critical {
        p
    } else {
        Policy { active: false, ..p }
    }
}

/// The fixed seed registry: one critical safety policy, one high-level
/// resource-limits policy, one high-level learning-constraints policy, all
/// initially active.
pub open spec fn spec_is_core_policies(s: Seq<Policy>) -> bool {
    &&& s.len() == 3
    &&& s[0].id@ == "rust_safety_001"@
    &&& s[0].name@ == "Critical Safety Protocol"@
    &&& s[0].level == PolicyLevel::Critical
    &&& s[0].active
    &&& s[0].rules@.len() == 3
    &&& s[0].rules@[0].0@ == "harm_prevention"@
    &&& s[0].rules@[0].1 matches RuleValue::Flag(b) && b
    &&& s[0].rules@[1].0@ == "emergency_override"@
    &&& s[0].rules@[1].1 matches RuleValue::Flag(b) && b
    &&& s[0].rules@[2].0@ == "human_consent_required"@
    &&& s[0].rules@[2].1 matches RuleValue::TextList(ls) && ls@.len() == 2 && ls@[0]@
        == "device_control"@ && ls@[1]@ == "data_access"@
    &&& s[1].id@ == "rust_resource_001"@
    &&& s[1].name@ == "Resource Usage Limits"@
    &&& s[1].level == PolicyLevel::High
    &&& s[1].active
    &&& s[1].rules@.len() == 3
    &&& s[1].rules@[0].0@ == "max_cpu_usage"@
    &&& s[1].rules@[0].1 matches RuleValue::Limit(v) && v == 80
    &&& s[1].rules@[1].0@ == "max_memory_usage"@
    &&& s[1].rules@[1].1 matches RuleValue::Limit(v) && v == 75
    &&& s[1].rules@[2].0@ == "max_concurrent_operations"@
    &&& s[1].rules@[2].1 matches RuleValue::Limit(v) && v == 5
    &&& s[2].id@ == "rust_learning_001"@
    &&& s[2].name@ == "Learning Safety Constraints"@
    &&& s[2].level == PolicyLevel::High
    &&& s[2].active
    &&& s[2].rules@.len() == 3
    &&& s[2].rules@[0].0@ == "no_harmful_content"@
    &&& s[2].rules@[0].1 matches RuleValue::Flag(b) && b
    &&& s[2].rules@[1].0@ == "bias_detection"@
    &&& s[2].rules@[1].1 matches RuleValue::Flag(b) && b
    &&& s[2].rules@[2].0@ == "experiment_safety_check"@
    &&& s[2].rules@[2].1 matches RuleValue::Flag(b) && b
}

/// Owns the policy registry, the violation log, and the enforcement flag.
pub struct RustPolicyEngine {
    pub policies: Vec<Policy>,
    pub violations: Vec<PolicyViolation>,
    pub enforcement_active: bool,
    pub last_safety_check: u64,
}

impl RustPolicyEngine {
    /// An empty registry with enforcement on; `now` stamps the safety
    /// check.
    pub fn new(now: u64) -> (r: Self)
        ensures
            r.policies@ == Seq::<Policy>::empty(),
            r.violations@ == Seq::<PolicyViolation>::empty(),
            r.enforcement_active,
            r.last_safety_check == now,
    {
        RustPolicyEngine {
            policies: Vec::new(),
            violations: Vec::new(),
            enforcement_active: true,
            last_safety_check: now,
        }
    }

    /// Loads the fixed seed registry, replacing whatever was there, and
    /// turns enforcement on. Idempotent.
    pub fn initialize(&mut self, now: u64)
        ensures
            spec_is_core_policies(final(self).policies@),
            final(self).enforcement_active,
            final(self).last_safety_check == now,
            final(self).violations@ == old(self).violations@,
    {
        self.load_core_policies();
        self.enforcement_active = true;
        self.last_safety_check = now;
    }

    fn load_core_policies(&mut self)
        ensures
            spec_is_core_policies(final(self).policies@),
            final(self).enforcement_active == old(self).enforcement_active,
            final(self).last_safety_check == old(self).last_safety_check,
            final(self).violations@ == old(self).violations@,
    {
        let mut safety_rules: Vec<(String, RuleValue)> = Vec::new();
        safety_rules.push(("harm_prevention".to_owned(), RuleValue::Flag(true)));
        safety_rules.push(("emergency_override".to_owned(), RuleValue::Flag(true)));
        let mut consent_kinds: Vec<String> = Vec::new();
        consent_kinds.push("device_control".to_owned());
        consent_kinds.push("data_access".to_owned());
        safety_rules.push(("human_consent_required".to_owned(), RuleValue::TextList(
            consent_kinds,
        )));
        let safety_policy = Policy {
            id: "rust_safety_001".to_owned(),
            name: "Critical Safety Protocol".to_owned(),
            description: "Safety constraints on every runtime operation".to_owned(),
            level: PolicyLevel::Critical,
            rules: safety_rules,
            active: true,
        };

        let mut resource_rules: Vec<(String, RuleValue)> = Vec::new();
        resource_rules.push(("max_cpu_usage".to_owned(), RuleValue::Limit(80)));
        resource_rules.push(("max_memory_usage".to_owned(), RuleValue::Limit(75)));
        resource_rules.push(("max_concurrent_operations".to_owned(), RuleValue::Limit(5)));
        let resource_policy = Policy {
            id: "rust_resource_001".to_owned(),
            name: "Resource Usage Limits".to_owned(),
            description: "Prevent excessive resource consumption".to_owned(),
            level: PolicyLevel::High,
            rules: resource_rules,
            active: true,
        };

        let mut learning_rules: Vec<(String, RuleValue)> = Vec::new();
        learning_rules.push(("no_harmful_content".to_owned(), RuleValue::Flag(true)));
        learning_rules.push(("bias_detection".to_owned(), RuleValue::Flag(true)));
        learning_rules.push(("experiment_safety_check".to_owned(), RuleValue::Flag(true)));
        let learning_policy = Policy {
            id: "rust_learning_001".to_owned(),
            name: "Learning Safety Constraints".to_owned(),
            description: "Boundaries on the runtime's learning processes".to_owned(),
            level: PolicyLevel::High,
            rules: learning_rules,
            active: true,
        };

        let mut loaded: Vec<Policy> = Vec::new();
        loaded.push(safety_policy);
        loaded.push(resource_policy);
        loaded.push(learning_policy);
        self.policies = loaded;
    }

    /// Admission is open when enforcement is off; otherwise every active
    /// policy is consulted and the first denial wins.
    pub open spec fn spec_can_grant(self, kind: Seq<char>) -> bool {
        !self.enforcement_active || (forall|i: int|
            0 <= i < self.policies@.len() && (#[trigger] self.policies@[i]).active
                ==> spec_complies(self.policies@[i], kind))
    }

    /// Consults one policy's compliance rule, keyed by the policy's
    /// identity and the requested kind.
    pub fn check_policy_compliance(&self, policy: &Policy, lease_type: &str) -> (r: bool)
        ensures
            r == spec_complies(*policy, lease_type@),
    {
        if str_eq(policy.id.as_str(), "rust_safety_001") {
            // The safety rule would check consent for device control here.
            true
        } else if str_eq(policy.id.as_str(), "rust_resource_001") {
            // The resource rule would check current usage for computation here.
            true
        } else if str_eq(policy.id.as_str(), "rust_learning_001") {
            // The learning rule would check constraints for learning and
            // experimentation here.
            true
        } else {
            true
        }
    }

    /// Evaluates a lease request of the given kind against every active
    /// policy; a read, the registry is untouched.
    pub fn can_grant_lease(&self, lease_type: &str) -> (r: bool)
        ensures
            r == self.spec_can_grant(lease_type@),
    {
        if !self.enforcement_active {
            return true;
        }
        let n = self.policies.len();
        let mut i: usize = 0;
        while i < n
            invariant
                i <= n,
                n == self.policies@.len(),
                forall|j: int|
                    0 <= j < i && (#[trigger] self.policies@[j]).active ==> spec_complies(
                        self.policies@[j],
                        lease_type@,
                    ),
            decreases n - i,
        {
            if self.policies[i].active {
                if !self.check_policy_compliance(&self.policies[i], lease_type) {
                    return false;
                }
            }
            i = i + 1;
        }
        true
    }

    /// Appends to the violation log; no policy's activation changes.
    pub fn report_violation(
        &mut self,
        policy_id: String,
        violation_type: String,
        severity: PolicyLevel,
        description: String,
        now: u64,
    )
        ensures
            final(self).policies@ == old(self).policies@,
            final(self).enforcement_active == old(self).enforcement_active,
            final(self).last_safety_check == old(self).last_safety_check,
            final(self).violations@ == old(self).violations@.push(
                (PolicyViolation { timestamp: now, policy_id, violation_type, severity, description
                }),
            ),
    {
        let violation = PolicyViolation {
            timestamp: now,
            policy_id,
            violation_type,
            severity,
            description,
        };
        self.violations.push(violation);
    }

    /// Status snapshot: active policy count, cumulative violation count,
    /// the enforcement flag, and the time since the last safety check.
    pub fn get_status(&self, now: u64) -> (r: PolicyStatus)
        ensures
            r.active_policies == spec_active_policy_count(self.policies@),
            r.violations_count == self.violations@.len(),
            r.enforcement_active == self.enforcement_active,
            r.last_check == (if now >= self.last_safety_check {
                (now - self.last_safety_check) as u64
            } else {
                0u64
            }),
    {
        let n = self.policies.len();
        let mut c: usize = 0;
        let mut i: usize = 0;
        while i < n
            invariant
                i <= n,
                n == self.policies@.len(),
                c <= i,
                c as nat == spec_active_policy_count(self.policies@.subrange(0, i as int)),
            decreases n - i,
        {
            proof {
                assert(self.policies@.subrange(0, i as int + 1) =~= self.policies@.subrange(
                    0,
                    i as int,
                ).push(self.policies@[i as int]));
                lemma_active_count_push(self.policies@.subrange(0, i as int), self.policies@[i as int]);
            }
            if self.policies[i].active {
                c = c + 1;
            }
            i = i + 1;
        }
        proof {
            assert(self.policies@.subrange(0, n as int) =~= self.policies@);
        }
        let last_check: u64 = if now >= self.last_safety_check {
            now - self.last_safety_check
        } else {
            0
        };
        PolicyStatus {
            active_policies: c,
            violations_count: self.violations.len(),
            enforcement_active: self.enforcement_active,
            last_check,
        }
    }

    /// Deactivates every non-critical policy and forces enforcement on.
    /// Idempotent: repeating it leaves the same end state.
    pub fn emergency_lockdown(&mut self)
        ensures
            final(self).enforcement_active,
            final(self).policies@ == old(self).policies@.map_values(
                |p: Policy| spec_locked_policy(p),
            ),
            final(self).violations@ == old(self).violations@,
            final(self).last_safety_check == old(self).last_safety_check,
    {
        let n = self.policies.len();
        let mut i: usize = 0;
        while i < n
            invariant
                i <= n,
                n == self.policies@.len(),
                self.violations@ == old(self).violations@,
                self.enforcement_active == old(self).enforcement_active,
                self.last_safety_check == old(self).last_safety_check,
                forall|j: int|
                    i <= j < n ==> #[trigger] self.policies@[j] == old(self).policies@[j],
                forall|j: int|
                    0 <= j < i ==> #[trigger] self.policies@[j] == spec_locked_policy(
                        old(self).policies@[j],
                    ),
            decreases n - i,
        {
            match self.policies[i].level {
                PolicyLevel::Critical => {},
                _ => {
                    self.policies[i].active = false;
                },
            }
            i = i + 1;
        }
        self.enforcement_active = true;
        proof {
            assert(self.policies@ =~= old(self).policies@.map_values(
                |p: Policy| spec_locked_policy(p),
            ));
        }
    }

    /// Turns enforcement off; the registry and log are kept.
    pub fn shutdown(&mut self)
        ensures
            !final(self).enforcement_active,
            final(self).policies@ == old(self).policies@,
            final(self).violations@ == old(self).violations@,
            final(self).last_safety_check == old(self).last_safety_check,
    {
        self.enforcement_active = false;
    }
}

/// Law: while enforcement is off, a request of every kind whatsoever is
/// admitted, whatever policies are loaded.
pub proof fn lemma_enforcement_inactive_grants_all(e: RustPolicyEngine, kind: Seq<char>)
    requires
        !e.enforcement_active,
    ensures
        e.spec_can_grant(kind),
{
}

/// Law: the emergency lockdown is idempotent on the policy registry.
pub proof fn lemma_lockdown_idempotent(s: Seq<Policy>)
    ensures
        s.map_values(|p: Policy| spec_locked_policy(p)).map_values(
            |p: Policy| spec_locked_policy(p),
        ) == s.map_values(|p: Policy| spec_locked_policy(p)),
{
    assert(s.map_values(|p: Policy| spec_locked_policy(p)).map_values(
        |p: Policy| spec_locked_policy(p),
    ) =~= s.map_values(|p: Policy| spec_locked_policy(p)));
}

} // verus!
