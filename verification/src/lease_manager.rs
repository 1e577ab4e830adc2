//! Lease management: grants time-bounded capabilities over sensitive
//! resource classes, enforces a concurrency ceiling, and expires leases
//! by monotonic-clock deadline.

use vstd::prelude::*;

verus! {

use crate::policy_engine::RuleValue;
use crate::text::str_eq;
use crate::ids::fresh_uuid_string;
use crate::seq_util::lemma_filter_step;

/// The closed set of resource classes a lease can cover.
#[derive(Debug, Clone, Copy, PartialEq, Eq, Structural)]
pub enum LeaseType {
    Computation,
    NetworkAccess,
    FileSystem,
    DeviceControl,
    Learning,
    Experimentation,
}

/// The lease type named by a request string, if it names one at all.
pub open spec fn spec_lease_type_of(s: Seq<char>) -> Option<LeaseType> {
    if s == "computation"@ {
        Some(LeaseType::Computation)
    } else if s == "network_access"@ {
        Some(LeaseType::NetworkAccess)
    } else if s == "file_system"@ {
        Some(LeaseType::FileSystem)
    } else if s == "device_control"@ {
        Some(LeaseType::DeviceControl)
    } else if s == "learning"@ {
        Some(LeaseType::Learning)
    } else if s == "experimentation"@ {
        Some(LeaseType::Experimentation)
    } else {
        None
    }
}

/// Boundary validation of a request string into the closed lease-type set.
pub fn lease_type_from_name(name: &str) -> (r: Option<LeaseType>)
    ensures
        r == spec_lease_type_of(name@),
{
    if str_eq(name, "computation") {
        Some(LeaseType::Computation)
    } else if str_eq(name, "network_access") {
        Some(LeaseType::NetworkAccess)
    } else if str_eq(name, "file_system") {
        Some(LeaseType::FileSystem)
    } else if str_eq(name, "device_control") {
        Some(LeaseType::DeviceControl)
    } else if str_eq(name, "learning") {
        Some(LeaseType::Learning)
    } else if str_eq(name, "experimentation") {
        Some(LeaseType::Experimentation)
    } else {
        None
    }
}

/// A granted capability. Timestamps are readings of a monotonic clock in
/// milliseconds; `expires_at` is strictly after `granted_at`.
#[derive(Debug)]
pub struct Lease {
    /// Unique within one manager: the value of the grant counter at grant time.
    pub id: u64,
    /// Opaque textual identifier recorded for external correlation.
    pub uuid: String,
    pub lease_type: LeaseType,
    pub granted_at: u64,
    pub expires_at: u64,
    /// Policy-supplied constraint values; empty under the current policy set.
    pub permissions: Vec<(String, RuleValue)>,
    pub active: bool,
}

/// The lease as it is retired into the history log.
pub open spec fn spec_deactivated(l: Lease) -> Lease {
    Lease { active: false, ..l }
}

/// Status snapshot of the lease manager.
#[derive(Debug)]
pub struct LeaseStatus {
    pub active_leases: usize,
    pub total_granted: u64,
    /// The distinct resource classes currently under an active lease.
    pub lease_types: Vec<LeaseType>,
    /// Active leases per thousand of the concurrency ceiling; 0 when the
    /// ceiling is 0.
    pub utilization_permille: u64,
}

/// Owns the set of active leases and the append-only history log.
pub struct RustLeaseManager {
    pub active_leases: Vec<Lease>,
    pub lease_history: Vec<Lease>,
    pub max_concurrent: usize,
    /// Fallback lease duration in milliseconds; strictly positive.
    pub default_duration: u64,
    pub total_granted: u64,
}

impl RustLeaseManager {
    /// Well-formedness: the ceiling is respected, every stored lease has a
    /// strictly later expiry than grant, ids are drawn from the grant
    /// counter (hence below it) and unique among active leases, and the
    /// history holds only retired leases.
    pub open spec fn wf(self) -> bool {
        &&& self.active_leases@.len() <= self.max_concurrent
        &&& self.default_duration > 0
        &&& forall|i: int|
            0 <= i < self.active_leases@.len() ==> {
                &&& (#[trigger] self.active_leases@[i]).active
                &&& self.active_leases@[i].expires_at > self.active_leases@[i].granted_at
                &&& self.active_leases@[i].id < self.total_granted
            }
        &&& forall|i: int, j: int|
            0 <= i < j < self.active_leases@.len()
                ==> (#[trigger] self.active_leases@[i]).id
                != (#[trigger] self.active_leases@[j]).id
        &&& forall|i: int|
            0 <= i < self.lease_history@.len() ==> {
                &&& !(#[trigger] self.lease_history@[i]).active
                &&& self.lease_history@[i].expires_at > self.lease_history@[i].granted_at
                &&& self.lease_history@[i].id < self.total_granted
            }
    }

    /// Some active lease carries this id.
    pub open spec fn has_active(self, id: u64) -> bool {
        exists|i: int|
            0 <= i < self.active_leases@.len() && (#[trigger] self.active_leases@[i]).id == id
    }

    /// The lease exists, is active, and has not yet reached its deadline.
    pub open spec fn spec_lease_valid(self, id: u64, now: u64) -> bool {
        exists|i: int|
            {
                &&& 0 <= i < self.active_leases@.len()
                &&& (#[trigger] self.active_leases@[i]).id == id
                &&& self.active_leases@[i].active
                &&& now < self.active_leases@[i].expires_at
            }
    }

    pub fn new(max_concurrent: usize, default_duration: u64) -> (r: Self)
        requires
            default_duration > 0,
        ensures
            r.wf(),
            r.active_leases@ == Seq::<Lease>::empty(),
            r.lease_history@ == Seq::<Lease>::empty(),
            r.max_concurrent == max_concurrent,
            r.default_duration == default_duration,
            r.total_granted == 0,
    {
        RustLeaseManager {
            active_leases: Vec::new(),
            lease_history: Vec::new(),
            max_concurrent,
            default_duration,
            total_granted: 0,
        }
    }

    /// Fail-safe initialization: nothing is pre-granted. Idempotent.
    pub fn initialize(&mut self)
        requires
            old(self).wf(),
        ensures
            final(self).wf(),
            final(self).active_leases@ == Seq::<Lease>::empty(),
            final(self).lease_history@ == old(self).lease_history@,
            final(self).max_concurrent == old(self).max_concurrent,
            final(self).default_duration == old(self).default_duration,
            final(self).total_granted == old(self).total_granted,
    {
        self.active_leases.clear();
    }

    /// The duration a request will run with: the one asked for, or the
    /// manager's default.
    pub open spec fn spec_duration_or(self, duration: Option<u64>) -> u64 {
        match duration {
            Some(d) => d,
            None => self.default_duration,
        }
    }

    /// What a successful grant does: the counter advances, history and
    /// configuration are untouched, the prior active leases are kept in
    /// order, and the new lease is appended with the requested kind and a
    /// deadline of `now` plus the effective duration.
    pub open spec fn spec_grant_transition(
        pre: Self,
        post: Self,
        lease_type: Seq<char>,
        duration: Option<u64>,
        now: u64,
        id: u64,
    ) -> bool {
        &&& id == pre.total_granted
        &&& post.total_granted == pre.total_granted + 1
        &&& post.max_concurrent == pre.max_concurrent
        &&& post.default_duration == pre.default_duration
        &&& post.lease_history@ == pre.lease_history@
        &&& post.active_leases@.len() == pre.active_leases@.len() + 1
        &&& post.active_leases@.subrange(0, pre.active_leases@.len() as int)
            == pre.active_leases@
        &&& post.active_leases@.last().id == id
        &&& post.active_leases@.last().lease_type == spec_lease_type_of(lease_type).unwrap()
        &&& post.active_leases@.last().granted_at == now
        &&& post.active_leases@.last().expires_at == now + pre.spec_duration_or(duration)
        &&& post.active_leases@.last().active
        &&& post.active_leases@.last().permissions@.len() == 0
        &&& post.active_leases@.last().uuid@.len() == 36
    }

    /// Grants a lease unless the concurrency ceiling is reached or the
    /// request string names no known lease type; either rejection returns
    /// `None` and leaves the manager exactly as it was.
    pub fn request_lease(&mut self, lease_type: &str, duration: Option<u64>, now: u64) -> (r:
        Option<u64>)
        requires
            old(self).wf(),
            duration matches Some(d) ==> d > 0,
            now + old(self).spec_duration_or(duration) <= u64::MAX,
            old(self).total_granted < u64::MAX,
        ensures
            final(self).wf(),
            final(self).max_concurrent == old(self).max_concurrent,
            final(self).default_duration == old(self).default_duration,
            final(self).lease_history@ == old(self).lease_history@,
            (r is Some) <==> (old(self).active_leases@.len() < old(self).max_concurrent
                && spec_lease_type_of(lease_type@) is Some),
            r is None ==> *final(self) == *old(self),
            r matches Some(id) ==> Self::spec_grant_transition(
                *old(self),
                *final(self),
                lease_type@,
                duration,
                now,
                id,
            ),
            forall|x: u64|
                x < old(self).total_granted ==> final(self).has_active(x) == old(self).has_active(
                    x,
                ),
    {
        if self.active_leases.len() >= self.max_concurrent {
            return None;
        }
        let lt = match lease_type_from_name(lease_type) {
            Some(t) => t,
            None => { return None; },
        };
        let id = self.total_granted;
        let dur = match duration {
            Some(d) => d,
            None => self.default_duration,
        };
        let lease = Lease {
            id,
            uuid: fresh_uuid_string(),
            lease_type: lt,
            granted_at: now,
            expires_at: now + dur,
            permissions: Vec::new(),
            active: true,
        };
        self.active_leases.push(lease);
        self.total_granted = self.total_granted + 1;
        proof {
            assert forall|x: u64| x < old(self).total_granted implies self.has_active(x)
                == old(self).has_active(x) by {
                if old(self).has_active(x) {
                    let i = choose|i: int|
                        0 <= i < old(self).active_leases@.len() && (#[trigger] old(
                            self,
                        ).active_leases@[i]).id == x;
                    assert(self.active_leases@[i].id == x);
                }
                if self.has_active(x) {
                    let i = choose|i: int|
                        0 <= i < self.active_leases@.len() && (#[trigger] self.active_leases@[i]).id
                            == x;
                    assert(i < old(self).active_leases@.len());
                    assert(old(self).active_leases@[i].id == x);
                }
            }
        }
        proof {
            assert(self.active_leases@.subrange(0, old(self).active_leases@.len() as int)
                =~= old(self).active_leases@);
        }
        Some(id)
    }

    /// True iff the lease exists, is active, and its deadline has not passed.
    pub fn is_lease_valid(&self, lease_id: u64, now: u64) -> (r: bool)
        requires
            self.wf(),
        ensures
            r == self.spec_lease_valid(lease_id, now),
    {
        let n = self.active_leases.len();
        let mut i: usize = 0;
        while i < n
            invariant
                self.wf(),
                i <= n,
                n == self.active_leases@.len(),
                forall|j: int|
                    0 <= j < i ==> (#[trigger] self.active_leases@[j]).id != lease_id,
            decreases n - i,
        {
            if self.active_leases[i].id == lease_id {
                let r = self.active_leases[i].active && now < self.active_leases[i].expires_at;
                proof {
                    if !r && self.spec_lease_valid(lease_id, now) {
                        let j = choose|j: int|
                            {
                                &&& 0 <= j < self.active_leases@.len()
                                &&& (#[trigger] self.active_leases@[j]).id == lease_id
                                &&& self.active_leases@[j].active
                                &&& now < self.active_leases@[j].expires_at
                            };
                        if j < i as int {
                            assert(self.active_leases@[j].id != self.active_leases@[i as int].id);
                        } else if j > i as int {
                            assert(self.active_leases@[i as int].id != self.active_leases@[j].id);
                        }
                        assert(j == i as int);
                    }
                }
                return r;
            }
            i = i + 1;
        }
        false
    }

    /// Removing one active lease into the history keeps the manager well
    /// formed.
    proof fn lemma_wf_after_remove(pre: RustLeaseManager, post: RustLeaseManager, i: int)
        requires
            pre.wf(),
            0 <= i < pre.active_leases@.len(),
            post.active_leases@ == pre.active_leases@.remove(i),
            post.lease_history@ == pre.lease_history@.push(
                spec_deactivated(pre.active_leases@[i]),
            ),
            post.max_concurrent == pre.max_concurrent,
            post.default_duration == pre.default_duration,
            post.total_granted == pre.total_granted,
        ensures
            post.wf(),
    {
        let s = pre.active_leases@;
        let t = post.active_leases@;
        s.remove_ensures(i);
        assert forall|k: int| 0 <= k < t.len() implies {
            &&& (#[trigger] t[k]).active
            &&& t[k].expires_at > t[k].granted_at
            &&& t[k].id < post.total_granted
        } by {
            if k < i {
                assert(t[k] == s[k]);
            } else {
                assert(t[k] == s[k + 1]);
            }
        }
        assert forall|a: int, b: int| 0 <= a < b < t.len() implies (#[trigger] t[a]).id
            != (#[trigger] t[b]).id by {
            let a2: int = if a < i { a } else { a + 1 };
            let b2: int = if b < i { b } else { b + 1 };
            assert(t[a] == s[a2]);
            assert(t[b] == s[b2]);
            assert(s[a2].id != s[b2].id);
        }
        let h = post.lease_history@;
        assert forall|k: int| 0 <= k < h.len() implies {
            &&& !(#[trigger] h[k]).active
            &&& h[k].expires_at > h[k].granted_at
            &&& h[k].id < post.total_granted
        } by {
            if k < pre.lease_history@.len() {
                assert(h[k] == pre.lease_history@[k]);
            } else {
                assert(h[k] == spec_deactivated(s[i]));
            }
        }
    }

    /// Revokes an active lease by id, retiring it into the history; a
    /// missing or already-retired id is a no-op reported as `false`.
    pub fn revoke_lease(&mut self, lease_id: u64) -> (r: bool)
        requires
            old(self).wf(),
        ensures
            final(self).wf(),
            r == old(self).has_active(lease_id),
            final(self).max_concurrent == old(self).max_concurrent,
            final(self).default_duration == old(self).default_duration,
            final(self).total_granted == old(self).total_granted,
            !r ==> *final(self) == *old(self),
            r ==> exists|i: int|
                {
                    &&& 0 <= i < old(self).active_leases@.len()
                    &&& (#[trigger] old(self).active_leases@[i]).id == lease_id
                    &&& final(self).active_leases@ == old(self).active_leases@.remove(i)
                    &&& final(self).lease_history@ == old(self).lease_history@.push(
                        spec_deactivated(old(self).active_leases@[i]),
                    )
                },
            !final(self).has_active(lease_id),
            forall|x: u64|
                x != lease_id ==> final(self).has_active(x) == old(self).has_active(x),
    {
        let n = self.active_leases.len();
        let mut i: usize = 0;
        while i < n
            invariant
                *self == *old(self),
                old(self).wf(),
                i <= n,
                n == self.active_leases@.len(),
                forall|j: int|
                    0 <= j < i ==> (#[trigger] self.active_leases@[j]).id != lease_id,
            decreases n - i,
        {
            if self.active_leases[i].id == lease_id {
                let ghost fi = i as int;
                let ghost s = self.active_leases@;
                let mut l = self.active_leases.remove(i);
                l.active = false;
                self.lease_history.push(l);
                proof {
                    assert(l == spec_deactivated(s[fi]));
                    Self::lemma_wf_after_remove(*old(self), *self, fi);
                    s.remove_ensures(fi);
                    let t = self.active_leases@;
                    assert forall|k: int| 0 <= k < t.len() implies (#[trigger] t[k]).id
                        != lease_id by {
                        if k < fi {
                            assert(t[k] == s[k]);
                            assert(s[k].id != s[fi].id);
                        } else {
                            assert(t[k] == s[k + 1]);
                            assert(s[fi].id != s[k + 1].id);
                        }
                    }
                    assert forall|x: u64| x != lease_id implies self.has_active(x) == old(
                        self,
                    ).has_active(x) by {
                        if old(self).has_active(x) {
                            let j = choose|j: int|
                                0 <= j < s.len() && (#[trigger] s[j]).id == x;
                            if j < fi {
                                assert(t[j] == s[j]);
                                assert(t[j].id == x);
                            } else if j > fi {
                                assert(t[j - 1] == s[j]);
                                assert(t[j - 1].id == x);
                            }
                        }
                        if self.has_active(x) {
                            let k = choose|k: int|
                                0 <= k < t.len() && (#[trigger] t[k]).id == x;
                            if k < fi {
                                assert(s[k].id == x);
                            } else {
                                assert(s[k + 1].id == x);
                            }
                        }
                    }
                    assert(old(self).active_leases@[fi].id == lease_id);
                }
                return true;
            }
            i = i + 1;
        }
        false
    }

    /// Revokes every currently active lease, in storage order, as part of
    /// an emergency cascade. Safe to call with no active leases.
    pub fn revoke_all_leases(&mut self)
        requires
            old(self).wf(),
        ensures
            final(self).wf(),
            final(self).active_leases@.len() == 0,
            final(self).max_concurrent == old(self).max_concurrent,
            final(self).default_duration == old(self).default_duration,
            final(self).total_granted == old(self).total_granted,
            final(self).lease_history@ == old(self).lease_history@ + old(
                self,
            ).active_leases@.map_values(|l: Lease| spec_deactivated(l)),
    {
        let ghost s = self.active_leases@;
        let ghost h0 = self.lease_history@;
        let ghost mut k: int = 0;
        while self.active_leases.len() > 0
            invariant
                self.wf(),
                0 <= k <= s.len(),
                self.active_leases@ == s.subrange(k, s.len() as int),
                self.lease_history@ == h0 + s.subrange(0, k).map_values(
                    |l: Lease| spec_deactivated(l),
                ),
                self.max_concurrent == old(self).max_concurrent,
                self.default_duration == old(self).default_duration,
                self.total_granted == old(self).total_granted,
            decreases s.len() - k,
        {
            let ghost pre = *self;
            let mut l = self.active_leases.remove(0);
            l.active = false;
            self.lease_history.push(l);
            proof {
                assert(pre.active_leases@[0] == s[k]);
                assert(l == spec_deactivated(s[k]));
                Self::lemma_wf_after_remove(pre, *self, 0);
                k = k + 1;
                assert(self.active_leases@ =~= s.subrange(k, s.len() as int));
                assert(self.lease_history@ =~= h0 + s.subrange(0, k).map_values(
                    |x: Lease| spec_deactivated(x),
                ));
            }
        }
        proof {
            assert(s.subrange(0, k) =~= s);
            assert(self.lease_history@ =~= old(self).lease_history@ + old(
                self,
            ).active_leases@.map_values(|l: Lease| spec_deactivated(l)));
        }
    }

    /// Scans the active leases and retires every one whose deadline has
    /// been reached; surviving leases keep their order.
    pub fn cleanup_expired_leases(&mut self, now: u64)
        requires
            old(self).wf(),
        ensures
            final(self).wf(),
            final(self).max_concurrent == old(self).max_concurrent,
            final(self).default_duration == old(self).default_duration,
            final(self).total_granted == old(self).total_granted,
            final(self).active_leases@ == old(self).active_leases@.filter(
                |l: Lease| now < l.expires_at,
            ),
            final(self).lease_history@ == old(self).lease_history@ + old(
                self,
            ).active_leases@.filter(|l: Lease| l.expires_at <= now).map_values(
                |l: Lease| spec_deactivated(l),
            ),
    {
        let ghost keep = |l: Lease| now < l.expires_at;
        let ghost gone = |l: Lease| l.expires_at <= now;
        let ghost s = self.active_leases@;
        let ghost h0 = self.lease_history@;
        let ghost mut k: int = 0;
        let mut i: usize = 0;
        while i < self.active_leases.len()
            invariant
                keep == (|l: Lease| now < l.expires_at),
                gone == (|l: Lease| l.expires_at <= now),
                self.wf(),
                0 <= k <= s.len(),
                i as int == s.subrange(0, k).filter(keep).len(),
                self.active_leases@ == s.subrange(0, k).filter(keep) + s.subrange(
                    k,
                    s.len() as int,
                ),
                self.lease_history@ == h0 + s.subrange(0, k).filter(gone).map_values(
                    |l: Lease| spec_deactivated(l),
                ),
                self.max_concurrent == old(self).max_concurrent,
                self.default_duration == old(self).default_duration,
                self.total_granted == old(self).total_granted,
            decreases s.len() - k,
        {
            proof {
                Seq::<Lease>::lemma_filter_len(s.subrange(0, k), keep);
                assert(k < s.len());
                assert(self.active_leases@[i as int] == s[k]);
            }
            if self.active_leases[i].expires_at <= now {
                let ghost pre = *self;
                let mut l = self.active_leases.remove(i);
                l.active = false;
                self.lease_history.push(l);
                proof {
                    assert(l == spec_deactivated(s[k]));
                    Self::lemma_wf_after_remove(pre, *self, i as int);
                    lemma_filter_step(s, keep, k);
                    lemma_filter_step(s, gone, k);
                    k = k + 1;
                    assert(self.active_leases@ =~= s.subrange(0, k).filter(keep) + s.subrange(
                        k,
                        s.len() as int,
                    ));
                    assert(self.lease_history@ =~= h0 + s.subrange(0, k).filter(gone).map_values(
                        |l: Lease| spec_deactivated(l),
                    ));
                }
            } else {
                i = i + 1;
                proof {
                    lemma_filter_step(s, keep, k);
                    lemma_filter_step(s, gone, k);
                    k = k + 1;
                    assert(self.active_leases@ =~= s.subrange(0, k).filter(keep) + s.subrange(
                        k,
                        s.len() as int,
                    ));
                    assert(self.lease_history@ =~= h0 + s.subrange(0, k).filter(gone).map_values(
                        |l: Lease| spec_deactivated(l),
                    ));
                }
            }
        }
        proof {
            Seq::<Lease>::lemma_filter_len(s.subrange(0, k), keep);
            assert(k == s.len());
            assert(s.subrange(0, k) =~= s);
        }
    }

    /// Some active lease covers this resource class.
    pub open spec fn spec_has_kind(self, k: LeaseType) -> bool {
        exists|i: int|
            0 <= i < self.active_leases@.len() && (#[trigger] self.active_leases@[i]).lease_type
                == k
    }

    fn has_kind(&self, k: LeaseType) -> (r: bool)
        ensures
            r == self.spec_has_kind(k),
    {
        let n = self.active_leases.len();
        let mut i: usize = 0;
        while i < n
            invariant
                i <= n,
                n == self.active_leases@.len(),
                forall|j: int|
                    0 <= j < i ==> (#[trigger] self.active_leases@[j]).lease_type != k,
            decreases n - i,
        {
            if self.active_leases[i].lease_type == k {
                return true;
            }
            i = i + 1;
        }
        false
    }

    /// The distinct resource classes currently under an active lease, in
    /// declaration order of `LeaseType`.
    pub open spec fn spec_active_kinds(self) -> Seq<LeaseType> {
        (if self.spec_has_kind(LeaseType::Computation) {
            seq![LeaseType::Computation]
        } else {
            Seq::<LeaseType>::empty()
        }) + (if self.spec_has_kind(LeaseType::NetworkAccess) {
            seq![LeaseType::NetworkAccess]
        } else {
            Seq::<LeaseType>::empty()
        }) + (if self.spec_has_kind(LeaseType::FileSystem) {
            seq![LeaseType::FileSystem]
        } else {
            Seq::<LeaseType>::empty()
        }) + (if self.spec_has_kind(LeaseType::DeviceControl) {
            seq![LeaseType::DeviceControl]
        } else {
            Seq::<LeaseType>::empty()
        }) + (if self.spec_has_kind(LeaseType::Learning) {
            seq![LeaseType::Learning]
        } else {
            Seq::<LeaseType>::empty()
        }) + (if self.spec_has_kind(LeaseType::Experimentation) {
            seq![LeaseType::Experimentation]
        } else {
            Seq::<LeaseType>::empty()
        })
    }

    /// Active leases per thousand of the concurrency ceiling.
    pub open spec fn spec_utilization_permille(self) -> u64 {
        if self.max_concurrent == 0 {
            0u64
        } else {
            ((self.active_leases@.len() as int * 1000) / (self.max_concurrent as int)) as u64
        }
    }

    /// Status snapshot: active count, cumulative grant count, the distinct
    /// active resource classes, and the utilization of the ceiling.
    pub fn get_status(&self) -> (r: LeaseStatus)
        requires
            self.wf(),
        ensures
            r.active_leases == self.active_leases@.len(),
            r.total_granted == self.total_granted,
            r.lease_types@ == self.spec_active_kinds(),
            r.utilization_permille == self.spec_utilization_permille(),
    {
        let mut kinds: Vec<LeaseType> = Vec::new();
        if self.has_kind(LeaseType::Computation) {
            kinds.push(LeaseType::Computation);
        }
        if self.has_kind(LeaseType::NetworkAccess) {
            kinds.push(LeaseType::NetworkAccess);
        }
        if self.has_kind(LeaseType::FileSystem) {
            kinds.push(LeaseType::FileSystem);
        }
        if self.has_kind(LeaseType::DeviceControl) {
            kinds.push(LeaseType::DeviceControl);
        }
        if self.has_kind(LeaseType::Learning) {
            kinds.push(LeaseType::Learning);
        }
        if self.has_kind(LeaseType::Experimentation) {
            kinds.push(LeaseType::Experimentation);
        }
        let utilization_permille: u64 = if self.max_concurrent == 0 {
            0
        } else {
            proof {
                assert((self.active_leases@.len() as int * 1000) / (self.max_concurrent as int) <= 1000)
                    by (nonlinear_arith)
                    requires
                        self.active_leases@.len() <= self.max_concurrent,
                        self.max_concurrent > 0,
                ;
            }
            (((self.active_leases.len() as u128) * 1000) / (self.max_concurrent as u128)) as u64
        };
        proof {
            assert(kinds@ =~= self.spec_active_kinds());
        }
        LeaseStatus {
            active_leases: self.active_leases.len(),
            total_granted: self.total_granted,
            lease_types: kinds,
            utilization_permille,
        }
    }

    /// The recorded textual identifier of an active lease.
    pub fn get_lease_uuid(&self, lease_id: u64) -> (r: Option<String>)
        requires
            self.wf(),
        ensures
            (r is Some) == self.has_active(lease_id),
            r matches Some(u) ==> exists|i: int|
                {
                    &&& 0 <= i < self.active_leases@.len()
                    &&& (#[trigger] self.active_leases@[i]).id == lease_id
                    &&& u@ == self.active_leases@[i].uuid@
                },
    {
        let n = self.active_leases.len();
        let mut i: usize = 0;
        while i < n
            invariant
                i <= n,
                n == self.active_leases@.len(),
                forall|j: int|
                    0 <= j < i ==> (#[trigger] self.active_leases@[j]).id != lease_id,
            decreases n - i,
        {
            if self.active_leases[i].id == lease_id {
                return Some(self.active_leases[i].uuid.clone());
            }
            i = i + 1;
        }
        None
    }

    /// Shuts the manager down by revoking everything still active.
    pub fn shutdown(&mut self)
        requires
            old(self).wf(),
        ensures
            final(self).wf(),
            final(self).active_leases@.len() == 0,
            final(self).max_concurrent == old(self).max_concurrent,
            final(self).default_duration == old(self).default_duration,
            final(self).total_granted == old(self).total_granted,
            final(self).lease_history@ == old(self).lease_history@ + old(
                self,
            ).active_leases@.map_values(|l: Lease| spec_deactivated(l)),
    {
        self.revoke_all_leases();
    }
}

/// Law: the number of simultaneously active leases never exceeds the
/// configured ceiling, in every well-formed manager state.
pub proof fn lemma_active_leases_bounded(m: RustLeaseManager)
    requires
        m.wf(),
    ensures
        m.active_leases@.len() <= m.max_concurrent,
{
}

/// Law: every lease the manager has ever stored, active or retired,
/// expires strictly after it was granted.
pub proof fn lemma_lease_expires_after_grant(m: RustLeaseManager)
    requires
        m.wf(),
    ensures
        forall|i: int|
            0 <= i < m.active_leases@.len() ==> (#[trigger] m.active_leases@[i]).expires_at
                > m.active_leases@[i].granted_at,
        forall|i: int|
            0 <= i < m.lease_history@.len() ==> (#[trigger] m.lease_history@[i]).expires_at
                > m.lease_history@[i].granted_at,
{
}

/// Law: an id with no active lease is never reported valid, whatever the
/// clock reads. Together with the grant contract, which touches no id
/// below the grant counter, a revoked or expired id stays invalid forever.
pub proof fn lemma_inactive_id_never_valid(m: RustLeaseManager, id: u64, now: u64)
    requires
        !m.has_active(id),
    ensures
        !m.spec_lease_valid(id, now),
{
    if m.spec_lease_valid(id, now) {
        let i = choose|i: int|
            {
                &&& 0 <= i < m.active_leases@.len()
                &&& (#[trigger] m.active_leases@[i]).id == id
                &&& m.active_leases@[i].active
                &&& now < m.active_leases@[i].expires_at
            };
        assert(m.active_leases@[i].id == id);
    }
}

/// Law: a grant never resurrects a retired id. Every id ever issued lies
/// below the grant counter, and a grant issues the counter's value, so an
/// id that is retired stays retired through any number of further grants.
pub proof fn lemma_grant_preserves_retirement(
    pre: RustLeaseManager,
    post: RustLeaseManager,
    lease_type: Seq<char>,
    duration: Option<u64>,
    now: u64,
    id: u64,
    retired: u64,
)
    requires
        RustLeaseManager::spec_grant_transition(pre, post, lease_type, duration, now, id),
        retired < pre.total_granted,
        !pre.has_active(retired),
    ensures
        !post.has_active(retired),
{
    if post.has_active(retired) {
        let i = choose|i: int|
            0 <= i < post.active_leases@.len() && (#[trigger] post.active_leases@[i]).id
                == retired;
        if i < pre.active_leases@.len() {
            assert(pre.active_leases@[i].id == retired);
        } else {
            assert(post.active_leases@[i] == post.active_leases@.last());
        }
    }
}

/// Law: once every lease has been revoked, no id at all is valid.
pub proof fn lemma_revoke_all_invalidates(m: RustLeaseManager, id: u64, now: u64)
    requires
        m.active_leases@.len() == 0,
    ensures
        !m.spec_lease_valid(id, now),
{
    if m.has_active(id) {
        let i = choose|i: int|
            0 <= i < m.active_leases@.len() && (#[trigger] m.active_leases@[i]).id == id;
    }
    lemma_inactive_id_never_valid(m, id, now);
}

} // verus!
