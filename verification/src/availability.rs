//! Per-peer reachability state.
//!
//! The tracker keeps one record per committee member: how many consecutive
//! failures were seen, when the last one happened, and until when the peer is
//! suppressed. A failure extends the suppression window by a non-decreasing
//! amount per consecutive failure; a success clears it. The tracker also
//! computes the earliest instant at which enough stake is contactable for a
//! Byzantine-safe supermajority, which is what gates new connection attempts
//! during a widespread partition. All instants are plain milliseconds.

use vstd::prelude::*;

use crate::committee::{lemma_stake_prefix_bound, stake_prefix, Committee, MAX_COMMITTEE_SIZE};

verus! {

/// One suppression step, in milliseconds.
pub const BACKOFF_UNIT_MS: u64 = 1_000;

/// The suppression window stops growing after this many consecutive failures.
pub const MAX_BACKOFF_STEPS: u64 = 3_600;

/// Largest suppression window, in milliseconds.
pub const MAX_BACKOFF_MS: u64 = 3_600_000;

/// Reachability record of one peer.
pub struct AvailabilityState {
    /// Consecutive failures since the last success.
    pub failure_count: u64,
    /// When the last failure was recorded.
    pub last_failure: u64,
    /// The peer is not contacted again before this instant.
    pub backoff_until: u64,
}

pub struct AvailabilityTracker {
    /// `(name, state)` records, strictly increasing by name.
    pub entries: Vec<(u64, AvailabilityState)>,
}

/// Suppression window after `n` consecutive failures: one unit per failure,
/// capped.
pub open spec fn backoff_delay_ms(n: u64) -> int {
    if n <= MAX_BACKOFF_STEPS {
        BACKOFF_UNIT_MS * n
    } else {
        MAX_BACKOFF_MS as int
    }
}

/// The suppression window never shrinks while failures accumulate.
pub proof fn lemma_backoff_delay_monotone(n1: u64, n2: u64)
    requires
        n1 <= n2,
    ensures
        backoff_delay_ms(n1) <= backoff_delay_ms(n2),
{
}

/// The record that replaces `st` when one more failure lands at `now`.
pub open spec fn after_failure(st: AvailabilityState, now: u64) -> AvailabilityState {
    let n = if st.failure_count == u64::MAX {
        u64::MAX
    } else {
        (st.failure_count + 1) as u64
    };
    AvailabilityState {
        failure_count: n,
        last_failure: now,
        backoff_until: (now + backoff_delay_ms(n)) as u64,
    }
}

/// Two failures in a row push the suppression boundary forward: a second
/// failure, recorded no earlier than the first, never yields an earlier
/// release than the first did.
pub proof fn lemma_consecutive_failures_extend(st: AvailabilityState, t1: u64, t2: u64)
    requires
        t1 <= t2,
        t1 <= u64::MAX - MAX_BACKOFF_MS,
        t2 <= u64::MAX - MAX_BACKOFF_MS,
    ensures
        after_failure(after_failure(st, t1), t2).backoff_until >= after_failure(
            st,
            t1,
        ).backoff_until,
{
    let n1 = after_failure(st, t1).failure_count;
    let n2 = after_failure(after_failure(st, t1), t2).failure_count;
    lemma_backoff_delay_monotone(n1, n2);
}

/// The record that replaces `st` after a success.
pub open spec fn after_success(st: AvailabilityState) -> AvailabilityState {
    AvailabilityState { failure_count: 0, last_failure: st.last_failure, backoff_until: 0 }
}

/// Stake of `rights[0..i]` whose record in `entries` allows contact at `t`.
pub open spec fn contactable_prefix(
    entries: Seq<(u64, AvailabilityState)>,
    rights: Seq<(u64, u64)>,
    t: u64,
    i: int,
) -> int
    decreases i,
{
    if i <= 0 {
        0
    } else {
        contactable_prefix(entries, rights, t, i - 1) + if entries[i - 1].1.backoff_until <= t {
            rights[i - 1].1 as int
        } else {
            0
        }
    }
}

/// How many of the first `i` records still suppress contact at `t`.
pub open spec fn count_suppressed(entries: Seq<(u64, AvailabilityState)>, t: u64, i: int) -> nat
    decreases i,
{
    if i <= 0 {
        0nat
    } else {
        count_suppressed(entries, t, i - 1) + if entries[i - 1].1.backoff_until > t {
            1nat
        } else {
            0nat
        }
    }
}

pub proof fn lemma_contactable_prefix_bound(
    entries: Seq<(u64, AvailabilityState)>,
    rights: Seq<(u64, u64)>,
    t: u64,
    i: int,
)
    requires
        0 <= i <= rights.len(),
    ensures
        0 <= contactable_prefix(entries, rights, t, i) <= stake_prefix(rights, i),
    decreases i,
{
    if i > 0 {
        lemma_contactable_prefix_bound(entries, rights, t, i - 1);
    }
}

/// Two instants that the same records treat alike yield the same contactable
/// stake.
pub proof fn lemma_contactable_prefix_same(
    entries: Seq<(u64, AvailabilityState)>,
    rights: Seq<(u64, u64)>,
    t1: u64,
    t2: u64,
    i: int,
)
    requires
        forall|j: int|
            0 <= j < i ==> ((#[trigger] entries[j].1.backoff_until <= t1) <==> (
            entries[j].1.backoff_until <= t2)),
    ensures
        contactable_prefix(entries, rights, t1, i) == contactable_prefix(entries, rights, t2, i),
    decreases i,
{
    if i > 0 {
        lemma_contactable_prefix_same(entries, rights, t1, t2, i - 1);
    }
}

/// When no record suppresses contact at `t`, the whole stake is contactable.
pub proof fn lemma_contactable_prefix_full(
    entries: Seq<(u64, AvailabilityState)>,
    rights: Seq<(u64, u64)>,
    t: u64,
    i: int,
)
    requires
        forall|j: int| 0 <= j < i ==> #[trigger] entries[j].1.backoff_until <= t,
    ensures
        contactable_prefix(entries, rights, t, i) == stake_prefix(rights, i),
    decreases i,
{
    if i > 0 {
        lemma_contactable_prefix_full(entries, rights, t, i - 1);
    }
}

/// Moving the instant up to the next suppression boundary strictly lowers the
/// number of suppressed records.
pub proof fn lemma_count_suppressed_drops(
    entries: Seq<(u64, AvailabilityState)>,
    t1: u64,
    t2: u64,
    w: int,
    i: int,
)
    requires
        t1 <= t2,
        0 <= w < i,
        entries[w].1.backoff_until > t1,
        entries[w].1.backoff_until <= t2,
    ensures
        count_suppressed(entries, t2, i) < count_suppressed(entries, t1, i),
    decreases i,
{
    lemma_count_suppressed_monotone(entries, t1, t2, w);
    if w == i - 1 {
        lemma_count_suppressed_monotone(entries, t1, t2, i - 1);
    } else {
        lemma_count_suppressed_drops(entries, t1, t2, w, i - 1);
    }
}

pub proof fn lemma_count_suppressed_monotone(
    entries: Seq<(u64, AvailabilityState)>,
    t1: u64,
    t2: u64,
    i: int,
)
    requires
        t1 <= t2,
    ensures
        count_suppressed(entries, t2, i) <= count_suppressed(entries, t1, i),
    decreases i,
{
    if i > 0 {
        lemma_count_suppressed_monotone(entries, t1, t2, i - 1);
    }
}

impl AvailabilityTracker {
    /// Names strictly increase, so each peer has exactly one record.
    pub open spec fn well_formed(&self) -> bool {
        &&& forall|i: int, j: int|
            0 <= i < j < self.entries@.len() ==> #[trigger] self.entries@[i].0
                < #[trigger] self.entries@[j].0
        &&& self.entries@.len() <= MAX_COMMITTEE_SIZE
    }

    /// The tracker carries one record per committee member, in the same
    /// order.
    pub open spec fn aligned(&self, c: &Committee) -> bool {
        &&& self.entries@.len() == c.voting_rights@.len()
        &&& forall|i: int|
            0 <= i < self.entries@.len() ==> #[trigger] self.entries@[i].0
                == c.voting_rights@[i].0
    }

    pub open spec fn is_tracked(&self, name: u64) -> bool {
        exists|i: int| 0 <= i < self.entries@.len() && #[trigger] self.entries@[i].0 == name
    }

    pub open spec fn track_index(&self, name: u64) -> int {
        choose|i: int| 0 <= i < self.entries@.len() && #[trigger] self.entries@[i].0 == name
    }

    /// Reachability record of `name`; a peer never seen is unsuppressed.
    pub open spec fn state_spec(&self, name: u64) -> AvailabilityState {
        if self.is_tracked(name) {
            self.entries@[self.track_index(name)].1
        } else {
            AvailabilityState { failure_count: 0, last_failure: 0, backoff_until: 0 }
        }
    }

    pub open spec fn can_contact_spec(&self, name: u64, now: u64) -> bool {
        now >= self.state_spec(name).backoff_until
    }

    /// Total stake whose holder is contactable at `t`.
    pub open spec fn contactable_stake(&self, c: &Committee, t: u64) -> int {
        contactable_prefix(self.entries@, c.voting_rights@, t, self.entries@.len() as int)
    }

    /// One unsuppressed record per committee member.
    pub fn new(c: &Committee) -> (r: AvailabilityTracker)
        requires
            c.well_formed(),
        ensures
            r.well_formed(),
            r.aligned(c),
            forall|i: int|
                0 <= i < r.entries@.len() ==> #[trigger] r.entries@[i].1 == (AvailabilityState {
                    failure_count: 0,
                    last_failure: 0,
                    backoff_until: 0,
                }),
    {
        let n = c.voting_rights.len();
        let mut entries: Vec<(u64, AvailabilityState)> = Vec::new();
        let mut i: usize = 0;
        while i < n
            invariant
                i <= n,
                n == c.voting_rights@.len(),
                c.well_formed(),
                entries@.len() == i,
                forall|j: int|
                    0 <= j < i ==> #[trigger] entries@[j].0 == c.voting_rights@[j].0,
                forall|j: int|
                    0 <= j < i ==> #[trigger] entries@[j].1 == (AvailabilityState {
                        failure_count: 0,
                        last_failure: 0,
                        backoff_until: 0,
                    }),
            decreases n - i,
        {
            let name = c.voting_rights[i].0;
            entries.push(
                (name, AvailabilityState { failure_count: 0, last_failure: 0, backoff_until: 0 }),
            );
            i = i + 1;
        }
        AvailabilityTracker { entries }
    }

    /// Index of `name`'s record.
    fn position(&self, name: u64) -> (i: usize)
        requires
            self.well_formed(),
            self.is_tracked(name),
        ensures
            i == self.track_index(name),
            i < self.entries@.len(),
            self.entries@[i as int].0 == name,
    {
        let n = self.entries.len();
        let mut i: usize = 0;
        while i < n
            invariant
                i <= n,
                n == self.entries@.len(),
                self.well_formed(),
                self.is_tracked(name),
                forall|j: int| 0 <= j < i ==> #[trigger] self.entries@[j].0 != name,
            decreases n - i,
        {
            if self.entries[i].0 == name {
                proof {
                    let k = self.track_index(name);
                    assert(self.entries@[k].0 == name);
                    if k < i {
                        assert(self.entries@[k].0 < self.entries@[i as int].0);
                    }
                    if k > i {
                        assert(self.entries@[i as int].0 < self.entries@[k].0);
                    }
                }
                return i;
            }
            i = i + 1;
        }
        proof {
            let k = self.track_index(name);
            assert(self.entries@[k].0 == name);
            assert(false);
        }
        0
    }

    /// False while `name` sits inside an active suppression window.
    pub fn can_contact(&self, name: u64, now: u64) -> (r: bool)
        requires
            self.well_formed(),
        ensures
            r == self.can_contact_spec(name, now),
    {
        let n = self.entries.len();
        let mut i: usize = 0;
        while i < n
            invariant
                i <= n,
                n == self.entries@.len(),
                self.well_formed(),
                forall|j: int| 0 <= j < i ==> #[trigger] self.entries@[j].0 != name,
            decreases n - i,
        {
            if self.entries[i].0 == name {
                proof {
                    assert(self.is_tracked(name));
                    let k = self.track_index(name);
                    assert(self.entries@[k].0 == name);
                    if k < i {
                        assert(self.entries@[k].0 < self.entries@[i as int].0);
                    }
                    if k > i {
                        assert(self.entries@[i as int].0 < self.entries@[k].0);
                    }
                }
                return now >= self.entries[i].1.backoff_until;
            }
            i = i + 1;
        }
        proof {
            assert(!self.is_tracked(name));
        }
        true
    }

    /// Extends `name`'s suppression window; each consecutive failure extends
    /// it by a non-decreasing amount (see `lemma_backoff_delay_monotone`).
    pub fn record_failure(&mut self, name: u64, now: u64)
        requires
            old(self).well_formed(),
            old(self).is_tracked(name),
            now <= u64::MAX - MAX_BACKOFF_MS,
        ensures
            final(self).entries@ == old(self).entries@.update(
                old(self).track_index(name),
                (name, after_failure(old(self).state_spec(name), now)),
            ),
            final(self).well_formed(),
    {
        let i = self.position(name);
        let st = &self.entries[i].1;
        let count = if st.failure_count == u64::MAX {
            u64::MAX
        } else {
            st.failure_count + 1
        };
        let steps = if count <= MAX_BACKOFF_STEPS {
            count
        } else {
            MAX_BACKOFF_STEPS
        };
        let delay = BACKOFF_UNIT_MS * steps;
        let new_state = AvailabilityState {
            failure_count: count,
            last_failure: now,
            backoff_until: now + delay,
        };
        self.entries.set(i, (name, new_state));
    }

    /// Clears `name`'s suppression window and its failure streak.
    pub fn record_success(&mut self, name: u64)
        requires
            old(self).well_formed(),
            old(self).is_tracked(name),
        ensures
            final(self).entries@ == old(self).entries@.update(
                old(self).track_index(name),
                (name, after_success(old(self).state_spec(name))),
            ),
            final(self).well_formed(),
    {
        let i = self.position(name);
        let last = self.entries[i].1.last_failure;
        let new_state = AvailabilityState { failure_count: 0, last_failure: last, backoff_until: 0 };
        self.entries.set(i, (name, new_state));
    }

    /// Total stake whose holder is contactable at `t`.
    pub fn contactable_stake_at(&self, c: &Committee, t: u64) -> (s: u128)
        requires
            self.well_formed(),
            c.well_formed(),
            self.aligned(c),
        ensures
            s == self.contactable_stake(c, t),
    {
        let n = self.entries.len();
        let mut s: u128 = 0;
        let mut i: usize = 0;
        while i < n
            invariant
                i <= n,
                n == self.entries@.len(),
                n == c.voting_rights@.len(),
                n as u64 <= MAX_COMMITTEE_SIZE,
                s == contactable_prefix(self.entries@, c.voting_rights@, t, i as int),
            decreases n - i,
        {
            proof {
                lemma_contactable_prefix_bound(self.entries@, c.voting_rights@, t, i as int);
                lemma_stake_prefix_bound(c.voting_rights@, i as int);
            }
            if self.entries[i].1.backoff_until <= t {
                s = s + c.voting_rights[i].1 as u128;
            }
            i = i + 1;
        }
        s
    }

    /// Smallest suppression boundary strictly above `t`, if any record is
    /// still suppressed then.
    fn next_backoff_above(&self, t: u64) -> (r: Option<u64>)
        ensures
            r matches Some(m) ==> m > t && (exists|i: int|
                0 <= i < self.entries@.len() && #[trigger] self.entries@[i].1.backoff_until == m)
                && (forall|i: int|
                0 <= i < self.entries@.len() && #[trigger] self.entries@[i].1.backoff_until > t
                    ==> self.entries@[i].1.backoff_until >= m),
            r is None ==> forall|i: int|
                0 <= i < self.entries@.len() ==> #[trigger] self.entries@[i].1.backoff_until <= t,
    {
        let n = self.entries.len();
        let mut best: Option<u64> = None;
        let mut i: usize = 0;
        while i < n
            invariant
                i <= n,
                n == self.entries@.len(),
                best matches Some(m) ==> m > t && (exists|j: int|
                    0 <= j < i && #[trigger] self.entries@[j].1.backoff_until == m),
                best matches Some(m) ==> forall|j: int|
                    0 <= j < i && #[trigger] self.entries@[j].1.backoff_until > t
                        ==> self.entries@[j].1.backoff_until >= m,
                best is None ==> forall|j: int|
                    0 <= j < i ==> #[trigger] self.entries@[j].1.backoff_until <= t,
            decreases n - i,
        {
            let b = self.entries[i].1.backoff_until;
            if b > t {
                match best {
                    None => {
                        best = Some(b);
                    },
                    Some(m) => {
                        if b < m {
                            best = Some(b);
                        }
                    },
                }
            }
            i = i + 1;
        }
        best
    }

    /// Earliest instant, no sooner than `now`, at which the contactable
    /// stake reaches the quorum threshold. The orchestrator suspends until
    /// this instant before opening new connections; this bounds wasted
    /// attempts while much of the network is partitioned away.
    pub fn minimum_wait_for_majority_honest(&self, c: &Committee, now: u64) -> (deadline: u64)
        requires
            self.well_formed(),
            c.well_formed(),
            self.aligned(c),
        ensures
            deadline >= now,
            self.contactable_stake(c, deadline) >= c.quorum_threshold_spec(),
            forall|t: u64|
                now <= t < deadline ==> #[trigger] self.contactable_stake(c, t)
                    < c.quorum_threshold_spec(),
    {
        let quorum = self.quorum_of(c);
        let mut t = now;
        let mut s = self.contactable_stake_at(c, t);
        while s < quorum
            invariant
                t >= now,
                self.well_formed(),
                c.well_formed(),
                self.aligned(c),
                quorum == c.quorum_threshold_spec(),
                s == self.contactable_stake(c, t),
                forall|u: u64|
                    now <= u < t ==> #[trigger] self.contactable_stake(c, u)
                        < c.quorum_threshold_spec(),
            decreases count_suppressed(self.entries@, t, self.entries@.len() as int),
        {
            let next = self.next_backoff_above(t);
            match next {
                None => {
                    proof {
                        lemma_contactable_prefix_full(
                            self.entries@,
                            c.voting_rights@,
                            t,
                            self.entries@.len() as int,
                        );
                        let total = c.total_weight_spec();
                        assert(2 * total / 3 + 1 <= total) by (nonlinear_arith)
                            requires
                                total >= 1,
                        ;
                        assert(false);
                    }
                },
                Some(m) => {
                    proof {
                        assert forall|u: u64| now <= u < m implies #[trigger] self
                            .contactable_stake(c, u) < c.quorum_threshold_spec() by {
                            if u >= t {
                                lemma_contactable_prefix_same(
                                    self.entries@,
                                    c.voting_rights@,
                                    u,
                                    t,
                                    self.entries@.len() as int,
                                );
                            }
                        }
                        let w = choose|i: int|
                            0 <= i < self.entries@.len()
                                && #[trigger] self.entries@[i].1.backoff_until == m;
                        lemma_count_suppressed_drops(
                            self.entries@,
                            t,
                            m,
                            w,
                            self.entries@.len() as int,
                        );
                    }
                    t = m;
                    s = self.contactable_stake_at(c, t);
                },
            }
        }
        t
    }

    /// Quorum threshold of the committee, as the tracker compares stake.
    fn quorum_of(&self, c: &Committee) -> (q: u128)
        requires
            c.well_formed(),
        ensures
            q == c.quorum_threshold_spec(),
    {
        c.quorum_threshold()
    }
}

} // verus!
