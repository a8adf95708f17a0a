//! The committee: the immutable stake table of the network.
//!
//! Members are identified by plain integer names, listed in strictly
//! increasing order, each with a stake weight. The committee answers who is a
//! member, how much stake a member holds, the total stake, and the quorum
//! threshold (a Byzantine-safe supermajority, more than two thirds of the
//! total). A weighted random draw is resolved deterministically by
//! `sample_with`: the caller supplies the raw draw, the committee maps it to
//! the member whose cumulative-stake interval contains it.

use vstd::prelude::*;

verus! {

/// Committees never outgrow this many members; a vector of entries this long
/// already exceeds any addressable memory, so the bound rules nothing real
/// out. Keeping it explicit keeps all stake sums inside u128 and the
/// session-stagger arithmetic inside u64.
pub const MAX_COMMITTEE_SIZE: u64 = 0x1000_0000_0000_0000;

/// Sum of the stake of `rights[0..i]`.
pub open spec fn stake_prefix(rights: Seq<(u64, u64)>, i: int) -> int
    decreases i,
{
    if i <= 0 {
        0
    } else {
        stake_prefix(rights, i - 1) + rights[i - 1].1
    }
}

/// Names strictly increase (so they are unique), some member holds stake, and
/// the table fits the size bound.
pub open spec fn rights_well_formed(rights: Seq<(u64, u64)>) -> bool {
    &&& forall|i: int, j: int|
        0 <= i < j < rights.len() ==> #[trigger] rights[i].0 < #[trigger] rights[j].0
    &&& rights.len() <= MAX_COMMITTEE_SIZE
    &&& stake_prefix(rights, rights.len() as int) >= 1
}

pub struct Committee {
    /// `(name, stake)` pairs, strictly increasing by name.
    pub voting_rights: Vec<(u64, u64)>,
}

/// Prefix stake sums never decrease as the prefix grows.
pub proof fn lemma_stake_prefix_monotone(rights: Seq<(u64, u64)>, i: int, j: int)
    requires
        0 <= i <= j <= rights.len(),
    ensures
        stake_prefix(rights, i) <= stake_prefix(rights, j),
    decreases j,
{
    if i < j {
        lemma_stake_prefix_monotone(rights, i, j - 1);
    }
}

/// Every prefix stake sum fits well inside u128.
pub proof fn lemma_stake_prefix_bound(rights: Seq<(u64, u64)>, i: int)
    requires
        0 <= i <= rights.len(),
    ensures
        stake_prefix(rights, i) <= i * 0xffff_ffff_ffff_ffffu64,
    decreases i,
{
    if i > 0 {
        lemma_stake_prefix_bound(rights, i - 1);
    }
}

impl Committee {
    pub open spec fn well_formed(&self) -> bool {
        rights_well_formed(self.voting_rights@)
    }

    pub open spec fn is_member(&self, name: u64) -> bool {
        exists|i: int|
            0 <= i < self.voting_rights@.len() && #[trigger] self.voting_rights@[i].0 == name
    }

    pub open spec fn member_index(&self, name: u64) -> int {
        choose|i: int|
            0 <= i < self.voting_rights@.len() && #[trigger] self.voting_rights@[i].0 == name
    }

    /// Stake of `name`; zero for a non-member.
    pub open spec fn weight_spec(&self, name: u64) -> u64 {
        if self.is_member(name) {
            self.voting_rights@[self.member_index(name)].1
        } else {
            0u64
        }
    }

    pub open spec fn total_weight_spec(&self) -> int {
        stake_prefix(self.voting_rights@, self.voting_rights@.len() as int)
    }

    /// Minimum stake of a Byzantine-safe supermajority: two thirds of the
    /// total, rounded down, plus one.
    pub open spec fn quorum_threshold_spec(&self) -> int {
        2 * self.total_weight_spec() / 3 + 1
    }

    /// Whether `draw` falls in the cumulative-stake interval of the member
    /// at `i`.
    pub open spec fn draw_hits(&self, draw: u128, i: int) -> bool {
        &&& 0 <= i < self.voting_rights@.len()
        &&& stake_prefix(self.voting_rights@, i) <= draw
        &&& draw < stake_prefix(self.voting_rights@, i) + self.voting_rights@[i].1
    }

    /// Index of the member whose cumulative-stake interval holds `draw`.
    pub open spec fn sample_index_spec(&self, draw: u128) -> int {
        choose|i: int| self.draw_hits(draw, i)
    }

    /// The member a weighted draw resolves to.
    pub open spec fn sample_spec(&self, draw: u128) -> u64 {
        self.voting_rights@[self.sample_index_spec(draw)].0
    }

    /// The cumulative-stake intervals are disjoint, so at most one member
    /// answers a draw.
    pub proof fn lemma_sample_index_unique(&self, draw: u128, i: int)
        requires
            self.draw_hits(draw, i),
        ensures
            self.sample_index_spec(draw) == i,
    {
        let k = self.sample_index_spec(draw);
        assert(self.draw_hits(draw, k));
        if k < i {
            lemma_stake_prefix_monotone(self.voting_rights@, k + 1, i);
        }
        if i < k {
            lemma_stake_prefix_monotone(self.voting_rights@, i + 1, k);
        }
    }

    /// Validates a stake table; the committee is handed out only when the
    /// table is well formed.
    pub fn new(voting_rights: Vec<(u64, u64)>) -> (r: Option<Committee>)
        ensures
            r is Some <==> rights_well_formed(voting_rights@),
            r matches Some(c) ==> c.voting_rights@ == voting_rights@ && c.well_formed(),
    {
        let n = voting_rights.len();
        if n as u64 > MAX_COMMITTEE_SIZE {
            return None;
        }
        let mut i: usize = 1;
        while i < n
            invariant
                1 <= i,
                n == voting_rights@.len(),
                i <= n || n == 0,
                forall|p: int, q: int|
                    0 <= p < q < i ==> #[trigger] voting_rights@[p].0
                        < #[trigger] voting_rights@[q].0,
            decreases n - i,
        {
            if voting_rights[i - 1].0 >= voting_rights[i].0 {
                return None;
            }
            assert forall|p: int, q: int| 0 <= p < q < i + 1 implies #[trigger] voting_rights@[p].0
                < #[trigger] voting_rights@[q].0 by {
                if q == i && p < i - 1 {
                    assert(voting_rights@[p].0 < voting_rights@[i - 1].0);
                }
            }
            i = i + 1;
        }
        let mut total: u128 = 0;
        let mut k: usize = 0;
        while k < n
            invariant
                k <= n,
                n == voting_rights@.len(),
                n as u64 <= MAX_COMMITTEE_SIZE,
                total == stake_prefix(voting_rights@, k as int),
            decreases n - k,
        {
            proof {
                lemma_stake_prefix_bound(voting_rights@, k as int);
            }
            total = total + voting_rights[k].1 as u128;
            k = k + 1;
        }
        if total == 0 {
            return None;
        }
        Some(Committee { voting_rights })
    }

    pub fn size(&self) -> (n: usize)
        ensures
            n == self.voting_rights@.len(),
    {
        self.voting_rights.len()
    }

    /// Stake of `name`, zero for a non-member.
    pub fn weight(&self, name: u64) -> (w: u64)
        requires
            self.well_formed(),
        ensures
            w == self.weight_spec(name),
    {
        let n = self.voting_rights.len();
        let mut i: usize = 0;
        while i < n
            invariant
                i <= n,
                n == self.voting_rights@.len(),
                self.well_formed(),
                forall|j: int| 0 <= j < i ==> #[trigger] self.voting_rights@[j].0 != name,
            decreases n - i,
        {
            if self.voting_rights[i].0 == name {
                proof {
                    assert(self.is_member(name));
                    let k = self.member_index(name);
                    assert(self.voting_rights@[k].0 == name);
                    if k < i {
                        assert(self.voting_rights@[k].0 < self.voting_rights@[i as int].0);
                    }
                    if k > i {
                        assert(self.voting_rights@[i as int].0 < self.voting_rights@[k].0);
                    }
                }
                return self.voting_rights[i].1;
            }
            i = i + 1;
        }
        proof {
            assert(!self.is_member(name));
        }
        0
    }

    pub fn total_weight(&self) -> (t: u128)
        requires
            self.well_formed(),
        ensures
            t == self.total_weight_spec(),
            1 <= t <= MAX_COMMITTEE_SIZE * 0xffff_ffff_ffff_ffffu64,
    {
        let n = self.voting_rights.len();
        let mut total: u128 = 0;
        let mut k: usize = 0;
        while k < n
            invariant
                k <= n,
                n == self.voting_rights@.len(),
                n as u64 <= MAX_COMMITTEE_SIZE,
                total == stake_prefix(self.voting_rights@, k as int),
            decreases n - k,
        {
            proof {
                lemma_stake_prefix_bound(self.voting_rights@, k as int);
            }
            total = total + self.voting_rights[k].1 as u128;
            k = k + 1;
        }
        proof {
            lemma_stake_prefix_bound(self.voting_rights@, n as int);
        }
        total
    }

    pub fn quorum_threshold(&self) -> (q: u128)
        requires
            self.well_formed(),
        ensures
            q == self.quorum_threshold_spec(),
    {
        let total = self.total_weight();
        2 * total / 3 + 1
    }

    /// Resolves a weighted draw: `draw` falls in the cumulative-stake
    /// interval of exactly one member, and that member is returned. A caller
    /// that supplies a uniform draw below the total stake therefore picks
    /// each member with probability proportional to its stake.
    pub fn sample_with(&self, draw: u128) -> (name: u64)
        requires
            self.well_formed(),
            draw < self.total_weight_spec(),
        ensures
            name == self.sample_spec(draw),
            self.draw_hits(draw, self.sample_index_spec(draw)),
            self.is_member(name),
            self.weight_spec(name) > 0,
    {
        let n = self.voting_rights.len();
        let mut acc: u128 = 0;
        let mut i: usize = 0;
        while i < n
            invariant
                i <= n,
                n == self.voting_rights@.len(),
                n as u64 <= MAX_COMMITTEE_SIZE,
                self.well_formed(),
                draw < self.total_weight_spec(),
                acc == stake_prefix(self.voting_rights@, i as int),
                acc <= draw,
            decreases n - i,
        {
            proof {
                lemma_stake_prefix_bound(self.voting_rights@, i as int);
            }
            let w = self.voting_rights[i].1;
            if draw < acc + w as u128 {
                let name = self.voting_rights[i].0;
                proof {
                    assert(self.draw_hits(draw, i as int));
                    self.lemma_sample_index_unique(draw, i as int);
                    assert(self.is_member(name));
                    let k = self.member_index(name);
                    assert(self.voting_rights@[k].0 == name);
                    if k < i {
                        assert(self.voting_rights@[k].0 < self.voting_rights@[i as int].0);
                    }
                    if k > i {
                        assert(self.voting_rights@[i as int].0 < self.voting_rights@[k].0);
                    }
                    assert(k == i);
                }
                return name;
            }
            acc = acc + w as u128;
            i = i + 1;
        }
        proof {
            assert(false);
        }
        self.voting_rights[0].0
    }
}

} // verus!
