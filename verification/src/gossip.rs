//! Peer selection and the gossip orchestrator.
//!
//! The orchestrator keeps a bounded pool of concurrent peer sessions: it
//! waits until enough stake is contactable, selects a peer by stake-weighted
//! draw, launches a session with a staggered duration, and when a session
//! ends reports the outcome to the availability tracker and frees the slot.
//! The decisions live here as a state machine over plain values; the driver
//! around it performs the waits, spawns the sessions, and feeds completions
//! back in as events.

use vstd::prelude::*;

use crate::availability::{after_failure, after_success, AvailabilityTracker, MAX_BACKOFF_MS};
use crate::committee::{Committee, MAX_COMMITTEE_SIZE};

verus! {

/// Base lifetime of a session, in seconds; when it elapses the peer is
/// rotated out cleanly.
pub const REFRESH_FOLLOWER_PERIOD_SECS: u64 = 60;

/// Extra lifetime given to each further session launched in one fill pass,
/// so the pool does not empty out all at once.
pub const FILL_STAGGER_SECS: u64 = 15;

/// Pause between two selection retries, in milliseconds; avoids a hot spin
/// on an unlucky sampling streak.
pub const SELECTION_RETRY_DELAY_MS: u64 = 10;

/// Peer selection found no eligible peer within its retry budget. A policy
/// outcome, deliberately distinct from the session errors: the caller tries
/// again later instead of blaming a peer.
#[derive(PartialEq, Eq, Structural, Clone, Copy, Debug)]
pub enum SelectionError {
    Exhausted,
}

/// Whether `name` may be picked as a new gossip peer: never the authority
/// itself, never a peer that already has a session, never a peer inside its
/// backoff window.
pub open spec fn eligible_peer(
    my_name: u64,
    peer_names: Seq<u64>,
    tracker: &AvailabilityTracker,
    now: u64,
    name: u64,
) -> bool {
    &&& name != my_name
    &&& !peer_names.contains(name)
    &&& tracker.can_contact_spec(name, now)
}

/// Does `v` hold `name`?
fn contains_name(v: &Vec<u64>, name: u64) -> (r: bool)
    ensures
        r == v@.contains(name),
{
    let n = v.len();
    let mut i: usize = 0;
    while i < n
        invariant
            i <= n,
            n == v@.len(),
            forall|j: int| 0 <= j < i ==> v@[j] != name,
        decreases n - i,
    {
        if v[i] == name {
            return true;
        }
        i = i + 1;
    }
    false
}

/// Picks a gossip peer by repeated stake-weighted draws, one draw per try,
/// with as many tries as the committee has members. The first draw that
/// lands on an eligible peer wins; a budget spent on ineligible draws yields
/// `Exhausted`. The caller supplies the raw draws, each below the total
/// stake.
pub fn select_gossip_peer(
    my_name: u64,
    peer_names: &Vec<u64>,
    committee: &Committee,
    tracker: &AvailabilityTracker,
    now: u64,
    draws: &Vec<u128>,
) -> (r: Result<u64, SelectionError>)
    requires
        committee.well_formed(),
        tracker.well_formed(),
        draws@.len() == committee.voting_rights@.len(),
        forall|i: int| 0 <= i < draws@.len() ==> #[trigger] draws@[i] < committee.total_weight_spec(),
    ensures
        r matches Ok(name) ==> {
            &&& committee.is_member(name)
            &&& committee.weight_spec(name) > 0
            &&& eligible_peer(my_name, peer_names@, tracker, now, name)
            &&& exists|i: int|
                0 <= i < draws@.len() && name == #[trigger] committee.sample_spec(draws@[i])
                    && forall|j: int|
                    0 <= j < i ==> !eligible_peer(
                        my_name,
                        peer_names@,
                        tracker,
                        now,
                        #[trigger] committee.sample_spec(draws@[j]),
                    )
        },
        r is Err <==> forall|i: int|
            0 <= i < draws@.len() ==> !eligible_peer(
                my_name,
                peer_names@,
                tracker,
                now,
                #[trigger] committee.sample_spec(draws@[i]),
            ),
{
    let budget = draws.len();
    let mut i: usize = 0;
    while i < budget
        invariant
            i <= budget,
            budget == draws@.len(),
            committee.well_formed(),
            tracker.well_formed(),
            draws@.len() == committee.voting_rights@.len(),
            forall|k: int|
                0 <= k < draws@.len() ==> #[trigger] draws@[k] < committee.total_weight_spec(),
            forall|j: int|
                0 <= j < i ==> !eligible_peer(
                    my_name,
                    peer_names@,
                    tracker,
                    now,
                    #[trigger] committee.sample_spec(draws@[j]),
                ),
        decreases budget - i,
    {
        let candidate = committee.sample_with(draws[i]);
        if candidate != my_name && !contains_name(peer_names, candidate)
            && tracker.can_contact(candidate, now) {
            return Ok(candidate);
        }
        i = i + 1;
    }
    Err(SelectionError::Exhausted)
}

/// Stake held by `active[0..i]`.
pub open spec fn active_stake_prefix(c: &Committee, active: Seq<u64>, i: int) -> int
    decreases i,
{
    if i <= 0 {
        0
    } else {
        active_stake_prefix(c, active, i - 1) + c.weight_spec(active[i - 1])
    }
}

pub proof fn lemma_active_stake_prefix_bound(c: &Committee, active: Seq<u64>, i: int)
    requires
        0 <= i,
    ensures
        0 <= active_stake_prefix(c, active, i) <= i * 0xffff_ffff_ffff_ffffu64,
    decreases i,
{
    if i > 0 {
        lemma_active_stake_prefix_bound(c, active, i - 1);
    }
}

/// Stake of the peers with a running session, plus the authority's own.
pub open spec fn covered_stake_spec(c: &Committee, active: Seq<u64>, my_name: u64) -> int {
    active_stake_prefix(c, active, active.len() as int) + c.weight_spec(my_name)
}

#[derive(PartialEq, Eq, Structural, Clone, Copy, Debug)]
pub enum OrchestratorPhase {
    /// Adding sessions until the pool or the covered stake suffices.
    Filling,
    /// Waiting for some running session to finish.
    Draining,
}

/// What the driver reports back to the orchestrator.
#[derive(PartialEq, Eq, Structural, Clone, Copy, Debug)]
pub enum OrchestratorEvent {
    /// Peer selection picked `peer`.
    PeerSelected { peer: u64 },
    /// Peer selection exhausted its budget.
    SelectionFailed,
    /// The session against `peer` finished; `failed` covers every kind of
    /// failure, a fault of the session's own task included.
    SessionCompleted { peer: u64, failed: bool },
}

/// What the driver must do next.
#[derive(PartialEq, Eq, Structural, Clone, Copy, Debug)]
pub enum OrchestratorAction {
    /// Gossip is off for this process: no session is ever launched.
    Disabled,
    /// Sleep until the quorum-readiness instant, then run peer selection.
    AwaitQuorumThenSelect,
    /// Start a session against `peer` lasting `duration_secs`.
    LaunchSession { peer: u64, duration_secs: u64 },
    /// Wait for the first running session to finish.
    AwaitAnySession,
}

/// The supervisor of the session pool.
pub struct GossipOrchestrator {
    pub my_name: u64,
    /// `min(N - 1, degree)`: most sessions ever held at once.
    pub target: usize,
    /// Peers with a running session.
    pub active: Vec<u64>,
    /// Sessions launched in the current fill pass; staggers durations.
    pub fill_count: u64,
    pub phase: OrchestratorPhase,
}

impl GossipOrchestrator {
    pub open spec fn inv(&self, c: &Committee) -> bool {
        &&& forall|i: int, j: int|
            0 <= i < j < self.active@.len() ==> self.active@[i] != self.active@[j]
        &&& forall|i: int|
            0 <= i < self.active@.len() ==> c.is_member(#[trigger] self.active@[i])
                && self.active@[i] != self.my_name
        &&& self.active@.len() <= self.target
        &&& self.target < c.voting_rights@.len()
        &&& self.fill_count <= self.active@.len()
        &&& self.phase is Draining ==> self.active@.len() >= 1
        &&& self.phase is Filling ==> self.target == 0 || self.active@.len() < self.target
    }

    pub open spec fn next_action_spec(&self) -> OrchestratorAction {
        if self.target == 0 {
            OrchestratorAction::Disabled
        } else if self.phase is Filling {
            OrchestratorAction::AwaitQuorumThenSelect
        } else {
            OrchestratorAction::AwaitAnySession
        }
    }

    /// Which events the driver may report in which phase: selections only
    /// while filling, completions only while draining and only for a peer
    /// that has a session. A selected peer carries what `select_gossip_peer`
    /// guarantees.
    pub open spec fn event_allowed(&self, c: &Committee, e: OrchestratorEvent) -> bool {
        match e {
            OrchestratorEvent::PeerSelected { peer } => {
                &&& self.phase is Filling
                &&& c.is_member(peer)
                &&& peer != self.my_name
                &&& !self.active@.contains(peer)
            },
            OrchestratorEvent::SelectionFailed => self.phase is Filling,
            OrchestratorEvent::SessionCompleted { peer, .. } => {
                &&& self.phase is Draining
                &&& self.active@.contains(peer)
            },
        }
    }

    /// An empty pool aimed at `min(N - 1, degree)` sessions. A target of
    /// zero (a committee of one, or degree zero) disables gossip outright.
    pub fn new(c: &Committee, my_name: u64, degree: usize) -> (r: GossipOrchestrator)
        requires
            c.well_formed(),
        ensures
            r.my_name == my_name,
            r.target == if c.voting_rights@.len() - 1 <= degree {
                c.voting_rights@.len() - 1
            } else {
                degree as int
            },
            r.active@.len() == 0,
            r.fill_count == 0,
            r.phase is Filling,
            r.inv(c),
            c.voting_rights@.len() == 1 || degree == 0 ==> r.next_action_spec()
                == OrchestratorAction::Disabled,
    {
        proof {
            assert(c.voting_rights@.len() >= 1);
        }
        let target = crate::gossip_target(c.size(), degree);
        GossipOrchestrator {
            my_name,
            target,
            active: Vec::new(),
            fill_count: 0,
            phase: OrchestratorPhase::Filling,
        }
    }

    pub fn next_action(&self) -> (a: OrchestratorAction)
        ensures
            a == self.next_action_spec(),
    {
        if self.target == 0 {
            OrchestratorAction::Disabled
        } else if matches!(self.phase, OrchestratorPhase::Filling) {
            OrchestratorAction::AwaitQuorumThenSelect
        } else {
            OrchestratorAction::AwaitAnySession
        }
    }

    /// Stake covered by the running sessions and the authority itself.
    pub fn covered_stake(&self, c: &Committee) -> (s: u128)
        requires
            c.well_formed(),
            self.active@.len() <= MAX_COMMITTEE_SIZE,
        ensures
            s == covered_stake_spec(c, self.active@, self.my_name),
    {
        let n = self.active.len();
        let mut s: u128 = 0;
        let mut i: usize = 0;
        while i < n
            invariant
                i <= n,
                n == self.active@.len(),
                n as u64 <= MAX_COMMITTEE_SIZE,
                c.well_formed(),
                s == active_stake_prefix(c, self.active@, i as int),
            decreases n - i,
        {
            proof {
                lemma_active_stake_prefix_bound(c, self.active@, i as int);
            }
            s = s + c.weight(self.active[i]) as u128;
            i = i + 1;
        }
        proof {
            lemma_active_stake_prefix_bound(c, self.active@, n as int);
        }
        s + c.weight(self.my_name) as u128
    }

    /// Advances the orchestrator by one event and says what to do next.
    ///
    /// A selected peer joins the pool and a session is launched for it, its
    /// duration staggered by how many sessions this fill pass already added.
    /// Filling stops — the phase turns to draining — as soon as the pool is
    /// full, or earlier, as soon as the covered stake reaches the quorum
    /// threshold: sessions beyond quorum coverage are not worth their
    /// connection cost. A failed selection abandons the fill pass; with
    /// nothing running it simply starts over. A finished session frees its
    /// slot and a new fill pass begins.
    pub fn step(&mut self, c: &Committee, event: OrchestratorEvent) -> (a: OrchestratorAction)
        requires
            c.well_formed(),
            old(self).inv(c),
            old(self).target >= 1,
            old(self).event_allowed(c, event),
        ensures
            final(self).inv(c),
            final(self).my_name == old(self).my_name,
            final(self).target == old(self).target,
            event matches OrchestratorEvent::PeerSelected { peer } ==> {
                &&& final(self).active@ == old(self).active@.push(peer)
                &&& a == (OrchestratorAction::LaunchSession {
                    peer,
                    duration_secs: (REFRESH_FOLLOWER_PERIOD_SECS + FILL_STAGGER_SECS * old(
                        self,
                    ).fill_count) as u64,
                })
                &&& final(self).fill_count == old(self).fill_count + 1
                &&& (covered_stake_spec(c, final(self).active@, old(self).my_name)
                    >= c.quorum_threshold_spec() ==> final(self).phase is Draining)
                &&& (final(self).active@.len() >= old(self).target
                    ==> final(self).phase is Draining)
                &&& (covered_stake_spec(c, final(self).active@, old(self).my_name)
                    < c.quorum_threshold_spec() && final(self).active@.len() < old(self).target
                    ==> final(self).phase is Filling)
            },
            event is SelectionFailed ==> {
                &&& final(self).active@ == old(self).active@
                &&& (old(self).active@.len() == 0 ==> final(self).phase is Filling && a
                    == OrchestratorAction::AwaitQuorumThenSelect)
                &&& (old(self).active@.len() >= 1 ==> final(self).phase is Draining && a
                    == OrchestratorAction::AwaitAnySession)
            },
            event matches OrchestratorEvent::SessionCompleted { peer, .. } ==> {
                &&& exists|i: int|
                    0 <= i < old(self).active@.len() && old(self).active@[i] == peer
                        && final(self).active@ == old(self).active@.remove(i)
                &&& !final(self).active@.contains(peer)
                &&& final(self).phase is Filling
                &&& final(self).fill_count == 0
                &&& a == OrchestratorAction::AwaitQuorumThenSelect
            },
    {
        match event {
            OrchestratorEvent::PeerSelected { peer } => {
                let duration_secs = REFRESH_FOLLOWER_PERIOD_SECS
                    + FILL_STAGGER_SECS * self.fill_count;
                self.active.push(peer);
                self.fill_count = self.fill_count + 1;
                let covered = self.covered_stake(c);
                let quorum = c.quorum_threshold();
                if covered >= quorum || self.active.len() >= self.target {
                    self.phase = OrchestratorPhase::Draining;
                } else {
                    self.phase = OrchestratorPhase::Filling;
                }
                OrchestratorAction::LaunchSession { peer, duration_secs }
            },
            OrchestratorEvent::SelectionFailed => {
                if self.active.len() == 0 {
                    self.fill_count = 0;
                    self.phase = OrchestratorPhase::Filling;
                    OrchestratorAction::AwaitQuorumThenSelect
                } else {
                    self.phase = OrchestratorPhase::Draining;
                    OrchestratorAction::AwaitAnySession
                }
            },
            OrchestratorEvent::SessionCompleted { peer, .. } => {
                let i = self.position_of(peer);
                self.active.remove(i);
                self.fill_count = 0;
                self.phase = OrchestratorPhase::Filling;
                proof {
                    let before = old(self).active@;
                    assert forall|j: int| 0 <= j < self.active@.len() implies self.active@[j]
                        != peer by {
                        if j < i {
                            assert(self.active@[j] == before[j]);
                        } else {
                            assert(self.active@[j] == before[j + 1]);
                        }
                    }
                }
                OrchestratorAction::AwaitQuorumThenSelect
            },
        }
    }

    /// Index of `peer` in the pool.
    fn position_of(&self, peer: u64) -> (i: usize)
        requires
            self.active@.contains(peer),
        ensures
            i < self.active@.len(),
            self.active@[i as int] == peer,
    {
        let n = self.active.len();
        let mut i: usize = 0;
        while i < n
            invariant
                i <= n,
                n == self.active@.len(),
                self.active@.contains(peer),
                forall|j: int| 0 <= j < i ==> self.active@[j] != peer,
            decreases n - i,
        {
            if self.active[i] == peer {
                return i;
            }
            i = i + 1;
        }
        proof {
            assert(false);
        }
        0
    }

    /// The drain step in one move: the finished session's outcome feeds the
    /// availability tracker — success clears the peer's backoff, any failure
    /// extends it — and the slot is freed for the next fill pass.
    pub fn handle_session_outcome(
        &mut self,
        tracker: &mut AvailabilityTracker,
        c: &Committee,
        peer: u64,
        failed: bool,
        now: u64,
    ) -> (a: OrchestratorAction)
        requires
            c.well_formed(),
            old(self).inv(c),
            old(self).target >= 1,
            old(self).phase is Draining,
            old(self).active@.contains(peer),
            old(tracker).well_formed(),
            old(tracker).is_tracked(peer),
            now <= u64::MAX - MAX_BACKOFF_MS,
        ensures
            final(self).inv(c),
            final(self).phase is Filling,
            !final(self).active@.contains(peer),
            final(self).active@.len() == old(self).active@.len() - 1,
            a == OrchestratorAction::AwaitQuorumThenSelect,
            final(tracker).well_formed(),
            failed ==> final(tracker).entries@ == old(tracker).entries@.update(
                old(tracker).track_index(peer),
                (peer, after_failure(old(tracker).state_spec(peer), now)),
            ),
            !failed ==> final(tracker).entries@ == old(tracker).entries@.update(
                old(tracker).track_index(peer),
                (peer, after_success(old(tracker).state_spec(peer))),
            ),
    {
        if failed {
            tracker.record_failure(peer, now);
        } else {
            tracker.record_success(peer);
        }
        self.step(c, OrchestratorEvent::SessionCompleted { peer, failed })
    }
}

/// A draining orchestrator asks for no selection: once a launch has tipped
/// the covered stake over the quorum threshold (or filled the pool), the
/// next thing awaited is a session's end, never another peer.
pub proof fn lemma_draining_never_selects(s: GossipOrchestrator, c: &Committee)
    requires
        s.inv(c),
        s.phase is Draining,
    ensures
        s.next_action_spec() == OrchestratorAction::AwaitAnySession,
{
}

/// While gossip is disabled no session ever runs: the pool is pinned empty
/// and the driver is told so.
pub proof fn lemma_disabled_launches_nothing(s: GossipOrchestrator, c: &Committee)
    requires
        s.inv(c),
        s.target == 0,
    ensures
        s.active@.len() == 0,
        s.next_action_spec() == OrchestratorAction::Disabled,
{
}

} // verus!
