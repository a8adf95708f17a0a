use authority_gossip::availability::AvailabilityTracker;
use authority_gossip::committee::Committee;
use authority_gossip::gossip::{
    select_gossip_peer, GossipOrchestrator, OrchestratorAction, OrchestratorEvent, SelectionError,
};
use authority_gossip::gossip_target;

fn committee_of(weights: &[(u64, u64)]) -> Committee {
    Committee::new(weights.to_vec()).expect("well-formed stake table")
}

#[test]
fn target_is_min_of_size_and_degree() {
    assert_eq!(gossip_target(4, 3), 3);
    assert_eq!(gossip_target(10, 3), 3);
    assert_eq!(gossip_target(4, 9), 3);
    assert_eq!(gossip_target(1, 5), 0);
    assert_eq!(gossip_target(4, 0), 0);
}

#[test]
fn disabled_gossip_launches_nothing() {
    let c = committee_of(&[(1, 1)]);
    let orch = GossipOrchestrator::new(&c, 1, 3);
    assert_eq!(orch.target, 0);
    assert_eq!(orch.next_action(), OrchestratorAction::Disabled);

    let c4 = committee_of(&[(1, 1), (2, 1), (3, 1), (4, 1)]);
    let orch = GossipOrchestrator::new(&c4, 1, 0);
    assert_eq!(orch.target, 0);
    assert_eq!(orch.next_action(), OrchestratorAction::Disabled);
}

#[test]
fn committee_rejects_bad_tables() {
    assert!(Committee::new(vec![(2, 1), (1, 1)]).is_none());
    assert!(Committee::new(vec![(1, 1), (1, 2)]).is_none());
    assert!(Committee::new(vec![(1, 0), (2, 0)]).is_none());
    assert!(Committee::new(vec![]).is_none());
    assert!(Committee::new(vec![(1, 1), (2, 0)]).is_some());
}

#[test]
fn quorum_threshold_is_supermajority() {
    let c = committee_of(&[(1, 1), (2, 1), (3, 1), (4, 1)]);
    assert_eq!(c.total_weight(), 4);
    assert_eq!(c.quorum_threshold(), 3);

    let c = committee_of(&[(1, 10), (2, 10), (3, 1), (4, 1), (5, 1)]);
    assert_eq!(c.total_weight(), 23);
    assert_eq!(c.quorum_threshold(), 16);

    let c = committee_of(&[(7, 3)]);
    assert_eq!(c.quorum_threshold(), 3);
}

#[test]
fn weight_of_members_and_strangers() {
    let c = committee_of(&[(1, 5), (2, 7)]);
    assert_eq!(c.weight(1), 5);
    assert_eq!(c.weight(2), 7);
    assert_eq!(c.weight(3), 0);
    assert_eq!(c.size(), 2);
}

#[test]
fn sampling_follows_cumulative_stake() {
    let c = committee_of(&[(10, 2), (20, 3), (30, 1)]);
    assert_eq!(c.sample_with(0), 10);
    assert_eq!(c.sample_with(1), 10);
    assert_eq!(c.sample_with(2), 20);
    assert_eq!(c.sample_with(4), 20);
    assert_eq!(c.sample_with(5), 30);
}

#[test]
fn backoff_grows_per_failure_and_resets_on_success() {
    let c = committee_of(&[(1, 1), (2, 1), (3, 1), (4, 1)]);
    let mut tracker = AvailabilityTracker::new(&c);
    assert!(tracker.can_contact(2, 0));

    tracker.record_failure(2, 1_000);
    // one failure: suppressed for one unit
    assert!(!tracker.can_contact(2, 1_999));
    assert!(tracker.can_contact(2, 2_000));

    tracker.record_failure(2, 2_000);
    // two consecutive failures: suppressed for two units
    assert!(!tracker.can_contact(2, 3_999));
    assert!(tracker.can_contact(2, 4_000));

    tracker.record_success(2);
    assert!(tracker.can_contact(2, 0));

    // after the reset the streak starts over
    tracker.record_failure(2, 10_000);
    assert!(tracker.can_contact(2, 11_000));
}

#[test]
fn quorum_wait_is_earliest_sufficient_instant() {
    let c = committee_of(&[(1, 1), (2, 1), (3, 1), (4, 1)]);
    let mut tracker = AvailabilityTracker::new(&c);
    // member 1 suppressed until 1000, member 2 until 2000 (two failures)
    tracker.record_failure(1, 0);
    tracker.record_failure(2, 0);
    tracker.record_failure(2, 0);

    // at 0 only members 3 and 4 are contactable: stake 2 of quorum 3
    assert_eq!(tracker.contactable_stake_at(&c, 0), 2);
    assert_eq!(tracker.minimum_wait_for_majority_honest(&c, 0), 1_000);

    // once everyone is free the wait is immediate
    assert_eq!(tracker.minimum_wait_for_majority_honest(&c, 2_000), 2_000);
}

#[test]
fn selection_skips_self_active_and_unreachable() {
    let c = committee_of(&[(10, 1), (20, 1), (30, 1), (40, 1)]);
    let tracker = AvailabilityTracker::new(&c);
    let active = vec![20];
    // draws resolve to 10 (self), 20 (active), 30 (eligible)
    let r = select_gossip_peer(10, &active, &c, &tracker, 0, &vec![0, 1, 2, 3]);
    assert_eq!(r, Ok(30));
}

#[test]
fn selection_skips_suppressed_peers() {
    let c = committee_of(&[(10, 1), (20, 1), (30, 1), (40, 1)]);
    let mut tracker = AvailabilityTracker::new(&c);
    tracker.record_failure(30, 0);
    let active: Vec<u64> = Vec::new();
    // 30 is suppressed until 1000, so the draw for 30 is passed over
    let r = select_gossip_peer(10, &active, &c, &tracker, 500, &vec![2, 2, 2, 3]);
    assert_eq!(r, Ok(40));
    // after the window the same draws yield 30
    let r = select_gossip_peer(10, &active, &c, &tracker, 1_000, &vec![2, 2, 2, 3]);
    assert_eq!(r, Ok(30));
}

#[test]
fn selection_exhausts_after_committee_size_tries() {
    let c = committee_of(&[(10, 1), (20, 1), (30, 1), (40, 1)]);
    let tracker = AvailabilityTracker::new(&c);
    let active = vec![20];
    // every draw resolves to the caller or to the one active peer
    let r = select_gossip_peer(10, &active, &c, &tracker, 0, &vec![0, 1, 0, 1]);
    assert_eq!(r, Err(SelectionError::Exhausted));
}

#[test]
fn fill_stops_at_quorum_before_target() {
    let c = committee_of(&[(1, 10), (2, 10), (3, 1), (4, 1), (5, 1)]);
    let mut orch = GossipOrchestrator::new(&c, 1, 4);
    assert_eq!(orch.target, 4);
    assert_eq!(orch.next_action(), OrchestratorAction::AwaitQuorumThenSelect);

    // self holds 10; selecting peer 2 brings the covered stake to 20 >= 16
    let a = orch.step(&c, OrchestratorEvent::PeerSelected { peer: 2 });
    assert_eq!(
        a,
        OrchestratorAction::LaunchSession { peer: 2, duration_secs: 60 }
    );
    assert_eq!(orch.active, vec![2]);
    assert_eq!(orch.next_action(), OrchestratorAction::AwaitAnySession);
}

#[test]
fn fill_staggers_session_durations() {
    let c = committee_of(&[(1, 1), (2, 1), (3, 1), (4, 1), (5, 1), (6, 1), (7, 1)]);
    let mut orch = GossipOrchestrator::new(&c, 1, 3);
    let a = orch.step(&c, OrchestratorEvent::PeerSelected { peer: 2 });
    assert_eq!(
        a,
        OrchestratorAction::LaunchSession { peer: 2, duration_secs: 60 }
    );
    let a = orch.step(&c, OrchestratorEvent::PeerSelected { peer: 3 });
    assert_eq!(
        a,
        OrchestratorAction::LaunchSession { peer: 3, duration_secs: 75 }
    );
    let a = orch.step(&c, OrchestratorEvent::PeerSelected { peer: 4 });
    assert_eq!(
        a,
        OrchestratorAction::LaunchSession { peer: 4, duration_secs: 90 }
    );
}

#[test]
fn failed_selection_with_empty_pool_retries() {
    let c = committee_of(&[(1, 1), (2, 1), (3, 1), (4, 1)]);
    let mut orch = GossipOrchestrator::new(&c, 1, 3);
    let a = orch.step(&c, OrchestratorEvent::SelectionFailed);
    assert_eq!(a, OrchestratorAction::AwaitQuorumThenSelect);
    assert_eq!(orch.next_action(), OrchestratorAction::AwaitQuorumThenSelect);
}

#[test]
fn failed_selection_with_running_sessions_drains() {
    let c = committee_of(&[(1, 1), (2, 1), (3, 1), (4, 1), (5, 1)]);
    let mut orch = GossipOrchestrator::new(&c, 1, 4);
    orch.step(&c, OrchestratorEvent::PeerSelected { peer: 2 });
    let a = orch.step(&c, OrchestratorEvent::SelectionFailed);
    assert_eq!(a, OrchestratorAction::AwaitAnySession);
}

#[test]
fn session_outcomes_feed_the_tracker() {
    let c = committee_of(&[(1, 1), (2, 1), (3, 1), (4, 1), (5, 1)]);
    let mut tracker = AvailabilityTracker::new(&c);
    let mut orch = GossipOrchestrator::new(&c, 1, 4);
    orch.step(&c, OrchestratorEvent::PeerSelected { peer: 2 });
    orch.step(&c, OrchestratorEvent::PeerSelected { peer: 3 });
    // quorum is 4: with self the covered stake reaches it on the third peer
    let _ = orch.step(&c, OrchestratorEvent::PeerSelected { peer: 4 });
    assert_eq!(orch.next_action(), OrchestratorAction::AwaitAnySession);

    let a = orch.handle_session_outcome(&mut tracker, &c, 2, true, 5_000);
    assert_eq!(a, OrchestratorAction::AwaitQuorumThenSelect);
    assert_eq!(orch.active, vec![3, 4]);
    assert!(!tracker.can_contact(2, 5_999));
    assert!(tracker.can_contact(3, 5_999));

    // must re-enter draining before completing another session
    orch.step(&c, OrchestratorEvent::SelectionFailed);
    let a = orch.handle_session_outcome(&mut tracker, &c, 3, false, 6_000);
    assert_eq!(a, OrchestratorAction::AwaitQuorumThenSelect);
    assert_eq!(orch.active, vec![4]);
    assert!(tracker.can_contact(3, 6_000));
}

#[test]
fn four_equal_authorities_rotate_through_every_peer() {
    // committee {A:1, B:1, C:1, D:1}, quorum 3, self = A, degree 3
    let c = committee_of(&[(1, 1), (2, 1), (3, 1), (4, 1)]);
    assert_eq!(c.quorum_threshold(), 3);
    let mut tracker = AvailabilityTracker::new(&c);
    let mut orch = GossipOrchestrator::new(&c, 1, 3);
    assert_eq!(orch.target, 3);

    let mut launched: Vec<u64> = Vec::new();
    let mut now: u64 = 0;
    for round in 0..32 {
        match orch.next_action() {
            OrchestratorAction::AwaitQuorumThenSelect => {
                now = tracker.minimum_wait_for_majority_honest(&c, now);
                // rotate the draw order so every member comes first in turn
                let mut draws: Vec<u128> = Vec::new();
                for j in 0..c.size() {
                    draws.push(((round + j) % c.size()) as u128);
                }
                match select_gossip_peer(1, &orch.active, &c, &tracker, now, &draws) {
                    Ok(peer) => {
                        let a = orch.step(&c, OrchestratorEvent::PeerSelected { peer });
                        if let OrchestratorAction::LaunchSession { peer, .. } = a {
                            launched.push(peer);
                        } else {
                            panic!("selection must launch a session");
                        }
                    }
                    Err(SelectionError::Exhausted) => {
                        orch.step(&c, OrchestratorEvent::SelectionFailed);
                    }
                }
            }
            OrchestratorAction::AwaitAnySession => {
                // the oldest session finishes cleanly
                let peer = orch.active[0];
                now += 60;
                orch.handle_session_outcome(&mut tracker, &c, peer, false, now);
            }
            OrchestratorAction::Disabled => panic!("gossip must stay enabled"),
            OrchestratorAction::LaunchSession { .. } => unreachable!(),
        }
    }
    assert!(launched.contains(&2));
    assert!(launched.contains(&3));
    assert!(launched.contains(&4));
    assert!(!launched.contains(&1));
}
