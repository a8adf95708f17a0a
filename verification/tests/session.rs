use authority_gossip::session::{
    GossipError, PeerGossip, SessionAction, SessionEvent, SessionOutcome, SessionPhase,
    TransactionInfoResponse, REQUEST_FOLLOW_NUM_DIGESTS,
};

fn streaming_session() -> PeerGossip {
    let mut s = PeerGossip::new(7, 1);
    let a = s.step(SessionEvent::StreamOpened);
    assert!(matches!(a, SessionAction::AwaitStream));
    s
}

#[test]
fn fresh_session_requests_from_peer_discretion() {
    let s = PeerGossip::new(7, 1);
    assert_eq!(s.max_seq, None);
    assert_eq!(s.phase, SessionPhase::Opening);
    let req = s.current_request();
    assert_eq!(req.start, None);
    assert_eq!(req.length, REQUEST_FOLLOW_NUM_DIGESTS);
}

#[test]
fn known_digest_skips_fetch_but_advances_cursor() {
    let mut s = streaming_session();
    let a = s.step(SessionEvent::TransactionReceived { seq: 5, digest: 900 });
    assert!(matches!(a, SessionAction::CheckExistence { digest: 900 }));
    let a = s.step(SessionEvent::ExistenceChecked { known: true });
    assert!(matches!(a, SessionAction::AwaitStream));
    assert_eq!(s.max_seq, Some(6));
    assert_eq!(s.phase, SessionPhase::Streaming);
}

#[test]
fn one_known_one_new_digest_fetches_only_the_new() {
    // stream [(1, d1), (2, d2)]: d1 already known, d2 not
    let mut s = streaming_session();
    let mut fetches: Vec<u64> = Vec::new();
    let mut forwards: Vec<u64> = Vec::new();

    let a = s.step(SessionEvent::TransactionReceived { seq: 1, digest: 11 });
    assert!(matches!(a, SessionAction::CheckExistence { digest: 11 }));
    let a = s.step(SessionEvent::ExistenceChecked { known: true });
    assert!(matches!(a, SessionAction::AwaitStream));
    assert_eq!(s.max_seq, Some(2));

    let a = s.step(SessionEvent::TransactionReceived { seq: 2, digest: 22 });
    assert!(matches!(a, SessionAction::CheckExistence { digest: 22 }));
    let a = s.step(SessionEvent::ExistenceChecked { known: false });
    if let SessionAction::FetchInfo { digest } = a {
        fetches.push(digest);
    }
    let response = TransactionInfoResponse {
        signed_transaction: Some(501),
        certified_transaction: Some(601),
    };
    let a = s.step(SessionEvent::InfoReceived { response });
    if let SessionAction::Forward { confirmation, source, destination } = a {
        forwards.push(confirmation.certificate);
        assert_eq!(source, 7);
        assert_eq!(destination, 1);
    } else {
        panic!("a certified response must be forwarded");
    }
    let a = s.step(SessionEvent::SyncResolved { accepted: true });
    assert!(matches!(a, SessionAction::AwaitStream));

    assert_eq!(s.max_seq, Some(3));
    assert_eq!(fetches, vec![22]);
    assert_eq!(forwards, vec![601]);
}

#[test]
fn missing_certificate_is_byzantine_and_skips_synchronizer() {
    let mut s = streaming_session();
    s.step(SessionEvent::TransactionReceived { seq: 4, digest: 44 });
    s.step(SessionEvent::ExistenceChecked { known: false });
    let response = TransactionInfoResponse {
        signed_transaction: Some(501),
        certified_transaction: None,
    };
    let a = s.step(SessionEvent::InfoReceived { response });
    assert!(matches!(a, SessionAction::Stop));
    assert_eq!(
        s.phase,
        SessionPhase::Terminated {
            outcome: SessionOutcome::Failed {
                error: GossipError::ByzantineSuspicion { authority: 7 }
            }
        }
    );
}

#[test]
fn process_response_convicts_or_forwards() {
    let s = PeerGossip::new(7, 1);
    let with_cert = TransactionInfoResponse {
        signed_transaction: None,
        certified_transaction: Some(88),
    };
    let r = s.process_response(with_cert).expect("certified responses pass");
    assert_eq!(r.certificate, 88);

    let without_cert = TransactionInfoResponse {
        signed_transaction: Some(3),
        certified_transaction: None,
    };
    let e = s.process_response(without_cert).unwrap_err();
    assert_eq!(e, GossipError::ByzantineSuspicion { authority: 7 });
}

#[test]
fn closed_stream_resubscribes_from_advanced_cursor() {
    // the peer closes without error after one processed item
    let mut s = streaming_session();
    s.step(SessionEvent::TransactionReceived { seq: 1, digest: 11 });
    s.step(SessionEvent::ExistenceChecked { known: true });
    assert_eq!(s.max_seq, Some(2));

    let a = s.step(SessionEvent::StreamClosed);
    assert!(matches!(a, SessionAction::ShortDelay));
    assert_eq!(s.phase, SessionPhase::Reconnecting);

    let a = s.step(SessionEvent::DelayElapsed);
    if let SessionAction::OpenStream { request } = a {
        assert_eq!(request.start, Some(2));
        assert_eq!(request.length, REQUEST_FOLLOW_NUM_DIGESTS);
    } else {
        panic!("a closed stream must be re-requested");
    }
    assert!(!matches!(s.phase, SessionPhase::Terminated { .. }));
}

#[test]
fn deadline_ends_the_session_cleanly() {
    let mut s = streaming_session();
    s.step(SessionEvent::TransactionReceived { seq: 1, digest: 11 });
    let a = s.step(SessionEvent::DeadlineFired);
    assert!(matches!(a, SessionAction::Stop));
    assert_eq!(
        s.phase,
        SessionPhase::Terminated { outcome: SessionOutcome::Completed }
    );
    // a terminated session ignores whatever still arrives
    let a = s.step(SessionEvent::StreamOpened);
    assert!(matches!(a, SessionAction::Stop));
}

#[test]
fn stream_errors_fail_the_session() {
    let mut s = streaming_session();
    let a = s.step(SessionEvent::StreamErrored);
    assert!(matches!(a, SessionAction::Stop));
    assert_eq!(
        s.phase,
        SessionPhase::Terminated {
            outcome: SessionOutcome::Failed { error: GossipError::Network }
        }
    );
}

#[test]
fn batch_summaries_do_not_move_the_cursor() {
    let mut s = streaming_session();
    let a = s.step(SessionEvent::BatchReceived);
    assert!(matches!(a, SessionAction::AwaitStream));
    assert_eq!(s.max_seq, None);
    s.step(SessionEvent::TransactionReceived { seq: 9, digest: 1 });
    s.step(SessionEvent::ExistenceChecked { known: true });
    let a = s.step(SessionEvent::BatchReceived);
    assert!(matches!(a, SessionAction::AwaitStream));
    assert_eq!(s.max_seq, Some(10));
}
