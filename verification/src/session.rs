//! The per-peer streaming session, as a state machine.
//!
//! A session asks one peer for a stream of transaction digests, fetches the
//! record of every digest it does not already hold, and hands each fetched
//! certificate to the cross-authority synchronizer. The machine here makes
//! every decision of that protocol; the driver around it performs the waits
//! and the network calls and feeds the outcomes back in as events. A
//! session-wide deadline may fire at any point and ends the session cleanly;
//! a peer that advertises a digest but cannot produce its certificate ends
//! the session under Byzantine suspicion.

use vstd::prelude::*;

verus! {

/// How many digests one stream subscription asks for before re-subscribing.
pub const REQUEST_FOLLOW_NUM_DIGESTS: u64 = 100_000;

/// Pause before re-opening a stream that the peer closed without error, in
/// milliseconds; avoids a tight reconnect loop.
pub const RECONNECT_DELAY_MS: u64 = 10;

/// A request for a digest stream: resume at `start` (or at the peer's
/// discretion when unset) and yield up to `length` items.
#[derive(Clone, Copy, Debug)]
pub struct BatchInfoRequest {
    pub start: Option<u64>,
    pub length: u64,
}

/// What a peer answers when asked for one transaction by digest. The payloads
/// are opaque handles; this core only inspects their presence.
#[derive(Clone, Copy, Debug)]
pub struct TransactionInfoResponse {
    pub signed_transaction: Option<u64>,
    pub certified_transaction: Option<u64>,
}

/// A certificate on its way to the cross-authority synchronizer.
#[derive(PartialEq, Eq, Structural, Clone, Copy, Debug)]
pub struct ConfirmationTransaction {
    pub certificate: u64,
}

/// How gossip work fails.
#[derive(PartialEq, Eq, Structural, Clone, Copy, Debug)]
pub enum GossipError {
    /// Transport failure: opening a stream, reading from it, or a
    /// transaction-info request.
    Network,
    /// The peer advertised a digest it could not substantiate with a
    /// certificate.
    ByzantineSuspicion { authority: u64 },
    /// The synchronizer rejected a fetched certificate.
    SyncRejected,
}

/// How a session ends.
#[derive(PartialEq, Eq, Structural, Clone, Copy, Debug)]
pub enum SessionOutcome {
    /// The session deadline elapsed; a clean rotation, not a failure.
    Completed,
    Failed { error: GossipError },
}

/// Where a session stands.
#[derive(PartialEq, Eq, Structural, Clone, Copy, Debug)]
pub enum SessionPhase {
    /// A stream request is out; no stream is open yet.
    Opening,
    /// Consuming stream items.
    Streaming,
    /// Asking local storage whether `digest`, streamed at `seq`, is known.
    CheckingExistence { seq: u64, digest: u64 },
    /// A transaction-info request for `digest`, streamed at `seq`, is out.
    FetchingInfo { seq: u64, digest: u64 },
    /// The fetched certificate of the item at `seq` is with the synchronizer.
    Syncing { seq: u64 },
    /// Waiting the short pause before re-opening a closed stream.
    Reconnecting,
    Terminated { outcome: SessionOutcome },
}

/// What the driver reports back to the session.
#[derive(Clone, Copy, Debug)]
pub enum SessionEvent {
    /// The session-wide deadline fired; valid in any phase.
    DeadlineFired,
    StreamOpened,
    OpenFailed,
    /// The stream yielded a batch summary; bookkeeping only.
    BatchReceived,
    /// The stream yielded a transaction digest at position `seq`.
    TransactionReceived { seq: u64, digest: u64 },
    StreamErrored,
    /// The peer closed the stream without error.
    StreamClosed,
    ExistenceChecked { known: bool },
    InfoReceived { response: TransactionInfoResponse },
    InfoFailed,
    SyncResolved { accepted: bool },
    DelayElapsed,
}

/// What the driver must do next.
#[derive(Clone, Copy, Debug)]
pub enum SessionAction {
    /// Issue `request` for a digest stream.
    OpenStream { request: BatchInfoRequest },
    /// Ask local storage whether `digest` is already known.
    CheckExistence { digest: u64 },
    /// Issue a transaction-info request for `digest` to the session's peer.
    FetchInfo { digest: u64 },
    /// Hand `confirmation` to the cross-authority synchronizer.
    Forward { confirmation: ConfirmationTransaction, source: u64, destination: u64 },
    /// Sleep `RECONNECT_DELAY_MS`, then report `DelayElapsed`.
    ShortDelay,
    /// Keep waiting on the stream and the deadline.
    AwaitStream,
    /// The session is over.
    Stop,
}

/// One gossip session against one peer.
pub struct PeerGossip {
    pub peer_name: u64,
    /// The authority running this session; certificates are synchronized from
    /// `peer_name` to it.
    pub my_name: u64,
    /// Resume cursor: the next stream position to ask for. Unset until the
    /// first item is processed.
    pub max_seq: Option<u64>,
    pub phase: SessionPhase,
}

/// Events carrying a stream position leave room to advance the cursor past
/// it.
pub open spec fn event_well_formed(e: SessionEvent) -> bool {
    e matches SessionEvent::TransactionReceived { seq, .. } ==> seq < u64::MAX
}

/// The transition function: every decision the protocol makes, with no I/O.
/// An event that its phase does not expect changes nothing.
pub open spec fn step_spec(s: PeerGossip, e: SessionEvent) -> (PeerGossip, SessionAction) {
    if s.phase is Terminated {
        (s, SessionAction::Stop)
    } else if e is DeadlineFired {
        (
            PeerGossip {
                phase: SessionPhase::Terminated { outcome: SessionOutcome::Completed },
                ..s
            },
            SessionAction::Stop,
        )
    } else {
        match (s.phase, e) {
            (SessionPhase::Opening, SessionEvent::StreamOpened) => (
                PeerGossip { phase: SessionPhase::Streaming, ..s },
                SessionAction::AwaitStream,
            ),
            (SessionPhase::Opening, SessionEvent::OpenFailed) => (
                s.fail(GossipError::Network),
                SessionAction::Stop,
            ),
            (SessionPhase::Streaming, SessionEvent::BatchReceived) => (
                s,
                SessionAction::AwaitStream,
            ),
            (SessionPhase::Streaming, SessionEvent::TransactionReceived { seq, digest }) => (
                PeerGossip { phase: SessionPhase::CheckingExistence { seq, digest }, ..s },
                SessionAction::CheckExistence { digest },
            ),
            (SessionPhase::Streaming, SessionEvent::StreamErrored) => (
                s.fail(GossipError::Network),
                SessionAction::Stop,
            ),
            (SessionPhase::Streaming, SessionEvent::StreamClosed) => (
                PeerGossip { phase: SessionPhase::Reconnecting, ..s },
                SessionAction::ShortDelay,
            ),
            (
                SessionPhase::CheckingExistence { seq, digest },
                SessionEvent::ExistenceChecked { known },
            ) => if known {
                (
                    PeerGossip {
                        max_seq: Some((seq + 1) as u64),
                        phase: SessionPhase::Streaming,
                        ..s
                    },
                    SessionAction::AwaitStream,
                )
            } else {
                (
                    PeerGossip { phase: SessionPhase::FetchingInfo { seq, digest }, ..s },
                    SessionAction::FetchInfo { digest },
                )
            },
            (SessionPhase::FetchingInfo { seq, .. }, SessionEvent::InfoReceived { response }) => {
                match response.certified_transaction {
                    Some(certificate) => (
                        PeerGossip { phase: SessionPhase::Syncing { seq }, ..s },
                        SessionAction::Forward {
                            confirmation: ConfirmationTransaction { certificate },
                            source: s.peer_name,
                            destination: s.my_name,
                        },
                    ),
                    None => (
                        s.fail(GossipError::ByzantineSuspicion { authority: s.peer_name }),
                        SessionAction::Stop,
                    ),
                }
            },
            (SessionPhase::FetchingInfo { .. }, SessionEvent::InfoFailed) => (
                s.fail(GossipError::Network),
                SessionAction::Stop,
            ),
            (SessionPhase::Syncing { seq }, SessionEvent::SyncResolved { accepted }) => if accepted {
                (
                    PeerGossip {
                        max_seq: Some((seq + 1) as u64),
                        phase: SessionPhase::Streaming,
                        ..s
                    },
                    SessionAction::AwaitStream,
                )
            } else {
                (s.fail(GossipError::SyncRejected), SessionAction::Stop)
            },
            (SessionPhase::Reconnecting, SessionEvent::DelayElapsed) => (
                PeerGossip { phase: SessionPhase::Opening, ..s },
                SessionAction::OpenStream {
                    request: BatchInfoRequest {
                        start: s.max_seq,
                        length: REQUEST_FOLLOW_NUM_DIGESTS,
                    },
                },
            ),
            _ => (s, SessionAction::AwaitStream),
        }
    }
}

/// `a` does not sit above `b`: an unset cursor sits below everything.
pub open spec fn cursor_le(a: Option<u64>, b: Option<u64>) -> bool {
    match a {
        None => true,
        Some(x) => b matches Some(y) && x <= y,
    }
}

impl PeerGossip {
    /// The stored stream position fits the cursor arithmetic and never sits
    /// below the cursor that accepted it.
    pub open spec fn well_formed(&self) -> bool {
        match self.phase {
            SessionPhase::CheckingExistence { seq, .. } => self.seq_ok(seq),
            SessionPhase::FetchingInfo { seq, .. } => self.seq_ok(seq),
            SessionPhase::Syncing { seq } => self.seq_ok(seq),
            _ => true,
        }
    }

    pub open spec fn seq_ok(&self, seq: u64) -> bool {
        seq < u64::MAX && (self.max_seq matches Some(c) ==> c <= seq)
    }

    /// A stream item at a position the resume cursor already passed would
    /// rewind the session; an in-order stream, resumed at the cursor, never
    /// yields one.
    pub open spec fn in_order(&self, e: SessionEvent) -> bool {
        e matches SessionEvent::TransactionReceived { seq, .. } ==> (self.max_seq matches Some(c)
            ==> c <= seq)
    }

    pub open spec fn fail(self, error: GossipError) -> PeerGossip {
        PeerGossip {
            phase: SessionPhase::Terminated { outcome: SessionOutcome::Failed { error } },
            ..self
        }
    }

    /// A fresh session against `peer_name`: no stream yet, cursor unset, the
    /// first stream request left to the peer's discretion.
    pub fn new(peer_name: u64, my_name: u64) -> (s: PeerGossip)
        ensures
            s == (PeerGossip { peer_name, my_name, max_seq: None, phase: SessionPhase::Opening }),
    {
        PeerGossip { peer_name, my_name, max_seq: None, phase: SessionPhase::Opening }
    }

    /// The stream request that resumes this session at its cursor.
    pub fn current_request(&self) -> (r: BatchInfoRequest)
        ensures
            r.start == self.max_seq,
            r.length == REQUEST_FOLLOW_NUM_DIGESTS,
    {
        BatchInfoRequest { start: self.max_seq, length: REQUEST_FOLLOW_NUM_DIGESTS }
    }

    /// Advances the session by one event and says what to do next.
    pub fn step(&mut self, event: SessionEvent) -> (a: SessionAction)
        requires
            old(self).well_formed(),
            event_well_formed(event),
            old(self).in_order(event),
        ensures
            *final(self) == step_spec(*old(self), event).0,
            a == step_spec(*old(self), event).1,
            final(self).well_formed(),
            final(self).peer_name == old(self).peer_name,
            final(self).my_name == old(self).my_name,
            cursor_le(old(self).max_seq, final(self).max_seq),
    {
        if matches!(self.phase, SessionPhase::Terminated { .. }) {
            return SessionAction::Stop;
        }
        if matches!(event, SessionEvent::DeadlineFired) {
            self.phase = SessionPhase::Terminated { outcome: SessionOutcome::Completed };
            return SessionAction::Stop;
        }
        match (self.phase, event) {
            (SessionPhase::Opening, SessionEvent::StreamOpened) => {
                self.phase = SessionPhase::Streaming;
                SessionAction::AwaitStream
            },
            (SessionPhase::Opening, SessionEvent::OpenFailed) => {
                self.phase = SessionPhase::Terminated {
                    outcome: SessionOutcome::Failed { error: GossipError::Network },
                };
                SessionAction::Stop
            },
            (SessionPhase::Streaming, SessionEvent::BatchReceived) => SessionAction::AwaitStream,
            (SessionPhase::Streaming, SessionEvent::TransactionReceived { seq, digest }) => {
                self.phase = SessionPhase::CheckingExistence { seq, digest };
                SessionAction::CheckExistence { digest }
            },
            (SessionPhase::Streaming, SessionEvent::StreamErrored) => {
                self.phase = SessionPhase::Terminated {
                    outcome: SessionOutcome::Failed { error: GossipError::Network },
                };
                SessionAction::Stop
            },
            (SessionPhase::Streaming, SessionEvent::StreamClosed) => {
                self.phase = SessionPhase::Reconnecting;
                SessionAction::ShortDelay
            },
            (
                SessionPhase::CheckingExistence { seq, digest },
                SessionEvent::ExistenceChecked { known },
            ) => {
                if known {
                    self.max_seq = Some(seq + 1);
                    self.phase = SessionPhase::Streaming;
                    SessionAction::AwaitStream
                } else {
                    self.phase = SessionPhase::FetchingInfo { seq, digest };
                    SessionAction::FetchInfo { digest }
                }
            },
            (SessionPhase::FetchingInfo { seq, .. }, SessionEvent::InfoReceived { response }) => {
                match response.certified_transaction {
                    Some(certificate) => {
                        self.phase = SessionPhase::Syncing { seq };
                        SessionAction::Forward {
                            confirmation: ConfirmationTransaction { certificate },
                            source: self.peer_name,
                            destination: self.my_name,
                        }
                    },
                    None => {
                        self.phase = SessionPhase::Terminated {
                            outcome: SessionOutcome::Failed {
                                error: GossipError::ByzantineSuspicion {
                                    authority: self.peer_name,
                                },
                            },
                        };
                        SessionAction::Stop
                    },
                }
            },
            (SessionPhase::FetchingInfo { .. }, SessionEvent::InfoFailed) => {
                self.phase = SessionPhase::Terminated {
                    outcome: SessionOutcome::Failed { error: GossipError::Network },
                };
                SessionAction::Stop
            },
            (SessionPhase::Syncing { seq }, SessionEvent::SyncResolved { accepted }) => {
                if accepted {
                    self.max_seq = Some(seq + 1);
                    self.phase = SessionPhase::Streaming;
                    SessionAction::AwaitStream
                } else {
                    self.phase = SessionPhase::Terminated {
                        outcome: SessionOutcome::Failed { error: GossipError::SyncRejected },
                    };
                    SessionAction::Stop
                }
            },
            (SessionPhase::Reconnecting, SessionEvent::DelayElapsed) => {
                self.phase = SessionPhase::Opening;
                SessionAction::OpenStream { request: self.current_request() }
            },
            _ => SessionAction::AwaitStream,
        }
    }

    /// The decision of the transaction-info exchange: a response carrying a
    /// certificate is forwarded from this peer to this authority; a response
    /// without one convicts the peer of claiming a digest it cannot
    /// substantiate.
    pub fn process_response(&self, response: TransactionInfoResponse) -> (r: Result<
        ConfirmationTransaction,
        GossipError,
    >)
        ensures
            r is Ok <==> response.certified_transaction is Some,
            response.certified_transaction matches Some(c) ==> r == Ok::<_, GossipError>(
                ConfirmationTransaction { certificate: c },
            ),
            response.certified_transaction is None ==> r == Err::<ConfirmationTransaction, _>(
                GossipError::ByzantineSuspicion { authority: self.peer_name },
            ),
    {
        match response.certified_transaction {
            Some(certificate) => Ok(ConfirmationTransaction { certificate }),
            None => Err(GossipError::ByzantineSuspicion { authority: self.peer_name }),
        }
    }
}

/// The session after a whole trace of events.
pub open spec fn run_session(s: PeerGossip, events: Seq<SessionEvent>) -> PeerGossip
    decreases events.len(),
{
    if events.len() == 0 {
        s
    } else {
        run_session(step_spec(s, events[0]).0, events.subrange(1, events.len() as int))
    }
}

/// Every event of the trace is in order for the session it meets.
pub open spec fn trace_in_order(s: PeerGossip, events: Seq<SessionEvent>) -> bool
    decreases events.len(),
{
    events.len() == 0 || {
        &&& event_well_formed(events[0])
        &&& s.in_order(events[0])
        &&& trace_in_order(step_spec(s, events[0]).0, events.subrange(1, events.len() as int))
    }
}

/// One in-order event never rewinds the cursor.
pub proof fn lemma_step_cursor_monotone(s: PeerGossip, e: SessionEvent)
    requires
        s.well_formed(),
        event_well_formed(e),
        s.in_order(e),
    ensures
        cursor_le(s.max_seq, step_spec(s, e).0.max_seq),
        step_spec(s, e).0.well_formed(),
{
}

/// Within one session the cursor never decreases, however long the stream
/// runs and whether or not the digests it yields are already known locally:
/// an item already seen still advances the cursor past itself.
pub proof fn lemma_session_cursor_monotone(s: PeerGossip, events: Seq<SessionEvent>)
    requires
        s.well_formed(),
        trace_in_order(s, events),
    ensures
        cursor_le(s.max_seq, run_session(s, events).max_seq),
        run_session(s, events).well_formed(),
    decreases events.len(),
{
    if events.len() > 0 {
        lemma_step_cursor_monotone(s, events[0]);
        lemma_session_cursor_monotone(
            step_spec(s, events[0]).0,
            events.subrange(1, events.len() as int),
        );
    }
}

/// A peer that advertised a digest but answered the fetch without a
/// certificate ends its session under Byzantine suspicion, and nothing is
/// handed to the synchronizer.
pub proof fn lemma_missing_certificate_is_byzantine(s: PeerGossip, response: TransactionInfoResponse)
    requires
        s.phase is FetchingInfo,
        response.certified_transaction is None,
    ensures
        step_spec(s, SessionEvent::InfoReceived { response }).0.phase
            == (SessionPhase::Terminated {
            outcome: SessionOutcome::Failed {
                error: GossipError::ByzantineSuspicion { authority: s.peer_name },
            },
        }),
        step_spec(s, SessionEvent::InfoReceived { response }).1 == SessionAction::Stop,
        !(step_spec(s, SessionEvent::InfoReceived { response }).1 is Forward),
{
}

} // verus!
