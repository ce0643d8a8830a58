use vstd::prelude::*;
use crate::registry::AppContext;

verus! {

/// The close status carried by a close frame: a wire-level close code and an
/// optional human-readable description.
pub struct CloseReason {
    pub code: u16,
    pub description: Option<String>,
}

/// A transport-level read error: the frame stream yielded an error instead
/// of a frame, and the connection is considered lost.
pub struct ProtocolError;

/// One incoming websocket frame, as handed to the session by the transport.
pub enum Frame {
    /// A text data frame; its payload is accepted and discarded.
    Text(String),
    /// A binary data frame; its payload is accepted and discarded.
    Binary(Vec<u8>),
    /// A fragmented-message continuation. The session never expects one, so
    /// receiving it is a protocol violation.
    Continuation,
    /// A liveness probe from the peer, answered with a pong.
    Ping(Vec<u8>),
    /// The peer's answer to one of our pings.
    Pong(Vec<u8>),
    /// The peer is closing the connection, optionally giving a reason.
    Close(Option<CloseReason>),
    /// A frame with no semantic content.
    Nop,
}

/// One outgoing effect requested by the session. The transport glue performs
/// these in order.
pub enum Action {
    /// Send a pong frame with the given payload.
    Pong(Vec<u8>),
    /// Send a ping frame with the given payload.
    Ping(Vec<u8>),
    /// Send a close frame acknowledging the peer's reason.
    Close(Option<CloseReason>),
    /// Stop the session: the transport must tear the connection down and
    /// then call `stopped` exactly once.
    Stop,
}

/// Where a session stands in its lifecycle.
#[derive(PartialEq, Eq, Structural, Clone, Copy, Debug)]
pub enum SessionState {
    /// The connection is up and frames are being dispatched.
    Active,
    /// A close acknowledgement has been sent; only termination remains.
    Closing,
    /// The session is finished and deregistered. Terminal.
    Terminated,
}

/// The server-side state of one websocket connection.
pub struct WsSession {
    /// Session identifier, assigned at creation. Sessions are not looked up
    /// by id in the current scope.
    pub id: usize,
    /// Timestamp (in milliseconds) of the last liveness signal received from
    /// the peer: set at creation and refreshed by every ping or pong.
    pub hb: u64,
    /// Lifecycle state.
    pub state: SessionState,
    /// Whether the session currently holds a registry increment.
    pub registered: bool,
}

/// What `handle` does for each incoming frame: the successor session state
/// paired with the exact sequence of actions the transport must perform.
pub open spec fn dispatch(s: WsSession, msg: Result<Frame, ProtocolError>, now: u64) -> (
    WsSession,
    Seq<Action>,
) {
    match msg {
        Result::Err(_) => (s, seq![Action::Stop]),
        Result::Ok(f) => match f {
            Frame::Text(_) => (s, Seq::empty()),
            Frame::Binary(_) => (s, Seq::empty()),
            Frame::Continuation => (s, seq![Action::Stop]),
            Frame::Ping(p) => (WsSession { hb: now, ..s }, seq![Action::Pong(p)]),
            Frame::Pong(_) => (WsSession { hb: now, ..s }, Seq::empty()),
            Frame::Close(r) => (
                WsSession { state: SessionState::Closing, ..s },
                seq![Action::Close(r), Action::Stop],
            ),
            Frame::Nop => (s, Seq::empty()),
        },
    }
}

/// What `stopped` does: the session is terminated and gives up its registry
/// increment; nothing else changes.
pub open spec fn finalize(s: WsSession) -> WsSession {
    WsSession { state: SessionState::Terminated, registered: false, ..s }
}

impl WsSession {
    /// A new session for a connection upgraded at time `now`: active, not
    /// yet registered, with the peer considered live as of `now`.
    pub fn new(id: usize, now: u64) -> (s: WsSession)
        ensures
            s == (WsSession { id, hb: now, state: SessionState::Active, registered: false }),
    {
        WsSession { id, hb: now, state: SessionState::Active, registered: false }
    }

    /// Session start: take the registry increment and become live. Called
    /// exactly once, before any frame is dispatched.
    pub fn started(&mut self, app: &mut AppContext)
        requires
            old(self).state == SessionState::Active,
            !old(self).registered,
            old(app).counter < usize::MAX,
        ensures
            final(app).counter == old(app).counter + 1,
            *final(self) == (WsSession { registered: true, ..*old(self) }),
    {
        app.increment();
        self.registered = true;
    }

    /// Session finalization: the single step through which every exit path
    /// (clean close, protocol violation, transport error, heartbeat timeout)
    /// reaches `Terminated`. Releases the registry increment exactly once:
    /// the precondition rules out a second call on the same session.
    pub fn stopped(&mut self, app: &mut AppContext)
        requires
            old(self).registered,
            old(self).state != SessionState::Terminated,
            old(app).counter > 0,
        ensures
            final(app).counter == old(app).counter - 1,
            *final(self) == finalize(*old(self)),
    {
        app.decrement();
        self.registered = false;
        self.state = SessionState::Terminated;
    }

    /// Dispatch one incoming frame (or transport error) received at time
    /// `now`, returning the actions the transport must perform, in order:
    /// - a ping is answered by exactly one pong echoing its payload, and
    ///   refreshes `hb`;
    /// - a pong refreshes `hb` and is not answered;
    /// - a close is answered by exactly one close acknowledgement carrying
    ///   the same reason, and the session begins terminating;
    /// - an unexpected continuation frame or a transport error terminates
    ///   the session with no reply frame;
    /// - text, binary and no-op frames are accepted and discarded.
    pub fn handle(&mut self, msg: Result<Frame, ProtocolError>, now: u64) -> (actions: Vec<Action>)
        requires
            old(self).state == SessionState::Active,
        ensures
            (*final(self), actions@) == dispatch(*old(self), msg, now),
    {
        match msg {
            Result::Err(_) => {
                let mut acts: Vec<Action> = Vec::new();
                acts.push(Action::Stop);
                acts
            },
            Result::Ok(f) => match f {
                Frame::Text(_) => Vec::new(),
                Frame::Binary(_) => Vec::new(),
                Frame::Continuation => {
                    let mut acts: Vec<Action> = Vec::new();
                    acts.push(Action::Stop);
                    acts
                },
                Frame::Ping(p) => {
                    self.hb = now;
                    let mut acts: Vec<Action> = Vec::new();
                    acts.push(Action::Pong(p));
                    acts
                },
                Frame::Pong(_) => {
                    self.hb = now;
                    Vec::new()
                },
                Frame::Close(r) => {
                    self.state = SessionState::Closing;
                    let mut acts: Vec<Action> = Vec::new();
                    acts.push(Action::Close(r));
                    acts.push(Action::Stop);
                    acts
                },
                Frame::Nop => Vec::new(),
            },
        }
    }
}

/// Ping/pong echo: a ping with payload `p` received by an active session
/// produces exactly one reply, a pong carrying the same payload, and
/// refreshes the last-seen time to the receipt time.
pub proof fn lemma_ping_pong_echo(s: WsSession, p: Vec<u8>, now: u64)
    requires
        s.state == SessionState::Active,
    ensures
        dispatch(s, Result::Ok(Frame::Ping(p)), now).1 == seq![Action::Pong(p)],
        dispatch(s, Result::Ok(Frame::Ping(p)), now).0 == (WsSession { hb: now, ..s }),
        dispatch(s, Result::Ok(Frame::Ping(p)), now).0.hb == now,
{
}

/// Close handshake: a close frame with reason `r` received by an active
/// session produces exactly one close acknowledgement, carrying the same
/// reason, followed only by the stop request; finalizing the session then
/// reaches `Terminated`.
pub proof fn lemma_close_handshake(s: WsSession, r: Option<CloseReason>, now: u64)
    requires
        s.state == SessionState::Active,
    ensures
        dispatch(s, Result::Ok(Frame::Close(r)), now).1 == seq![Action::Close(r), Action::Stop],
        dispatch(s, Result::Ok(Frame::Close(r)), now).0.state == SessionState::Closing,
        finalize(dispatch(s, Result::Ok(Frame::Close(r)), now).0).state
            == SessionState::Terminated,
{
}

/// Continuation rejection: a continuation frame received by a session
/// (which never awaits one) produces no reply frame, only the stop request,
/// and finalizing the session reaches `Terminated`.
pub proof fn lemma_continuation_rejection(s: WsSession, now: u64)
    requires
        s.state == SessionState::Active,
    ensures
        dispatch(s, Result::Ok(Frame::Continuation), now).1 == seq![Action::Stop],
        dispatch(s, Result::Ok(Frame::Continuation), now).0 == s,
        finalize(dispatch(s, Result::Ok(Frame::Continuation), now).0).state
            == SessionState::Terminated,
{
}

} // verus!
