//! One client session: a four-state machine that says which requests are
//! accepted, and which responses may still be delivered.
//!
//! `Connecting → Active → Closing → Closed`. A session never moves
//! backwards, and `Closed` is final. The machine only decides; reading
//! from and writing to the transport is left to the caller, which reports
//! what happened and acts on what it is told.

use vstd::prelude::*;
use crate::error::{ErrorKind, ErrorView, ServiceError};
use crate::protocol::{
    handshake_view, negotiate, negotiated, protocol_version, Capabilities, HandshakeRequest,
    ServerInfo, ServerInfoView,
};

verus! {

/// Where a session stands in its life.
#[derive(Clone, Copy, Debug, PartialEq, Eq, Structural)]
pub enum SessionState {
    /// The transport is established, the handshake is not yet done.
    Connecting,
    /// The handshake is done; operations are accepted.
    Active,
    /// The client is gone or has been idle for too long; requests in
    /// flight may finish, new ones are refused.
    Closing,
    /// Final: nothing is in flight and nothing is accepted.
    Closed,
}

impl SessionState {
    /// The place of the state in the order of a session's life.
    pub open spec fn rank(self) -> nat {
        match self {
            SessionState::Connecting => 0,
            SessionState::Active => 1,
            SessionState::Closing => 2,
            SessionState::Closed => 3,
        }
    }
}

/// What becomes of the result of a request that has finished.
#[derive(Clone, Copy, Debug, PartialEq, Eq, Structural)]
pub enum Delivery {
    /// Send it to the session that issued the request.
    Deliver,
    /// Drop it: nobody is waiting for it.
    Discard,
}

/// The position of the first of `tokens[from..]` that equals `token`.
pub open spec fn position(tokens: Seq<u64>, token: u64, from: int) -> Option<int>
    decreases tokens.len() - from,
{
    if from < 0 || from >= tokens.len() {
        None
    } else if tokens[from] == token {
        Some(from)
    } else {
        position(tokens, token, from + 1)
    }
}

/// The state of a session as plain mathematical values.
pub struct SessionView {
    /// The token that identifies the session.
    pub id: nat,
    pub state: SessionState,
    /// The features agreed on in the handshake.
    pub capabilities: Capabilities,
    /// The correlation tokens of the requests in flight, oldest first.
    pub pending: Seq<u64>,
    /// When the client was last heard of.
    pub last_activity: nat,
}

/// The refusal of a request that is not acceptable in the session's state.
pub open spec fn protocol_error(reason: Seq<char>) -> ErrorView {
    ErrorView { kind: ErrorKind::ProtocolError, reason }
}

impl SessionView {
    /// A session that has just been created for a new connection.
    pub open spec fn opened(id: nat, now: nat) -> SessionView {
        SessionView {
            id,
            state: SessionState::Connecting,
            capabilities: Capabilities::none(),
            pending: Seq::empty(),
            last_activity: now,
        }
    }

    /// Requests are in flight only while the session is `Active` or
    /// `Closing`, and a `Closing` session still has one in flight. Before
    /// the handshake nothing is agreed.
    pub open spec fn wf(self) -> bool {
        &&& self.state is Connecting ==> self.pending.len() == 0 && self.capabilities
            == Capabilities::none()
        &&& self.state is Closing ==> self.pending.len() > 0
        &&& self.state is Closed ==> self.pending.len() == 0
    }

    /// Why the session does not take a request in its state; `None` if it
    /// is `Active` and takes it.
    pub open spec fn refusal(self) -> Option<ErrorView> {
        match self.state {
            SessionState::Connecting => Some(protocol_error("session not initialized"@)),
            SessionState::Active => None,
            SessionState::Closing => Some(protocol_error("session is closing"@)),
            SessionState::Closed => Some(protocol_error("session is closed"@)),
        }
    }

    /// The answer to a handshake that asks for the protocol version
    /// `requested`. Only a `Connecting` session takes a handshake.
    pub open spec fn handshake_answer(self, requested: Seq<char>) -> Result<
        ServerInfoView,
        ErrorView,
    > {
        match self.state {
            SessionState::Connecting => negotiated(requested),
            SessionState::Active => Err(protocol_error("session already initialized"@)),
            SessionState::Closing => Err(protocol_error("session is closing"@)),
            SessionState::Closed => Err(protocol_error("session is closed"@)),
        }
    }

    /// The session after a handshake at time `now` that asks for the
    /// protocol version `requested` and the features `desired`: `Active`
    /// with the features that both sides have, if the session was
    /// `Connecting` and the version is implemented; unchanged otherwise.
    pub open spec fn after_handshake(self, requested: Seq<char>, desired: Capabilities, now: nat)
        -> SessionView {
        if self.state is Connecting && requested == protocol_version() {
            SessionView {
                state: SessionState::Active,
                capabilities: desired.common(Capabilities::supported()),
                last_activity: now,
                ..self
            }
        } else {
            self
        }
    }

    /// The session after a request with the correlation token `token`
    /// arrived at time `now`: in flight if the session is `Active`,
    /// unchanged otherwise.
    pub open spec fn after_accept(self, token: u64, now: nat) -> SessionView {
        if self.state is Active {
            SessionView { pending: self.pending.push(token), last_activity: now, ..self }
        } else {
            self
        }
    }

    /// Whether a request with the correlation token `token` is in flight.
    pub open spec fn awaits(self, token: u64) -> bool {
        position(self.pending, token, 0) is Some
    }

    /// What becomes of the result of the request `token`: it is delivered
    /// if the request is in flight and the session is `Active`.
    pub open spec fn delivery(self, token: u64) -> Delivery {
        if self.awaits(token) && self.state is Active {
            Delivery::Deliver
        } else {
            Delivery::Discard
        }
    }

    /// The session after the request `token` has finished: the oldest
    /// request of that token is no longer in flight, and a `Closing`
    /// session with nothing left in flight is `Closed`.
    pub open spec fn after_finish(self, token: u64) -> SessionView {
        match position(self.pending, token, 0) {
            Some(i) => {
                let rest = self.pending.remove(i);
                SessionView {
                    pending: rest,
                    state: if self.state is Closing && rest.len() == 0 {
                        SessionState::Closed
                    } else {
                        self.state
                    },
                    ..self
                }
            },
            None => self,
        }
    }

    /// The session after the transport signalled shutdown: `Closing` while
    /// requests are in flight, `Closed` at once if none is.
    pub open spec fn after_shutdown(self) -> SessionView {
        match self.state {
            SessionState::Connecting | SessionState::Active => SessionView {
                state: if self.pending.len() == 0 {
                    SessionState::Closed
                } else {
                    SessionState::Closing
                },
                ..self
            },
            _ => self,
        }
    }

    /// Whether at time `now` the client has not been heard of for at least
    /// `timeout`, in a session that still waits for it.
    pub open spec fn idle(self, now: nat, timeout: nat) -> bool {
        &&& self.state is Connecting || self.state is Active
        &&& now >= self.last_activity + timeout
    }

    /// The session after an idle check at time `now`: shut down if it is
    /// idle, unchanged otherwise.
    pub open spec fn after_expiry(self, now: nat, timeout: nat) -> SessionView {
        if self.idle(now, timeout) {
            self.after_shutdown()
        } else {
            self
        }
    }
}

/// Something that happens to a session.
pub enum SessionEvent {
    /// A handshake arrived.
    Handshake { requested: Seq<char>, desired: Capabilities, now: nat },
    /// A request arrived.
    Request { token: u64, now: nat },
    /// A request in flight has finished.
    Finished { token: u64 },
    /// The transport signalled shutdown.
    Shutdown,
    /// The session was checked for idleness.
    IdleCheck { now: nat, timeout: nat },
}

impl SessionView {
    /// The session after `event`.
    pub open spec fn step(self, event: SessionEvent) -> SessionView {
        match event {
            SessionEvent::Handshake { requested, desired, now } => self.after_handshake(
                requested,
                desired,
                now,
            ),
            SessionEvent::Request { token, now } => self.after_accept(token, now),
            SessionEvent::Finished { token } => self.after_finish(token),
            SessionEvent::Shutdown => self.after_shutdown(),
            SessionEvent::IdleCheck { now, timeout } => self.after_expiry(now, timeout),
        }
    }
}

/// Whatever happens, a well-formed session stays well-formed, keeps its
/// token, and never moves back to an earlier state.
pub proof fn lemma_step_forward(s: SessionView, event: SessionEvent)
    requires
        s.wf(),
    ensures
        s.step(event).wf(),
        s.step(event).id == s.id,
        s.step(event).state.rank() >= s.state.rank(),
{
}

/// `Closed` is final: nothing changes a closed session.
pub proof fn lemma_closed_is_final(s: SessionView, event: SessionEvent)
    requires
        s.wf(),
        s.state is Closed,
    ensures
        s.step(event) == s,
{
}

/// Where `position` finds a token, the token stands, and not before.
pub proof fn lemma_position(tokens: Seq<u64>, token: u64, from: int)
    requires
        0 <= from,
    ensures
        match position(tokens, token, from) {
            Some(i) => from <= i < tokens.len() && tokens[i] == token && forall|j: int|
                from <= j < i ==> tokens[j] != token,
            None => forall|j: int| from <= j < tokens.len() ==> tokens[j] != token,
        },
    decreases tokens.len() - from,
{
    if from < tokens.len() && tokens[from] != token {
        lemma_position(tokens, token, from + 1);
    }
}

/// A result is delivered only in answer to a request: the session had
/// accepted a request with that token which was still in flight, and
/// exactly that one request is no longer in flight afterwards.
pub proof fn lemma_delivery_answers_request(s: SessionView, token: u64)
    requires
        s.wf(),
        s.delivery(token) == Delivery::Deliver,
    ensures
        s.state is Active,
        s.pending.contains(token),
        s.after_finish(token).pending.len() + 1 == s.pending.len(),
        s.after_finish(token).pending.to_multiset() == s.pending.to_multiset().remove(token),
        s.after_finish(token).state is Active,
{
    lemma_position(s.pending, token, 0);
    let i = position(s.pending, token, 0)->Some_0;
    s.pending.to_multiset_ensures();
}

/// A request that was accepted and has not finished will be answered: it
/// is in flight, and stays in flight while other requests arrive and
/// finish in any order.
pub proof fn lemma_request_stays_in_flight(s: SessionView, token: u64, event: SessionEvent)
    requires
        s.wf(),
        s.awaits(token),
        !(event matches SessionEvent::Finished { token: finished } && finished == token),
    ensures
        s.step(event).awaits(token),
{
    lemma_position(s.pending, token, 0);
    let i = position(s.pending, token, 0)->Some_0;
    let after = s.step(event);
    match event {
        SessionEvent::Request { token: other, now } => {
            if s.state is Active {
                assert(after.pending[i] == token);
            }
        },
        SessionEvent::Finished { token: other } => {
            lemma_position(s.pending, other, 0);
            if let Some(j) = position(s.pending, other, 0) {
                let i1 = if i < j { i } else { i - 1 };
                assert(after.pending[i1] == token);
            }
        },
        _ => {},
    }
    lemma_position(after.pending, token, 0);
}

/// An accepted request is in flight at once.
pub proof fn lemma_accepted_is_in_flight(s: SessionView, token: u64, now: nat)
    requires
        s.state is Active,
    ensures
        s.after_accept(token, now).awaits(token),
{
    let after = s.after_accept(token, now);
    assert(after.pending[s.pending.len() as int] == token);
    lemma_position(after.pending, token, 0);
}

/// The state of one client session.
#[derive(Debug)]
pub struct Session {
    id: u64,
    state: SessionState,
    capabilities: Capabilities,
    pending: Vec<u64>,
    last_activity: u64,
}

impl View for Session {
    type V = SessionView;

    closed spec fn view(&self) -> SessionView {
        SessionView {
            id: self.id as nat,
            state: self.state,
            capabilities: self.capabilities,
            pending: self.pending@,
            last_activity: self.last_activity as nat,
        }
    }
}

/// The refusal with the given reason.
pub(crate) fn refuse(reason: &str) -> (e: ServiceError)
    ensures
        e@ == protocol_error(reason@),
{
    ServiceError::new(ErrorKind::ProtocolError, reason.to_owned())
}

impl Session {
    /// A session for a connection that was established at time `now`.
    pub fn open(id: u64, now: u64) -> (session: Session)
        ensures
            session@ == SessionView::opened(id as nat, now as nat),
            session@.wf(),
    {
        Session {
            id,
            state: SessionState::Connecting,
            capabilities: Capabilities { tools: false, resources: false, prompts: false, logging: false },
            pending: Vec::new(),
            last_activity: now,
        }
    }

    /// The token that identifies the session.
    pub fn id(&self) -> (id: u64)
        ensures
            id == self@.id,
    {
        self.id
    }

    /// Where the session stands in its life.
    pub fn state(&self) -> (state: SessionState)
        ensures
            state == self@.state,
    {
        self.state
    }

    /// The features agreed on in the handshake.
    pub fn capabilities(&self) -> (capabilities: Capabilities)
        ensures
            capabilities == self@.capabilities,
    {
        self.capabilities
    }

    /// The number of requests in flight.
    pub fn in_flight(&self) -> (n: usize)
        ensures
            n == self@.pending.len(),
    {
        self.pending.len()
    }

    /// When the client was last heard of.
    pub fn last_activity(&self) -> (at: u64)
        ensures
            at == self@.last_activity,
    {
        self.last_activity
    }

    /// Why the session does not take a request in its state.
    fn refusal(&self) -> (r: Option<ServiceError>)
        ensures
            match r {
                Some(e) => self@.refusal() == Some(e@),
                None => self@.refusal() is None,
            },
    {
        match self.state {
            SessionState::Connecting => Some(refuse("session not initialized")),
            SessionState::Active => None,
            SessionState::Closing => Some(refuse("session is closing")),
            SessionState::Closed => Some(refuse("session is closed")),
        }
    }

    /// Takes the handshake `request` that arrived at time `now`.
    ///
    /// A `Connecting` session answers as [`negotiate`] does and becomes
    /// `Active` if the version is accepted. Any other session refuses with
    /// a protocol error. A refused handshake changes nothing.
    pub fn handshake(&mut self, request: &HandshakeRequest, now: u64) -> (answer: Result<
        ServerInfo,
        ServiceError,
    >)
        requires
            old(self)@.wf(),
        ensures
            final(self)@.wf(),
            final(self)@ == old(self)@.after_handshake(
                request.protocol_version@,
                request.capabilities,
                now as nat,
            ),
            handshake_view(answer) == old(self)@.handshake_answer(request.protocol_version@),
    {
        match self.state {
            SessionState::Connecting => {
                let answer = negotiate(request);
                match answer {
                    Ok(info) => {
                        self.state = SessionState::Active;
                        self.capabilities = request.capabilities.intersect(info.capabilities);
                        self.last_activity = now;
                        Ok(info)
                    },
                    Err(error) => Err(error),
                }
            },
            SessionState::Active => Err(refuse("session already initialized")),
            SessionState::Closing => Err(refuse("session is closing")),
            SessionState::Closed => Err(refuse("session is closed")),
        }
    }

    /// Takes a request with the correlation token `token` that arrived at
    /// time `now`.
    ///
    /// An `Active` session puts it in flight. Any other session refuses
    /// with a protocol error and stays as it was.
    pub fn accept(&mut self, token: u64, now: u64) -> (r: Result<(), ServiceError>)
        requires
            old(self)@.wf(),
        ensures
            final(self)@.wf(),
            final(self)@ == old(self)@.after_accept(token, now as nat),
            match r {
                Ok(_) => old(self)@.refusal() is None,
                Err(e) => old(self)@.refusal() == Some(e@),
            },
    {
        match self.refusal() {
            Some(error) => Err(error),
            None => {
                self.pending.push(token);
                self.last_activity = now;
                Ok(())
            },
        }
    }

    /// The position of the oldest request in flight whose token is `token`.
    fn find(&self, token: u64) -> (r: Option<usize>)
        ensures
            match r {
                Some(i) => position(self@.pending, token, 0) == Some(i as int) && i
                    < self@.pending.len(),
                None => position(self@.pending, token, 0) is None,
            },
    {
        let mut i: usize = 0;
        while i < self.pending.len()
            invariant
                i <= self.pending.len(),
                position(self@.pending, token, 0) == position(self@.pending, token, i as int),
            decreases self.pending.len() - i,
        {
            if self.pending[i] == token {
                return Some(i);
            }
            i = i + 1;
        }
        None
    }

    /// Records that the request `token` has finished and says what to do
    /// with its result.
    ///
    /// The result is delivered only if the request was in flight and the
    /// session is still `Active`; a request is answered at most once.
    pub fn finish(&mut self, token: u64) -> (delivery: Delivery)
        requires
            old(self)@.wf(),
        ensures
            final(self)@.wf(),
            final(self)@ == old(self)@.after_finish(token),
            delivery == old(self)@.delivery(token),
    {
        match self.find(token) {
            Some(i) => {
                self.pending.remove(i);
                match self.state {
                    SessionState::Active => Delivery::Deliver,
                    SessionState::Closing => {
                        if self.pending.len() == 0 {
                            self.state = SessionState::Closed;
                        }
                        Delivery::Discard
                    },
                    _ => Delivery::Discard,
                }
            },
            None => Delivery::Discard,
        }
    }

    /// Records that the transport signalled shutdown.
    pub fn shutdown(&mut self)
        requires
            old(self)@.wf(),
        ensures
            final(self)@.wf(),
            final(self)@ == old(self)@.after_shutdown(),
    {
        match self.state {
            SessionState::Connecting | SessionState::Active => {
                if self.pending.len() == 0 {
                    self.state = SessionState::Closed;
                } else {
                    self.state = SessionState::Closing;
                }
            },
            _ => {},
        }
    }

    /// Whether at time `now` the client has not been heard of for at least
    /// `timeout`, in a session that still waits for it.
    pub fn is_idle(&self, now: u64, timeout: u64) -> (idle: bool)
        ensures
            idle == self@.idle(now as nat, timeout as nat),
    {
        let waiting = match self.state {
            SessionState::Connecting | SessionState::Active => true,
            _ => false,
        };
        waiting && now >= self.last_activity && now - self.last_activity >= timeout
    }

    /// Shuts the session down if it is idle at time `now`; says whether
    /// it did.
    pub fn expire(&mut self, now: u64, timeout: u64) -> (expired: bool)
        requires
            old(self)@.wf(),
        ensures
            final(self)@.wf(),
            final(self)@ == old(self)@.after_expiry(now as nat, timeout as nat),
            expired == old(self)@.idle(now as nat, timeout as nat),
    {
        if self.is_idle(now, timeout) {
            self.shutdown();
            true
        } else {
            false
        }
    }
}

} // verus!
