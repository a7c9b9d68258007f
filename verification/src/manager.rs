//! The session manager: the table of live sessions, one for each connected
//! client.
//!
//! Sessions are independent of each other: every event names one session
//! and leaves all others as they were. A session that reaches `Closed` is
//! dropped from the table, which releases what it held. The task store is
//! not part of the table and outlives every session.

use vstd::prelude::*;
use crate::error::{ErrorView, ServiceError};
use crate::protocol::{handshake_view, HandshakeRequest, ServerInfo, ServerInfoView};
use crate::session::{
    protocol_error, refuse, Delivery, Session, SessionState, SessionView,
};

verus! {

/// The views of a list of sessions, in the same order.
pub open spec fn session_views(sessions: Seq<Session>) -> Seq<SessionView> {
    Seq::new(sessions.len(), |i: int| sessions[i]@)
}

/// The state of a session manager as plain mathematical values.
pub struct ManagerView {
    /// The live sessions, oldest first.
    pub sessions: Seq<SessionView>,
    /// The token that the next session receives.
    pub next_id: nat,
    /// How long a client may stay silent before its session is shut down.
    pub idle_timeout: nat,
}

/// The refusal of an event that names a session which is not in the table.
pub open spec fn unknown_session() -> ErrorView {
    protocol_error("unknown session"@)
}

impl ManagerView {
    /// A manager without sessions.
    pub open spec fn empty(idle_timeout: nat) -> ManagerView {
        ManagerView { sessions: Seq::empty(), next_id: 1, idle_timeout }
    }

    /// Every session in the table is well-formed and not `Closed`, and
    /// the tokens of the sessions increase along the table and stay below
    /// the counter, so no two sessions share a token.
    pub open spec fn wf(self) -> bool {
        &&& forall|i: int|
            0 <= i < self.sessions.len() ==> {
                &&& (#[trigger] self.sessions[i]).wf()
                &&& !(self.sessions[i].state is Closed)
                &&& self.sessions[i].id < self.next_id
            }
        &&& forall|i: int, j: int|
            0 <= i < j < self.sessions.len() ==> (#[trigger] self.sessions[i]).id < (
            #[trigger] self.sessions[j]).id
    }

    /// Whether the table holds a session with the token `id`.
    pub open spec fn tracks(self, id: nat) -> bool {
        exists|i: int| 0 <= i < self.sessions.len() && (#[trigger] self.sessions[i]).id == id
    }

    /// A position at which the session with the token `id` stands, if the
    /// table holds one.
    pub open spec fn slot(self, id: nat) -> int {
        choose|i: int| 0 <= i < self.sessions.len() && (#[trigger] self.sessions[i]).id == id
    }

    /// The session with the token `id`, if the table holds one.
    pub open spec fn session(self, id: nat) -> Option<SessionView> {
        if self.tracks(id) {
            Some(self.sessions[self.slot(id)])
        } else {
            None
        }
    }

    /// The table in which `session` has taken the place of the session
    /// with the same token, or has left it if it is `Closed`. The same
    /// table if it holds no session with that token.
    pub open spec fn put(self, session: SessionView) -> ManagerView {
        if !self.tracks(session.id) {
            self
        } else if session.state is Closed {
            ManagerView { sessions: self.sessions.remove(self.slot(session.id)), ..self }
        } else {
            ManagerView { sessions: self.sessions.update(self.slot(session.id), session), ..self }
        }
    }

    /// The table after a client connected at time `now`.
    pub open spec fn connected(self, now: nat) -> ManagerView {
        ManagerView {
            sessions: self.sessions.push(SessionView::opened(self.next_id, now)),
            next_id: self.next_id + 1,
            ..self
        }
    }

    /// The table after an idle check of every session at time `now`.
    pub open spec fn swept(self, now: nat) -> ManagerView {
        ManagerView { sessions: sweep(self.sessions, now, self.idle_timeout), ..self }
    }
}

/// The sessions that stay in the table after an idle check of each of
/// `sessions` at time `now`: those that are not `Closed` by it, in the
/// same order, the idle ones among them `Closing`.
pub open spec fn sweep(sessions: Seq<SessionView>, now: nat, timeout: nat) -> Seq<SessionView>
    decreases sessions.len(),
{
    if sessions.len() == 0 {
        Seq::empty()
    } else {
        let checked = sessions.last().after_expiry(now, timeout);
        if checked.state is Closed {
            sweep(sessions.drop_last(), now, timeout)
        } else {
            sweep(sessions.drop_last(), now, timeout).push(checked)
        }
    }
}

/// The tokens of those of `sessions` that are idle at time `now`, in the
/// same order.
pub open spec fn idle_ids(sessions: Seq<SessionView>, now: nat, timeout: nat) -> Seq<u64>
    decreases sessions.len(),
{
    if sessions.len() == 0 {
        Seq::empty()
    } else if sessions.last().idle(now, timeout) {
        idle_ids(sessions.drop_last(), now, timeout).push(sessions.last().id as u64)
    } else {
        idle_ids(sessions.drop_last(), now, timeout)
    }
}

/// In a well-formed table a token stands at one position only.
pub proof fn lemma_session_slot(m: ManagerView, i: int)
    requires
        m.wf(),
        0 <= i < m.sessions.len(),
    ensures
        m.tracks(m.sessions[i].id),
        m.slot(m.sessions[i].id) == i,
        m.session(m.sessions[i].id) == Some(m.sessions[i]),
{
    let j = m.slot(m.sessions[i].id);
    assert(j == i);
}

/// Putting a well-formed session in the place of the one with the same
/// token keeps the table well-formed. The session is then what the table
/// holds under that token, unless it is `Closed`: then the table holds
/// nothing under it.
pub proof fn lemma_put(m: ManagerView, s: SessionView)
    requires
        m.wf(),
        m.tracks(s.id),
        s.wf(),
    ensures
        m.put(s).wf(),
        m.put(s).next_id == m.next_id,
        m.put(s).idle_timeout == m.idle_timeout,
        m.put(s).session(s.id) == if s.state is Closed {
            None
        } else {
            Some(s)
        },
{
    let i = m.slot(s.id);
    if !(s.state is Closed) {
        assert(m.put(s).sessions[i] == s);
    }
}

/// Putting a session in the table leaves every session with another token
/// as it was: what happens to one session never reaches another.
pub proof fn lemma_put_frame(m: ManagerView, s: SessionView, other: nat)
    requires
        m.wf(),
        s.wf(),
        other != s.id,
    ensures
        m.put(s).session(other) == m.session(other),
{
    if m.tracks(s.id) {
        lemma_put(m, s);
        let i = m.slot(s.id);
        let after = m.put(s);
        if m.tracks(other) {
            let j = m.slot(other);
            let moved = if s.state is Closed && j > i { j - 1 } else { j };
            lemma_session_slot(after, moved);
        } else if after.tracks(other) {
            let k = after.slot(other);
            let origin = if s.state is Closed && k >= i { k + 1 } else { k };
            assert(m.sessions[origin].id == other);
        }
    }
}

/// Putting back the session that the table already holds changes nothing.
pub proof fn lemma_put_same(m: ManagerView, id: nat)
    requires
        m.wf(),
        m.tracks(id),
    ensures
        m.put(m.session(id)->Some_0) == m,
{
    let i = m.slot(id);
    assert(m.sessions.update(i, m.sessions[i]) =~= m.sessions);
}

/// Of two successive states of one session only the second shows in the
/// table.
pub proof fn lemma_put_twice(m: ManagerView, first: SessionView, second: SessionView)
    requires
        m.wf(),
        m.tracks(first.id),
        first.wf(),
        !(first.state is Closed),
        second.id == first.id,
    ensures
        m.put(first).put(second) == m.put(second),
{
    let i = m.slot(first.id);
    lemma_put(m, first);
    let between = m.put(first);
    if second.state is Closed {
        assert(between.sessions.remove(i) =~= m.sessions.remove(i));
    } else {
        assert(between.sessions.update(i, second) =~= m.sessions.update(i, second));
    }
}

/// A new connection receives a token that no live session has, and leaves
/// the live sessions as they were.
pub proof fn lemma_connected(m: ManagerView, now: nat, other: nat)
    requires
        m.wf(),
    ensures
        m.connected(now).wf(),
        !m.tracks(m.next_id),
        m.connected(now).session(m.next_id) == Some(SessionView::opened(m.next_id, now)),
        other != m.next_id ==> m.connected(now).session(other) == m.session(other),
{
    let after = m.connected(now);
    let n = m.sessions.len() as int;
    assert forall|i: int| 0 <= i < after.sessions.len() implies {
        &&& (#[trigger] after.sessions[i]).wf()
        &&& !(after.sessions[i].state is Closed)
        &&& after.sessions[i].id < after.next_id
    } by {
        if i < n {
            assert(after.sessions[i] == m.sessions[i]);
        }
    }
    lemma_session_slot(after, n);
    if other != m.next_id {
        if m.tracks(other) {
            lemma_session_slot(after, m.slot(other));
        } else if after.tracks(other) {
            assert(m.sessions[after.slot(other)].id == other);
        }
    }
}

/// What an idle check makes of the session `s`, as the table sees it:
/// nothing if the check closes the session.
pub open spec fn checked(s: SessionView, now: nat, timeout: nat) -> Option<SessionView> {
    if s.after_expiry(now, timeout).state is Closed {
        None
    } else {
        Some(s.after_expiry(now, timeout))
    }
}

/// Whether `kept` is what an idle check makes of the session at
/// position `j` of `sessions`.
spec fn came_from(sessions: Seq<SessionView>, j: int, kept: SessionView, now: nat, timeout: nat)
    -> bool {
    0 <= j < sessions.len() && checked(sessions[j], now, timeout) == Some(kept)
}

/// Whether `kept` is what an idle check makes of one of `sessions`.
spec fn has_origin(sessions: Seq<SessionView>, kept: SessionView, now: nat, timeout: nat) -> bool {
    exists|j: int| #[trigger] came_from(sessions, j, kept, now, timeout)
}

/// Whether the tokens of `sessions` increase along the sequence.
spec fn ordered(sessions: Seq<SessionView>) -> bool {
    forall|i: int, j: int|
        0 <= i < j < sessions.len() ==> (#[trigger] sessions[i]).id < (#[trigger] sessions[j]).id
}

/// Whether every one of `sessions` is well-formed and not `Closed`.
spec fn live(sessions: Seq<SessionView>) -> bool {
    forall|i: int|
        0 <= i < sessions.len() ==> (#[trigger] sessions[i]).wf() && !(sessions[i].state
            is Closed)
}

/// The sessions that an idle check keeps are exactly the checked sessions
/// that are not `Closed`, in their old order.
proof fn lemma_sweep(sessions: Seq<SessionView>, now: nat, timeout: nat)
    requires
        ordered(sessions),
        live(sessions),
    ensures
        ordered(sweep(sessions, now, timeout)),
        live(sweep(sessions, now, timeout)),
        forall|k: int|
            0 <= k < sweep(sessions, now, timeout).len() ==> #[trigger] has_origin(
                sessions,
                sweep(sessions, now, timeout)[k],
                now,
                timeout,
            ),
        forall|j: int|
            0 <= j < sessions.len() && checked(#[trigger] sessions[j], now, timeout) is Some
                ==> sweep(sessions, now, timeout).contains(sessions[j].after_expiry(now, timeout)),
    decreases sessions.len(),
{
    let after = sweep(sessions, now, timeout);
    if sessions.len() > 0 {
        let front = sessions.drop_last();
        let n = front.len() as int;
        let last = sessions[n];
        let kept = sweep(front, now, timeout);
        assert(ordered(front) && live(front)) by {
            assert forall|i: int| 0 <= i < n implies front[i] == sessions[i] by {}
        }
        lemma_sweep(front, now, timeout);
        assert forall|k: int| 0 <= k < kept.len() implies (#[trigger] kept[k]).id < last.id by {
            assert(has_origin(front, kept[k], now, timeout));
            let j = choose|j: int| #[trigger] came_from(front, j, kept[k], now, timeout);
            assert(kept[k].id == sessions[j].id);
        }
        assert forall|k: int| 0 <= k < after.len() implies #[trigger] has_origin(
            sessions,
            after[k],
            now,
            timeout,
        ) by {
            if k < kept.len() {
                assert(has_origin(front, kept[k], now, timeout));
                let j = choose|j: int| #[trigger] came_from(front, j, kept[k], now, timeout);
                assert(came_from(sessions, j, after[k], now, timeout));
            } else {
                assert(came_from(sessions, n, after[k], now, timeout));
            }
        }
        assert forall|j: int|
            0 <= j < sessions.len() && checked(
                #[trigger] sessions[j],
                now,
                timeout,
            ) is Some implies after.contains(sessions[j].after_expiry(now, timeout)) by {
            if j < n {
                assert(front[j] == sessions[j]);
                let k = kept.index_of(front[j].after_expiry(now, timeout));
                assert(after[k] == kept[k]);
            } else {
                assert(after[kept.len() as int] == sessions[j].after_expiry(now, timeout));
            }
        }
        assert(ordered(after) && live(after)) by {
            assert forall|k: int| 0 <= k < kept.len() implies after[k] == kept[k] by {}
        }
    }
}

/// An idle check keeps the table well-formed and treats every session on
/// its own: under each token the table then holds what the check makes of
/// the session that it held before, whatever the other sessions are.
pub proof fn lemma_swept(m: ManagerView, now: nat, id: nat)
    requires
        m.wf(),
    ensures
        m.swept(now).wf(),
        m.swept(now).session(id) == match m.session(id) {
            Some(s) => checked(s, now, m.idle_timeout),
            None => None,
        },
{
    let timeout = m.idle_timeout;
    let after = m.swept(now);
    lemma_sweep(m.sessions, now, timeout);
    assert(after.wf()) by {
        assert forall|k: int| 0 <= k < after.sessions.len() implies {
            &&& (#[trigger] after.sessions[k]).wf()
            &&& !(after.sessions[k].state is Closed)
            &&& after.sessions[k].id < after.next_id
        } by {
            assert(has_origin(m.sessions, after.sessions[k], now, timeout));
            let j = choose|j: int| #[trigger]
                came_from(m.sessions, j, after.sessions[k], now, timeout);
            assert(after.sessions[k].id == m.sessions[j].id);
        }
    }
    if after.tracks(id) {
        let k = after.slot(id);
        assert(has_origin(m.sessions, after.sessions[k], now, timeout));
        let j = choose|j: int| #[trigger]
            came_from(m.sessions, j, after.sessions[k], now, timeout);
        lemma_session_slot(m, j);
    } else if m.tracks(id) {
        let j = m.slot(id);
        if checked(m.sessions[j], now, timeout) is Some {
            let k = after.sessions.index_of(m.sessions[j].after_expiry(now, timeout));
            assert(after.sessions[k].id == id);
        }
    }
}

/// The table of live sessions.
pub struct SessionManager {
    sessions: Vec<Session>,
    next_id: u64,
    idle_timeout: u64,
}

impl View for SessionManager {
    type V = ManagerView;

    closed spec fn view(&self) -> ManagerView {
        ManagerView {
            sessions: session_views(self.sessions@),
            next_id: self.next_id as nat,
            idle_timeout: self.idle_timeout as nat,
        }
    }
}

impl SessionManager {
    /// A manager without sessions that shuts a session down once its
    /// client has been silent for `idle_timeout`.
    pub fn new(idle_timeout: u64) -> (manager: SessionManager)
        ensures
            manager@ == ManagerView::empty(idle_timeout as nat),
            manager@.wf(),
    {
        let manager = SessionManager { sessions: Vec::new(), next_id: 1, idle_timeout };
        assert(manager@.sessions =~= Seq::empty());
        manager
    }

    /// The position of the session with the token `id`.
    fn locate(&self, id: u64) -> (r: Option<usize>)
        requires
            self@.wf(),
        ensures
            match r {
                Some(i) => self@.tracks(id as nat) && self@.slot(id as nat) == i && i
                    < self.sessions.len(),
                None => !self@.tracks(id as nat),
            },
    {
        let mut i: usize = 0;
        while i < self.sessions.len()
            invariant
                self@.wf(),
                i <= self.sessions.len(),
                forall|j: int| 0 <= j < i ==> self@.sessions[j].id != id,
            decreases self.sessions.len() - i,
        {
            if self.sessions[i].id() == id {
                proof {
                    assert(self@.sessions[i as int].id == id);
                    lemma_session_slot(self@, i as int);
                }
                return Some(i);
            }
            i = i + 1;
        }
        None
    }

    /// Takes the handshake `request` that arrived for the session `id` at
    /// time `now`.
    pub fn handshake(&mut self, id: u64, request: &HandshakeRequest, now: u64) -> (answer: Result<
        ServerInfo,
        ServiceError,
    >)
        requires
            old(self)@.wf(),
        ensures
            final(self)@.wf(),
            match old(self)@.session(id as nat) {
                Some(session) => {
                    &&& final(self)@ == old(self)@.put(
                        session.after_handshake(
                            request.protocol_version@,
                            request.capabilities,
                            now as nat,
                        ),
                    )
                    &&& handshake_view(answer) == session.handshake_answer(
                        request.protocol_version@,
                    )
                },
                None => final(self)@ == old(self)@ && handshake_view(answer) == Err::<
                    ServerInfoView,
                    ErrorView,
                >(unknown_session()),
            },
    {
        match self.locate(id) {
            Some(i) => {
                let answer = self.sessions[i].handshake(request, now);
                proof {
                    let session = self.sessions@[i as int]@;
                    assert(old(self)@.sessions[i as int] == old(self).sessions@[i as int]@);
                    assert(self@.sessions =~= old(self)@.sessions.update(i as int, session));
                    lemma_put(old(self)@, session);
                }
                answer
            },
            None => Err(refuse("unknown session")),
        }
    }

    /// Creates the session for a client that connected at time `now` and
    /// returns its token.
    pub fn connect(&mut self, now: u64) -> (id: u64)
        requires
            old(self)@.wf(),
            old(self)@.next_id < u64::MAX,
        ensures
            final(self)@.wf(),
            final(self)@ == old(self)@.connected(now as nat),
            id == old(self)@.next_id,
    {
        let id = self.next_id;
        self.sessions.push(Session::open(id, now));
        self.next_id = id + 1;
        proof {
            assert(self@.sessions =~= old(self)@.sessions.push(
                SessionView::opened(id as nat, now as nat),
            ));
            lemma_connected(old(self)@, now as nat, 0);
        }
        id
    }

    /// The token that the next session receives.
    pub fn next_id(&self) -> (id: u64)
        ensures
            id == self@.next_id,
    {
        self.next_id
    }

    /// The number of live sessions.
    pub fn len(&self) -> (n: usize)
        ensures
            n == self@.sessions.len(),
    {
        self.sessions.len()
    }

    /// How long a client may stay silent before its session is shut down.
    pub fn idle_timeout(&self) -> (timeout: u64)
        ensures
            timeout == self@.idle_timeout,
    {
        self.idle_timeout
    }

    /// The state of the session `id`; `None` if the table holds no such
    /// session, because it never did or because the session is closed.
    pub fn state(&self, id: u64) -> (state: Option<SessionState>)
        requires
            self@.wf(),
        ensures
            match self@.session(id as nat) {
                Some(session) => state == Some(session.state),
                None => state is None,
            },
    {
        match self.locate(id) {
            Some(i) => {
                assert(self@.sessions[i as int] == self.sessions@[i as int]@);
                Some(self.sessions[i].state())
            },
            None => None,
        }
    }

    /// Drops the session at position `i` from the table if it is `Closed`.
    fn settle(&mut self, i: usize, Ghost(before): Ghost<ManagerView>)
        requires
            before.wf(),
            i < old(self).sessions.len(),
            old(self).sessions@[i as int]@.wf(),
            before.sessions.len() == old(self).sessions.len(),
            before.slot(old(self).sessions@[i as int]@.id) == i,
            before.tracks(old(self).sessions@[i as int]@.id),
            old(self)@ == (ManagerView {
                sessions: before.sessions.update(i as int, old(self).sessions@[i as int]@),
                ..before
            }),
        ensures
            final(self)@ == before.put(old(self).sessions@[i as int]@),
            final(self)@.wf(),
    {
        let ghost session = self.sessions@[i as int]@;
        match self.sessions[i].state() {
            SessionState::Closed => {
                self.sessions.remove(i);
                assert forall|k: int| 0 <= k < self@.sessions.len() implies self@.sessions[k]
                    == before.sessions.remove(i as int)[k] by {
                    let k0 = if k < i { k } else { k + 1 };
                    assert(self.sessions@[k] == old(self).sessions@[k0]);
                    assert(old(self)@.sessions[k0] == old(self).sessions@[k0]@);
                }
                assert(self@.sessions =~= before.sessions.remove(i as int));
            },
            _ => {},
        }
        proof {
            lemma_put(before, session);
        }
    }

    /// Takes a request with the correlation token `token` that arrived
    /// for the session `id` at time `now`.
    ///
    /// Only an `Active` session takes it. The refusal of any other
    /// session, and of a token that names no session, changes nothing.
    pub fn accept(&mut self, id: u64, token: u64, now: u64) -> (r: Result<(), ServiceError>)
        requires
            old(self)@.wf(),
        ensures
            final(self)@.wf(),
            match old(self)@.session(id as nat) {
                Some(session) => {
                    &&& final(self)@ == old(self)@.put(session.after_accept(token, now as nat))
                    &&& match r {
                        Ok(_) => session.refusal() is None,
                        Err(e) => session.refusal() == Some(e@),
                    }
                },
                None => final(self)@ == old(self)@ && r is Err && r->Err_0@ == unknown_session(),
            },
    {
        match self.locate(id) {
            Some(i) => {
                let r = self.sessions[i].accept(token, now);
                proof {
                    let session = self.sessions@[i as int]@;
                    assert(old(self)@.sessions[i as int] == old(self).sessions@[i as int]@);
                    assert(self@.sessions =~= old(self)@.sessions.update(i as int, session));
                    lemma_put(old(self)@, session);
                }
                r
            },
            None => Err(refuse("unknown session")),
        }
    }

    /// Records that the request `token` of the session `id` has finished
    /// and says what to do with its result.
    ///
    /// The result is delivered only to the session that issued the
    /// request, and only while that session is `Active`. A `Closing`
    /// session whose last request in flight has finished is dropped from
    /// the table.
    pub fn finish(&mut self, id: u64, token: u64) -> (delivery: Delivery)
        requires
            old(self)@.wf(),
        ensures
            final(self)@.wf(),
            match old(self)@.session(id as nat) {
                Some(session) => final(self)@ == old(self)@.put(session.after_finish(token))
                    && delivery == session.delivery(token),
                None => final(self)@ == old(self)@ && delivery == Delivery::Discard,
            },
    {
        match self.locate(id) {
            Some(i) => {
                let delivery = self.sessions[i].finish(token);
                proof {
                    let session = self.sessions@[i as int]@;
                    assert(old(self)@.sessions[i as int] == old(self).sessions@[i as int]@);
                    assert(self@.sessions =~= old(self)@.sessions.update(i as int, session));
                }
                self.settle(i, Ghost(old(self)@));
                delivery
            },
            None => Delivery::Discard,
        }
    }

    /// Records that the transport of the session `id` signalled shutdown.
    ///
    /// The session is `Closing` while requests are in flight; with none
    /// in flight it is dropped from the table at once.
    pub fn shutdown(&mut self, id: u64)
        requires
            old(self)@.wf(),
        ensures
            final(self)@.wf(),
            match old(self)@.session(id as nat) {
                Some(session) => final(self)@ == old(self)@.put(session.after_shutdown()),
                None => final(self)@ == old(self)@,
            },
    {
        match self.locate(id) {
            Some(i) => {
                self.sessions[i].shutdown();
                proof {
                    let session = self.sessions@[i as int]@;
                    assert(old(self)@.sessions[i as int] == old(self).sessions@[i as int]@);
                    assert(self@.sessions =~= old(self)@.sessions.update(i as int, session));
                }
                self.settle(i, Ghost(old(self)@));
            },
            None => {},
        }
    }

    /// Checks every session for idleness at time `now` and shuts the idle
    /// ones down; returns their tokens.
    ///
    /// An idle session with requests in flight stays in the table as
    /// `Closing`; one with none is dropped from it.
    pub fn expire_idle(&mut self, now: u64) -> (expired: Vec<u64>)
        requires
            old(self)@.wf(),
        ensures
            final(self)@.wf(),
            final(self)@ == old(self)@.swept(now as nat),
            expired@ == idle_ids(old(self)@.sessions, now as nat, old(self)@.idle_timeout),
    {
        let ghost before = self@;
        let ghost timeout = before.idle_timeout;
        let ghost mut k: int = 0;
        let mut expired: Vec<u64> = Vec::new();
        let mut i: usize = 0;
        proof {
            assert(before.sessions.subrange(0, 0) =~= Seq::empty());
            assert(self@.sessions.subrange(0, 0) =~= Seq::empty());
            assert(self@.sessions.subrange(0, self@.sessions.len() as int) =~= self@.sessions);
        }
        while i < self.sessions.len()
            invariant
                before.wf(),
                timeout == before.idle_timeout,
                self@.next_id == before.next_id,
                self@.idle_timeout == before.idle_timeout,
                0 <= k <= before.sessions.len(),
                i <= self.sessions.len(),
                self.sessions.len() - i == before.sessions.len() - k,
                self@.sessions.subrange(0, i as int) == sweep(
                    before.sessions.subrange(0, k),
                    now as nat,
                    timeout,
                ),
                self@.sessions.subrange(i as int, self@.sessions.len() as int)
                    == before.sessions.subrange(k, before.sessions.len() as int),
                expired@ == idle_ids(before.sessions.subrange(0, k), now as nat, timeout),
            decreases self.sessions.len() - i,
        {
            let ghost entry = self@;
            let ghost prefix = before.sessions.subrange(0, k);
            let ghost next = before.sessions.subrange(0, k + 1);
            proof {
                assert(entry.sessions[i as int] == entry.sessions.subrange(
                    i as int,
                    entry.sessions.len() as int,
                )[0]);
                assert(entry.sessions[i as int] == before.sessions[k]);
                assert(entry.sessions[i as int] == self.sessions@[i as int]@);
                assert(next.drop_last() =~= prefix);
                assert(next.last() == before.sessions[k]);
            }
            let was_idle = self.sessions[i].expire(now, self.idle_timeout);
            let ghost session = self.sessions@[i as int]@;
            proof {
                assert(self@.sessions =~= entry.sessions.update(i as int, session));
            }
            if was_idle {
                expired.push(self.sessions[i].id());
            }
            match self.sessions[i].state() {
                SessionState::Closed => {
                    self.sessions.remove(i);
                    proof {
                        assert forall|j: int| 0 <= j < self@.sessions.len() implies
                            self@.sessions[j] == entry.sessions.remove(i as int)[j] by {
                            let j0 = if j < i { j } else { j + 1 };
                            assert(self@.sessions[j] == self.sessions@[j]@);
                        }
                        assert(self@.sessions =~= entry.sessions.remove(i as int));
                        assert(self@.sessions.subrange(0, i as int) =~= entry.sessions.subrange(
                            0,
                            i as int,
                        ));
                        assert(self@.sessions.subrange(i as int, self@.sessions.len() as int)
                            =~= before.sessions.subrange(k + 1, before.sessions.len() as int))
                            by {
                            assert forall|j: int| i <= j < self@.sessions.len() implies (
                            #[trigger] self@.sessions[j]) == before.sessions[k + 1 + (j - i)] by {
                                assert(entry.sessions.subrange(
                                    i as int,
                                    entry.sessions.len() as int,
                                )[j - i + 1] == before.sessions[k + 1 + (j - i)]);
                            }
                        }
                    }
                },
                _ => {
                    proof {
                        assert(self@.sessions.subrange(0, i + 1) =~= entry.sessions.subrange(
                            0,
                            i as int,
                        ).push(session));
                        assert(self@.sessions.subrange(i + 1, self@.sessions.len() as int)
                            =~= before.sessions.subrange(k + 1, before.sessions.len() as int))
                            by {
                            assert forall|j: int| i + 1 <= j < self@.sessions.len() implies (
                            #[trigger] self@.sessions[j]) == before.sessions[k + (j - i)] by {
                                assert(entry.sessions.subrange(
                                    i as int,
                                    entry.sessions.len() as int,
                                )[j - i] == before.sessions[k + (j - i)]);
                            }
                        }
                    }
                    i = i + 1;
                },
            }
            proof {
                k = k + 1;
            }
        }
        proof {
            assert(before.sessions.subrange(0, k) =~= before.sessions);
            assert(self@.sessions.subrange(0, i as int) =~= self@.sessions);
            lemma_swept(before, now as nat, 0);
        }
        expired
    }
}

} // verus!
