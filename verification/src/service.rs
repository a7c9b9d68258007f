//! The service as a whole: one task store and one operation table, shared
//! by all sessions.
//!
//! Every entry point takes the service by exclusive reference. Whoever
//! serves several clients at once puts the service behind one lock, and
//! each call then sees the store and the sessions between two complete
//! changes, never in the middle of one.

use vstd::prelude::*;
use crate::error::{ErrorView, ServiceError};
use crate::manager::{
    idle_ids, lemma_put, lemma_put_same, lemma_put_twice, unknown_session, ManagerView,
    SessionManager,
};
use crate::params::entries;
use crate::protocol::{handshake_view, HandshakeRequest, ServerInfo, ServerInfoView};
use crate::registry::{call_effect, call_outcome, well_declared, Registry};
use crate::request::{answer_view, Envelope, EnvelopeView};
use crate::session::{lemma_accepted_is_in_flight, Delivery};
use crate::store::{StoreView, TaskStore};
use crate::tool::ToolView;

verus! {

/// The answer to one invocation, to be sent on the stream of the session
/// that issued it.
#[derive(Debug)]
pub struct Response {
    /// The correlation token of the request that is answered.
    pub correlation_token: u64,
    /// The envelope on success, the failure otherwise; never both.
    pub outcome: Result<Envelope, ServiceError>,
}

/// The state of a service as plain mathematical values.
pub struct ServiceView {
    pub store: StoreView,
    pub tools: Seq<ToolView>,
    pub sessions: ManagerView,
}

impl ServiceView {
    /// Store, operation table and session table are each well-formed.
    pub open spec fn wf(self) -> bool {
        &&& self.store.wf()
        &&& well_declared(self.tools)
        &&& self.sessions.wf()
    }
}

/// The store, the operation table and the sessions of one server.
pub struct Service {
    store: TaskStore,
    registry: Registry,
    sessions: SessionManager,
}

impl View for Service {
    type V = ServiceView;

    closed spec fn view(&self) -> ServiceView {
        ServiceView { store: self.store@, tools: self.registry@, sessions: self.sessions@ }
    }
}

impl Service {
    /// A service with an empty store, the standard operation table and no
    /// session, which shuts a session down once its client has been
    /// silent for `idle_timeout`.
    pub fn new(idle_timeout: u64) -> (service: Service)
        ensures
            service@.wf(),
            service@.store == StoreView::empty(),
            service@.tools == crate::registry::standard_tools(),
            service@.sessions == ManagerView::empty(idle_timeout as nat),
    {
        Service {
            store: TaskStore::new(),
            registry: Registry::new(),
            sessions: SessionManager::new(idle_timeout),
        }
    }

    /// The task store, for reading.
    pub fn store(&self) -> (store: &TaskStore)
        ensures
            store@ == self@.store,
    {
        &self.store
    }

    /// The operation table, for advertising it.
    pub fn registry(&self) -> (registry: &Registry)
        ensures
            registry@ == self@.tools,
    {
        &self.registry
    }

    /// The session table, for reading.
    pub fn sessions(&self) -> (sessions: &SessionManager)
        ensures
            sessions@ == self@.sessions,
    {
        &self.sessions
    }

    /// Creates the session for a client that connected at time `now` and
    /// returns its token. Store and operation table are not touched.
    pub fn connect(&mut self, now: u64) -> (id: u64)
        requires
            old(self)@.wf(),
            old(self)@.sessions.next_id < u64::MAX,
        ensures
            final(self)@.wf(),
            final(self)@ == (ServiceView {
                sessions: old(self)@.sessions.connected(now as nat),
                ..old(self)@
            }),
            id == old(self)@.sessions.next_id,
    {
        self.sessions.connect(now)
    }

    /// Takes the handshake `request` that arrived for the session
    /// `session` at time `now`. Store and operation table are not touched.
    pub fn handshake(&mut self, session: u64, request: &HandshakeRequest, now: u64) -> (answer:
        Result<ServerInfo, ServiceError>)
        requires
            old(self)@.wf(),
        ensures
            final(self)@.wf(),
            final(self)@.store == old(self)@.store,
            final(self)@.tools == old(self)@.tools,
            match old(self)@.sessions.session(session as nat) {
                Some(s) => {
                    &&& final(self)@.sessions == old(self)@.sessions.put(
                        s.after_handshake(
                            request.protocol_version@,
                            request.capabilities,
                            now as nat,
                        ),
                    )
                    &&& handshake_view(answer) == s.handshake_answer(request.protocol_version@)
                },
                None => final(self)@.sessions == old(self)@.sessions && handshake_view(answer)
                    == Err::<ServerInfoView, ErrorView>(unknown_session()),
            },
    {
        self.sessions.handshake(session, request, now)
    }

    /// Serves one invocation: the operation `name` with the parameters
    /// `doc`, issued by the session `session` at time `now` under the
    /// correlation token `token`.
    ///
    /// The response carries the token of the request. A session that is
    /// not `Active`, or that the table does not hold, gets a protocol
    /// error, and neither store nor sessions change. Otherwise the
    /// operation table dispatches the invocation; a failure there is the
    /// answer to this one request and leaves the session `Active`.
    pub fn invoke(
        &mut self,
        session: u64,
        name: &str,
        doc: &serde_json::Map<String, serde_json::Value>,
        token: u64,
        now: u64,
    ) -> (response: Response)
        requires
            old(self)@.wf(),
            old(self)@.store.next_id < u64::MAX,
        ensures
            final(self)@.wf(),
            final(self)@.tools == old(self)@.tools,
            response.correlation_token == token,
            match old(self)@.sessions.session(session as nat) {
                None => final(self)@ == old(self)@ && answer_view(response.outcome) == Err::<
                    EnvelopeView,
                    ErrorView,
                >(unknown_session()),
                Some(s) => match s.refusal() {
                    Some(refusal) => final(self)@ == old(self)@ && answer_view(response.outcome)
                        == Err::<EnvelopeView, ErrorView>(refusal),
                    None => {
                        &&& final(self)@.store == call_effect(
                            old(self)@.tools,
                            old(self)@.store,
                            name@,
                            entries(*doc),
                        )
                        &&& answer_view(response.outcome) == call_outcome(
                            old(self)@.tools,
                            old(self)@.store,
                            name@,
                            entries(*doc),
                        )
                        &&& final(self)@.sessions == old(self)@.sessions.put(
                            s.after_accept(token, now as nat).after_finish(token),
                        )
                        &&& s.after_accept(token, now as nat).after_finish(token).state is Active
                    },
                },
            },
    {
        let ghost before = self@.sessions;
        match self.sessions.accept(session, token, now) {
            Err(error) => {
                proof {
                    if before.tracks(session as nat) {
                        lemma_put_same(before, session as nat);
                    }
                }
                Response { correlation_token: token, outcome: Err(error) }
            },
            Ok(_) => {
                let ghost s = before.session(session as nat)->Some_0;
                let ghost accepted = s.after_accept(token, now as nat);
                proof {
                    lemma_put(before, accepted);
                    lemma_accepted_is_in_flight(s, token, now as nat);
                    lemma_put_twice(before, accepted, accepted.after_finish(token));
                }
                let outcome = self.registry.call(&mut self.store, name, doc);
                let delivery = self.sessions.finish(session, token);
                assert(delivery == Delivery::Deliver);
                Response { correlation_token: token, outcome }
            },
        }
    }

    /// Records that the transport of the session `session` signalled
    /// shutdown. The store outlives the session: it is not touched.
    pub fn disconnect(&mut self, session: u64)
        requires
            old(self)@.wf(),
        ensures
            final(self)@.wf(),
            final(self)@.store == old(self)@.store,
            final(self)@.tools == old(self)@.tools,
            match old(self)@.sessions.session(session as nat) {
                Some(s) => final(self)@.sessions == old(self)@.sessions.put(s.after_shutdown()),
                None => final(self)@.sessions == old(self)@.sessions,
            },
    {
        self.sessions.shutdown(session);
    }

    /// Shuts down the sessions that are idle at time `now` and returns
    /// their tokens. The store is not touched.
    pub fn expire_idle(&mut self, now: u64) -> (expired: Vec<u64>)
        requires
            old(self)@.wf(),
        ensures
            final(self)@.wf(),
            final(self)@ == (ServiceView {
                sessions: old(self)@.sessions.swept(now as nat),
                ..old(self)@
            }),
            expired@ == idle_ids(
                old(self)@.sessions.sessions,
                now as nat,
                old(self)@.sessions.idle_timeout,
            ),
    {
        self.sessions.expire_idle(now)
    }
}

} // verus!
