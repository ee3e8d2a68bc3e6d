//! The protocol lifecycle state machine.
//!
//! The machine owns the connection state, validates every inbound message
//! against it, transitions on lifecycle events and routes valid requests to
//! the handlers. `spec_step` is the full transition table at the ghost
//! level; `Machine::handle` is the executable machine, whose contract pins
//! its new state and its action to exactly that table.

use vstd::prelude::*;

use crate::capabilities::{
    initialize_result, spec_initialize_result, spec_negotiated, Capabilities, InitializeResult,
    InitializeResultV,
};
use crate::handlers::{
    completion_items, hover_content, items_view, resolve_item, spec_completion_items,
    spec_hover_content, spec_resolved, HoverContent, HoverContentV,
};
use crate::protocol::{
    CompletionItem, ErrorKind, ErrorObject, ErrorObjectV, ItemV, Method, Request, RequestV,
};

verus! {

/// How far the connection has progressed through handshake, operation and
/// teardown.
#[derive(Clone, Copy, Debug, PartialEq, Eq, Structural)]
pub enum ServerState {
    Uninitialized,
    Initializing,
    Initialized,
    ShuttingDown,
    Exited,
}

/// The payload of a successful call.
#[derive(Debug, PartialEq, Eq)]
pub enum Payload {
    Initialize(InitializeResult),
    Shutdown,
    Completion(Vec<CompletionItem>),
    Resolved(CompletionItem),
    Hover(Option<HoverContent>),
}

/// Ghost view of a `Payload`.
#[verifier::ext_equal]
pub enum PayloadV {
    Initialize(InitializeResultV),
    Shutdown,
    Completion(Seq<ItemV>),
    Resolved(ItemV),
    Hover(Option<HoverContentV>),
}

impl Payload {
    pub open spec fn view(self) -> PayloadV {
        match self {
            Payload::Initialize(r) => PayloadV::Initialize(r.view()),
            Payload::Shutdown => PayloadV::Shutdown,
            Payload::Completion(v) => PayloadV::Completion(items_view(v@)),
            Payload::Resolved(i) => PayloadV::Resolved(i.view()),
            Payload::Hover(h) => PayloadV::Hover(
                match h {
                    Some(c) => Some(c.view()),
                    None => None,
                },
            ),
        }
    }

    /// A copy with the same ghost view.
    pub fn duplicate(&self) -> (r: Payload)
        ensures
            r.view() == self.view(),
    {
        let r = match self {
            Payload::Initialize(res) => Payload::Initialize(res.duplicate()),
            Payload::Shutdown => Payload::Shutdown,
            Payload::Completion(v) => Payload::Completion(duplicate_items(v)),
            Payload::Resolved(i) => Payload::Resolved(i.duplicate()),
            Payload::Hover(h) => Payload::Hover(
                match h {
                    Some(c) => Some(c.duplicate()),
                    None => None,
                },
            ),
        };
        proof {
            assert(r.view() =~~= self.view());
        }
        r
    }
}

/// Element-wise copy of a completion list.
fn duplicate_items(v: &Vec<CompletionItem>) -> (r: Vec<CompletionItem>)
    ensures
        r@ == v@,
{
    let mut r: Vec<CompletionItem> = Vec::new();
    let mut i: usize = 0;
    while i < v.len()
        invariant
            i <= v@.len(),
            r@ == v@.subrange(0, i as int),
        decreases v@.len() - i,
    {
        let item = v[i].duplicate();
        r.push(item);
        proof {
            assert(r@ =~= v@.subrange(0, i + 1 as int));
        }
        i = i + 1;
    }
    proof {
        assert(r@ =~= v@);
    }
    r
}

/// The outbound half of one call: a matching identifier and exactly one of
/// a result payload or an error object.
#[derive(Debug, PartialEq, Eq)]
pub struct Response {
    pub id: u64,
    pub result: Result<Payload, ErrorObject>,
}

/// Ghost view of a `Response`.
#[verifier::ext_equal]
pub struct ResponseV {
    pub id: u64,
    pub result: Result<PayloadV, ErrorObjectV>,
}

impl Response {
    pub open spec fn view(self) -> ResponseV {
        ResponseV {
            id: self.id,
            result: match self.result {
                Ok(p) => Ok(p.view()),
                Err(e) => Err(e.view()),
            },
        }
    }

    /// A copy with the same ghost view.
    pub fn duplicate(&self) -> (r: Response)
        ensures
            r.view() == self.view(),
    {
        let r = Response {
            id: self.id,
            result: match &self.result {
                Ok(p) => Ok(p.duplicate()),
                Err(e) => Err(e.duplicate()),
            },
        };
        proof {
            assert(r.view() =~~= self.view());
        }
        r
    }
}

/// What the machine asks its surroundings to do with one inbound message.
#[derive(Debug, PartialEq, Eq)]
pub enum Action {
    /// Send this response back to the client.
    Respond(Response),
    /// A well-timed `initialized` notification: acknowledge on the
    /// best-effort side channel. No response is sent.
    Notice,
    /// A notification that is ignored in the current state. No response.
    Ignore,
    /// The `exit` notification was received: end the connection. The flag
    /// says whether a successful shutdown preceded it, so the embedding
    /// process can report the protocol-violation path distinctly.
    Exit(bool),
    /// The connection had already exited: a terminal condition, nothing is
    /// processed and the caller must treat the connection as closed.
    Closed,
}

/// Ghost view of an `Action`.
#[verifier::ext_equal]
pub enum ActionV {
    Respond(ResponseV),
    Notice,
    Ignore,
    Exit(bool),
    Closed,
}

impl Action {
    pub open spec fn view(self) -> ActionV {
        match self {
            Action::Respond(r) => ActionV::Respond(r.view()),
            Action::Notice => ActionV::Notice,
            Action::Ignore => ActionV::Ignore,
            Action::Exit(clean) => ActionV::Exit(clean),
            Action::Closed => ActionV::Closed,
        }
    }

    /// A copy with the same ghost view.
    pub fn duplicate(&self) -> (r: Action)
        ensures
            r.view() == self.view(),
    {
        match self {
            Action::Respond(resp) => Action::Respond(resp.duplicate()),
            Action::Notice => Action::Notice,
            Action::Ignore => Action::Ignore,
            Action::Exit(clean) => Action::Exit(*clean),
            Action::Closed => Action::Closed,
        }
    }
}

/// An error action: a response carrying the given error kind and message.
pub open spec fn err_v(id: u64, kind: ErrorKind, message: Seq<char>) -> ActionV {
    ActionV::Respond(ResponseV { id, result: Err(ErrorObjectV { kind, message }) })
}

/// A success action: a response carrying the given payload.
pub open spec fn ok_v(id: u64, payload: PayloadV) -> ActionV {
    ActionV::Respond(ResponseV { id, result: Ok(payload) })
}

/// Is a completion provider advertised?
pub open spec fn has_completion(caps: Option<Capabilities>) -> bool {
    caps matches Some(c) && c.completion_provider is Some
}

/// Is completion-item resolution advertised?
pub open spec fn has_resolve(caps: Option<Capabilities>) -> bool {
    caps matches Some(c) && (c.completion_provider matches Some(o) && o.resolve_provider)
}

/// Is a hover provider advertised?
pub open spec fn has_hover(caps: Option<Capabilities>) -> bool {
    caps matches Some(c) && c.hover_provider
}

/// The connection's mutable core: its state and, once negotiated, the
/// capability set it advertised.
#[derive(Clone, Copy, Debug, PartialEq, Eq)]
pub struct Machine {
    pub state: ServerState,
    pub caps: Option<Capabilities>,
}

/// The machine a fresh connection starts with.
pub open spec fn spec_init() -> Machine {
    Machine { state: ServerState::Uninitialized, caps: None }
}

/// One step of a notification (a message without an identifier). Never
/// produces a response.
pub open spec fn spec_step_notification(m: Machine, q: RequestV) -> (Machine, ActionV) {
    match q.method {
        Method::Exit => (
            Machine { state: ServerState::Exited, ..m },
            ActionV::Exit(m.state == ServerState::ShuttingDown),
        ),
        Method::Initialized => if m.state == ServerState::Initialized {
            (m, ActionV::Notice)
        } else {
            (m, ActionV::Ignore)
        },
        _ => (m, ActionV::Ignore),
    }
}

/// One step of a request seen while the machine is initialized: feature
/// dispatch behind the capability gate, plus the lifecycle requests.
pub open spec fn spec_step_initialized(m: Machine, q: RequestV, id: u64) -> (Machine, ActionV) {
    match q.method {
        Method::Initialize => (
            m,
            err_v(id, ErrorKind::InvalidRequest, "server already initialized"@),
        ),
        Method::Shutdown => (
            Machine { state: ServerState::ShuttingDown, ..m },
            ok_v(id, PayloadV::Shutdown),
        ),
        Method::Completion => if has_completion(m.caps) {
            (m, ok_v(id, PayloadV::Completion(spec_completion_items())))
        } else {
            (m, err_v(id, ErrorKind::MethodNotFound, "method not found"@))
        },
        Method::CompletionResolve => if has_resolve(m.caps) {
            match q.item {
                Some(i) => (m, ok_v(id, PayloadV::Resolved(spec_resolved(i)))),
                None => (m, err_v(id, ErrorKind::InvalidRequest, "missing completion item"@)),
            }
        } else {
            (m, err_v(id, ErrorKind::MethodNotFound, "method not found"@))
        },
        Method::Hover => if has_hover(m.caps) {
            (m, ok_v(id, PayloadV::Hover(Some(spec_hover_content()))))
        } else {
            (m, err_v(id, ErrorKind::MethodNotFound, "method not found"@))
        },
        Method::Initialized | Method::Exit => (
            m,
            err_v(id, ErrorKind::InvalidRequest, "invalid request"@),
        ),
        Method::Unknown => (m, err_v(id, ErrorKind::MethodNotFound, "method not found"@)),
    }
}

/// One step of a request (a message with an identifier). Always produces a
/// response while the connection is open.
pub open spec fn spec_step_request(m: Machine, q: RequestV, id: u64) -> (Machine, ActionV) {
    match m.state {
        ServerState::Uninitialized | ServerState::Initializing => if q.method
            == Method::Initialize {
            (
                Machine { state: ServerState::Initialized, caps: Some(spec_negotiated()) },
                ok_v(id, PayloadV::Initialize(spec_initialize_result())),
            )
        } else {
            (m, err_v(id, ErrorKind::ServerNotInitialized, "server not initialized"@))
        },
        ServerState::Initialized => spec_step_initialized(m, q, id),
        ServerState::ShuttingDown => (
            m,
            err_v(id, ErrorKind::InvalidRequest, "server shutting down"@),
        ),
        ServerState::Exited => (m, ActionV::Closed),
    }
}

/// The full transition table: what the machine becomes and what it does on
/// one inbound message.
pub open spec fn spec_step(m: Machine, q: RequestV) -> (Machine, ActionV) {
    if m.state == ServerState::Exited {
        (m, ActionV::Closed)
    } else {
        match q.id {
            None => spec_step_notification(m, q),
            Some(id) => spec_step_request(m, q, id),
        }
    }
}

impl Machine {
    /// Well-formedness: the transient handshake state is never observable,
    /// and a machine past the handshake carries exactly the negotiated
    /// capability set.
    pub open spec fn wf(self) -> bool {
        &&& self.state != ServerState::Initializing
        &&& (self.state == ServerState::Initialized || self.state == ServerState::ShuttingDown)
            ==> self.caps == Some(spec_negotiated())
    }

    /// A fresh connection: uninitialized, nothing advertised yet.
    pub fn new() -> (m: Machine)
        ensures
            m == spec_init(),
            m.wf(),
    {
        Machine { state: ServerState::Uninitialized, caps: None }
    }

    /// Validate and route one inbound message: the machine transitions and
    /// acts exactly as `spec_step` says.
    pub fn handle(&mut self, req: &Request) -> (a: Action)
        ensures
            *final(self) == spec_step(*old(self), req.view()).0,
            a.view() == spec_step(*old(self), req.view()).1,
            old(self).wf() ==> final(self).wf(),
    {
        match self.state {
            ServerState::Exited => Action::Closed,
            _ => match req.id {
                None => self.handle_notification(req),
                Some(id) => self.handle_request(req, id),
            },
        }
    }

    /// One notification: lifecycle events transition, the rest is ignored.
    fn handle_notification(&mut self, req: &Request) -> (a: Action)
        ensures
            *final(self) == spec_step_notification(*old(self), req.view()).0,
            a.view() == spec_step_notification(*old(self), req.view()).1,
    {
        match req.method {
            Method::Exit => {
                let clean = match self.state {
                    ServerState::ShuttingDown => true,
                    _ => false,
                };
                self.state = ServerState::Exited;
                Action::Exit(clean)
            },
            Method::Initialized => match self.state {
                ServerState::Initialized => Action::Notice,
                _ => Action::Ignore,
            },
            _ => Action::Ignore,
        }
    }

    /// One request: gate it on the current state, dispatch when legal.
    fn handle_request(&mut self, req: &Request, id: u64) -> (a: Action)
        ensures
            *final(self) == spec_step_request(*old(self), req.view(), id).0,
            a.view() == spec_step_request(*old(self), req.view(), id).1,
    {
        match self.state {
            ServerState::Uninitialized | ServerState::Initializing => match req.method {
                Method::Initialize => {
                    self.caps = Some(crate::capabilities::negotiate());
                    self.state = ServerState::Initialized;
                    respond_ok(id, Payload::Initialize(initialize_result()))
                },
                _ => respond_err(id, ErrorKind::ServerNotInitialized, "server not initialized"),
            },
            ServerState::Initialized => self.handle_initialized(req, id),
            ServerState::ShuttingDown => respond_err(
                id,
                ErrorKind::InvalidRequest,
                "server shutting down",
            ),
            ServerState::Exited => Action::Closed,
        }
    }

    /// Feature dispatch once initialized: a handler runs only if its
    /// capability was advertised.
    fn handle_initialized(&mut self, req: &Request, id: u64) -> (a: Action)
        requires
            old(self).state == ServerState::Initialized,
        ensures
            *final(self) == spec_step_initialized(*old(self), req.view(), id).0,
            a.view() == spec_step_initialized(*old(self), req.view(), id).1,
    {
        match req.method {
            Method::Initialize => respond_err(
                id,
                ErrorKind::InvalidRequest,
                "server already initialized",
            ),
            Method::Shutdown => {
                self.state = ServerState::ShuttingDown;
                respond_ok(id, Payload::Shutdown)
            },
            Method::Completion => {
                let gate = match &self.caps {
                    Some(c) => c.completion_provider.is_some(),
                    None => false,
                };
                if gate {
                    respond_ok(id, Payload::Completion(completion_items()))
                } else {
                    respond_err(id, ErrorKind::MethodNotFound, "method not found")
                }
            },
            Method::CompletionResolve => {
                let gate = match &self.caps {
                    Some(c) => match c.completion_provider {
                        Some(o) => o.resolve_provider,
                        None => false,
                    },
                    None => false,
                };
                if gate {
                    match &req.item {
                        Some(i) => respond_ok(id, Payload::Resolved(resolve_item(i.duplicate()))),
                        None => respond_err(
                            id,
                            ErrorKind::InvalidRequest,
                            "missing completion item",
                        ),
                    }
                } else {
                    respond_err(id, ErrorKind::MethodNotFound, "method not found")
                }
            },
            Method::Hover => {
                let gate = match &self.caps {
                    Some(c) => c.hover_provider,
                    None => false,
                };
                if gate {
                    respond_ok(id, Payload::Hover(Some(hover_content())))
                } else {
                    respond_err(id, ErrorKind::MethodNotFound, "method not found")
                }
            },
            Method::Initialized | Method::Exit => respond_err(
                id,
                ErrorKind::InvalidRequest,
                "invalid request",
            ),
            Method::Unknown => respond_err(id, ErrorKind::MethodNotFound, "method not found"),
        }
    }
}

/// Builds a success action.
fn respond_ok(id: u64, payload: Payload) -> (a: Action)
    ensures
        a.view() == ok_v(id, payload.view()),
{
    let a = Action::Respond(Response { id, result: Ok(payload) });
    proof {
        assert(a.view() =~~= ok_v(id, payload.view()));
    }
    a
}

/// Builds an error action.
fn respond_err(id: u64, kind: ErrorKind, message: &str) -> (a: Action)
    ensures
        a.view() == err_v(id, kind, message@),
{
    let a = Action::Respond(
        Response { id, result: Err(ErrorObject { kind, message: message.to_owned() }) },
    );
    proof {
        assert(a.view() =~~= err_v(id, kind, message@));
    }
    a
}

/// Stepping preserves well-formedness: every machine reachable from a
/// well-formed one is well-formed.
pub proof fn lemma_step_preserves_wf(m: Machine, q: RequestV)
    requires
        m.wf(),
    ensures
        spec_step(m, q).0.wf(),
{
}

/// While the connection is uninitialized, every request other than
/// `initialize` is answered with a ServerNotInitialized error and the state
/// does not change.
pub proof fn lemma_uninitialized_rejects(m: Machine, q: RequestV)
    requires
        m.state == ServerState::Uninitialized,
        q.id is Some,
        q.method != Method::Initialize,
    ensures
        spec_step(m, q).0 == m,
        spec_step(m, q).1 == err_v(
            q.id.unwrap(),
            ErrorKind::ServerNotInitialized,
            "server not initialized"@,
        ),
{
}

/// One `initialize` request moves the machine from Uninitialized straight
/// to Initialized, and the result's capabilities are exactly the
/// negotiator's output.
pub proof fn lemma_initialize_once(m: Machine, q: RequestV)
    requires
        m.state == ServerState::Uninitialized,
        q.id is Some,
        q.method == Method::Initialize,
    ensures
        spec_step(m, q).0.state == ServerState::Initialized,
        spec_step(m, q).0.caps == Some(spec_negotiated()),
        spec_step(m, q).1 == ok_v(
            q.id.unwrap(),
            PayloadV::Initialize(spec_initialize_result()),
        ),
        spec_initialize_result().capabilities == spec_negotiated(),
{
}

/// A second `initialize` after the first always errors with InvalidRequest,
/// and the state does not revert.
pub proof fn lemma_reinitialize_rejected(m: Machine, q: RequestV)
    requires
        m.state == ServerState::Initialized || m.state == ServerState::ShuttingDown,
        q.id is Some,
        q.method == Method::Initialize,
    ensures
        spec_step(m, q).0 == m,
        spec_step(m, q).1 matches ActionV::Respond(r) && (r.result matches Err(e)
            && e.kind == ErrorKind::InvalidRequest),
{
}

/// After a successful shutdown, every subsequent request errors with
/// InvalidRequest, and the `exit` notification ends the connection.
pub proof fn lemma_shutdown_gates(m: Machine, q: RequestV)
    requires
        m.state == ServerState::ShuttingDown,
    ensures
        q.id is Some ==> spec_step(m, q).0 == m && spec_step(m, q).1 == err_v(
            q.id.unwrap(),
            ErrorKind::InvalidRequest,
            "server shutting down"@,
        ),
        q.id is None && q.method == Method::Exit ==> spec_step(m, q).0.state
            == ServerState::Exited && spec_step(m, q).1 == ActionV::Exit(true),
{
}

/// Once exited the machine is terminal: nothing is processed and nothing
/// changes, whatever arrives.
pub proof fn lemma_exited_is_terminal(m: Machine, q: RequestV)
    requires
        m.state == ServerState::Exited,
    ensures
        spec_step(m, q).0 == m,
        spec_step(m, q).1 == ActionV::Closed,
{
}

} // verus!
