//! The interception middleware: observe every call, never mutate it.
//!
//! `Interceptor` wraps the lifecycle machine. On every call it emits an
//! observation event carrying the full inbound message, forwards the call
//! unchanged, and emits a second event carrying the full outbound action.
//! Its contract pins the wrapped machine's transition and action to the
//! same `spec_step` table as the bare machine, and
//! `lemma_middleware_transparent` states the transparency law: over any
//! sequence of messages the wrapped service produces exactly the bare
//! service's actions; only the observation side channel differs.

use vstd::prelude::*;

use crate::lifecycle::{spec_step, Action, ActionV, Machine};
use crate::protocol::{Request, RequestV};

verus! {

/// One observation: the full inbound message, or the full outbound action
/// once the call completed.
#[derive(Debug, PartialEq, Eq)]
pub enum Event {
    Inbound(Request),
    Outbound(Action),
}

/// Ghost view of an `Event`.
#[verifier::ext_equal]
pub enum EventV {
    Inbound(RequestV),
    Outbound(ActionV),
}

impl Event {
    pub open spec fn view(self) -> EventV {
        match self {
            Event::Inbound(q) => EventV::Inbound(q.view()),
            Event::Outbound(a) => EventV::Outbound(a.view()),
        }
    }
}

/// The lifecycle machine wrapped with observation. The middleware owns no
/// protocol state of its own.
pub struct Interceptor {
    pub machine: Machine,
}

impl Interceptor {
    /// Wrap a machine. Nothing about the machine changes.
    pub fn layer(machine: Machine) -> (r: Interceptor)
        ensures
            r.machine == machine,
    {
        Interceptor { machine }
    }

    /// Forward one message to the wrapped machine. The returned action is
    /// exactly what the bare machine produces on the same message; the two
    /// events carry the full inbound message and the full outbound action
    /// for the observation sink, and are for the sink alone.
    pub fn call(&mut self, req: Request) -> (r: (Action, Event, Event))
        ensures
            final(self).machine == spec_step(old(self).machine, req.view()).0,
            r.0.view() == spec_step(old(self).machine, req.view()).1,
            r.1.view() == EventV::Inbound(req.view()),
            r.2.view() == EventV::Outbound(spec_step(old(self).machine, req.view()).1),
    {
        let inbound = Event::Inbound(req.duplicate());
        let action = self.machine.handle(&req);
        let outbound = Event::Outbound(action.duplicate());
        (action, inbound, outbound)
    }
}

/// The bare service: the sequence of actions a machine produces on a
/// sequence of inbound messages.
pub open spec fn run_plain(m: Machine, reqs: Seq<RequestV>) -> Seq<ActionV>
    decreases reqs.len(),
{
    if reqs.len() == 0 {
        Seq::empty()
    } else {
        seq![spec_step(m, reqs[0]).1] + run_plain(spec_step(m, reqs[0]).0, reqs.drop_first())
    }
}

/// The wrapped service: the same forwarding, plus the observation trace of
/// one inbound and one outbound event per message.
pub open spec fn run_observed(m: Machine, reqs: Seq<RequestV>) -> (Seq<ActionV>, Seq<EventV>)
    decreases reqs.len(),
{
    if reqs.len() == 0 {
        (Seq::<ActionV>::empty(), Seq::<EventV>::empty())
    } else {
        let stepped = spec_step(m, reqs[0]);
        let rest = run_observed(stepped.0, reqs.drop_first());
        (
            seq![stepped.1] + rest.0,
            seq![EventV::Inbound(reqs[0]), EventV::Outbound(stepped.1)] + rest.1,
        )
    }
}

/// Middleware transparency: for any machine and any sequence of messages,
/// the wrapped service produces exactly the actions of the bare service —
/// same identifiers, payloads and ordering. Only the observation side
/// channel differs.
pub proof fn lemma_middleware_transparent(m: Machine, reqs: Seq<RequestV>)
    ensures
        run_observed(m, reqs).0 == run_plain(m, reqs),
    decreases reqs.len(),
{
    if reqs.len() == 0 {
        assert(run_observed(m, reqs).0 =~= run_plain(m, reqs));
    } else {
        lemma_middleware_transparent(spec_step(m, reqs[0]).0, reqs.drop_first());
        assert(run_observed(m, reqs).0 =~= run_plain(m, reqs));
    }
}

} // verus!
