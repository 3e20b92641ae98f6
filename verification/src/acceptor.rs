//! The listening side: bind one well-known port, then accept connections and
//! serve them one at a time, for as long as the process lives.
//!
//! The driver owns the socket. [`Acceptor::step`] takes what came of each
//! operation and decides what the driver does next.

use vstd::prelude::*;

verus! {

/// The port that the service listens on.
pub const VSOCK_PORT: u32 = 5000;

/// Where the listening side stands.
#[derive(Debug, Clone, Copy, PartialEq, Eq)]
pub enum Acceptor {
    /// Not listening yet.
    Unbound,
    /// Listening, with no connection in service.
    Listening,
    /// A connection is being served; no other is accepted meanwhile.
    Serving,
    /// The port could not be bound; the service never started.
    Failed,
}

/// What the driver reports after carrying out an action.
#[derive(Debug, Clone, Copy, PartialEq, Eq)]
pub enum AcceptorEvent {
    /// The port is bound.
    Bound,
    /// The port could not be bound.
    BindFailed,
    /// A connection arrived.
    Accepted,
    /// Accepting a connection failed.
    AcceptFailed,
    /// The connection in service came to its end.
    SessionEnded,
}

/// What the driver does next.
#[derive(Debug, Clone, Copy, PartialEq, Eq)]
pub enum AcceptorAction {
    /// Bind the listening socket to this port, for peers of any context.
    Bind { port: u32 },
    /// Wait for the next connection.
    Accept,
    /// Serve the connection that just arrived, to its end.
    Serve,
    /// Give up: the service cannot start.
    Abort,
    /// The event did not answer the pending action; nothing changed.
    Ignore,
}

impl Acceptor {
    /// The state after an event, and the action that the event calls for.
    pub open spec fn next(self, event: AcceptorEvent) -> (Acceptor, AcceptorAction) {
        match (self, event) {
            (Acceptor::Unbound, AcceptorEvent::Bound) => (
                Acceptor::Listening,
                AcceptorAction::Accept,
            ),
            (Acceptor::Unbound, AcceptorEvent::BindFailed) => (
                Acceptor::Failed,
                AcceptorAction::Abort,
            ),
            (Acceptor::Listening, AcceptorEvent::Accepted) => (
                Acceptor::Serving,
                AcceptorAction::Serve,
            ),
            (Acceptor::Listening, AcceptorEvent::AcceptFailed) => (
                Acceptor::Listening,
                AcceptorAction::Accept,
            ),
            (Acceptor::Serving, AcceptorEvent::SessionEnded) => (
                Acceptor::Listening,
                AcceptorAction::Accept,
            ),
            (state, _) => (state, AcceptorAction::Ignore),
        }
    }

    /// Starts the service. The first action is to bind the well-known port.
    pub fn start() -> (r: (Acceptor, AcceptorAction))
        ensures
            r == (Acceptor::Unbound, AcceptorAction::Bind { port: VSOCK_PORT }),
    {
        (Acceptor::Unbound, AcceptorAction::Bind { port: VSOCK_PORT })
    }

    /// Takes the driver's report and says what to do next.
    pub fn step(self, event: AcceptorEvent) -> (r: (Acceptor, AcceptorAction))
        ensures
            r == self.next(event),
    {
        match self {
            Acceptor::Unbound => match event {
                AcceptorEvent::Bound => (Acceptor::Listening, AcceptorAction::Accept),
                AcceptorEvent::BindFailed => (Acceptor::Failed, AcceptorAction::Abort),
                _ => (Acceptor::Unbound, AcceptorAction::Ignore),
            },
            Acceptor::Listening => match event {
                AcceptorEvent::Accepted => (Acceptor::Serving, AcceptorAction::Serve),
                AcceptorEvent::AcceptFailed => (Acceptor::Listening, AcceptorAction::Accept),
                _ => (Acceptor::Listening, AcceptorAction::Ignore),
            },
            Acceptor::Serving => match event {
                AcceptorEvent::SessionEnded => (Acceptor::Listening, AcceptorAction::Accept),
                _ => (Acceptor::Serving, AcceptorAction::Ignore),
            },
            Acceptor::Failed => (Acceptor::Failed, AcceptorAction::Ignore),
        }
    }
}

/// Where a sequence of events leads.
pub open spec fn acceptor_run(state: Acceptor, events: Seq<AcceptorEvent>) -> Acceptor
    decreases events.len(),
{
    if events.len() == 0 {
        state
    } else {
        acceptor_run(state.next(events.first()).0, events.drop_first())
    }
}

/// A failed accept costs nothing: the service goes on listening.
pub proof fn lemma_accept_failure_keeps_listening()
    ensures
        Acceptor::Listening.next(AcceptorEvent::AcceptFailed) == (
            Acceptor::Listening,
            AcceptorAction::Accept,
        ),
{
}

/// Connections are served one at a time: while one is in service, nothing is
/// accepted until it has ended.
pub proof fn lemma_one_connection_at_a_time(event: AcceptorEvent)
    ensures
        Acceptor::Serving.next(event).1 is Accept <==> event is SessionEnded,
        !(event is SessionEnded) ==> Acceptor::Serving.next(event) == (
            Acceptor::Serving,
            AcceptorAction::Ignore,
        ),
{
}

/// Only a failure to bind stops the service, and it stops it for good.
pub proof fn lemma_only_bind_failure_is_fatal(state: Acceptor, event: AcceptorEvent)
    ensures
        state.next(event).1 is Abort <==> state is Unbound && event is BindFailed,
        state.next(event).0 is Failed <==> state is Failed || (state is Unbound
            && event is BindFailed),
{
}

/// Once the port is bound, nothing that happens to connections ends the
/// service: it is always listening or serving.
pub proof fn lemma_service_keeps_running(state: Acceptor, events: Seq<AcceptorEvent>)
    requires
        state is Listening || state is Serving,
    ensures
        acceptor_run(state, events) is Listening || acceptor_run(state, events) is Serving,
    decreases events.len(),
{
    if events.len() > 0 {
        lemma_service_keeps_running(state.next(events.first()).0, events.drop_first());
    }
}

} // verus!
