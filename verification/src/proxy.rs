//! The acceptor: it has the listening address bound once, then has inbound
//! connections accepted without end, each handed to a handler of its own.
//!
//! The acceptor does no binding or accepting itself. It is told what happened
//! and answers with what to do.

use vstd::prelude::*;
use crate::error::ProxyError;

verus! {

/// What an acceptor is told.
#[derive(Debug, PartialEq, Eq)]
pub enum AcceptorEvent<E> {
    /// The listening address is bound.
    Bound,
    /// The listening address could not be bound.
    BindFailed(E),
    /// An inbound connection has arrived.
    Accepted,
    /// One attempt to accept failed; the listener is still usable.
    AcceptFailed(E),
    /// The listener will yield no more connections.
    ListenerClosed,
    /// The handler of some connection has ended.
    HandlerFinished(Result<(), ProxyError<E>>),
}

/// What an acceptor asks for.
#[derive(Debug, PartialEq, Eq)]
pub enum AcceptorAction<E> {
    /// Wait for the next inbound connection.
    Accept,
    /// Hand the new connection to a handler of its own without waiting for
    /// it, and wait for the next inbound connection.
    Spawn,
    /// Report the error and wait for the next inbound connection.
    Retry(ProxyError<E>),
    /// Report the error of a handler; accepting goes on as before.
    Report(ProxyError<E>),
    /// Stop the process with this result.
    Exit(Result<(), ProxyError<E>>),
    /// Nothing to do.
    Nothing,
}

/// The acceptor of inbound connections.
#[derive(Clone, Copy, Debug, PartialEq, Eq, Structural)]
pub enum Acceptor {
    /// Waiting for the listening address to be bound.
    Binding,
    /// Accepting inbound connections.
    Listening,
    /// The listener is gone.
    Stopped,
}

impl Acceptor {
    /// The acceptor's answer to `event`, and the state it moves to.
    ///
    /// A failed bind stops the process. Each inbound connection is handed to
    /// a handler of its own. A failed attempt to accept is reported and the
    /// next one made. The end of a handler, good or bad, never changes the
    /// acceptor; a bad one is reported. Only the loss of the listener ends
    /// the loop.
    pub open spec fn next<E>(self, event: AcceptorEvent<E>) -> (Acceptor, AcceptorAction<E>) {
        match (self, event) {
            (_, AcceptorEvent::HandlerFinished(Err(e))) => (self, AcceptorAction::Report(e)),
            (_, AcceptorEvent::HandlerFinished(Ok(_))) => (self, AcceptorAction::Nothing),
            (Acceptor::Binding, AcceptorEvent::Bound) => (
                Acceptor::Listening,
                AcceptorAction::Accept,
            ),
            (Acceptor::Binding, AcceptorEvent::BindFailed(e)) => (
                Acceptor::Stopped,
                AcceptorAction::Exit(Err(ProxyError::Bind(e))),
            ),
            (Acceptor::Listening, AcceptorEvent::Accepted) => (
                Acceptor::Listening,
                AcceptorAction::Spawn,
            ),
            (Acceptor::Listening, AcceptorEvent::AcceptFailed(e)) => (
                Acceptor::Listening,
                AcceptorAction::Retry(ProxyError::Accept(e)),
            ),
            (Acceptor::Listening, AcceptorEvent::ListenerClosed) => (
                Acceptor::Stopped,
                AcceptorAction::Exit(Ok(())),
            ),
            _ => (self, AcceptorAction::Nothing),
        }
    }

    /// An acceptor that has not bound its address yet. Its first need is the
    /// bound listener.
    pub fn new() -> (acceptor: Acceptor)
        ensures
            acceptor == Acceptor::Binding,
    {
        Acceptor::Binding
    }

    /// Whether the acceptor is accepting connections.
    pub fn is_listening(&self) -> (b: bool)
        ensures
            b <==> *self == Acceptor::Listening,
    {
        match self {
            Acceptor::Listening => true,
            _ => false,
        }
    }

    /// Takes `event` in and says what to do.
    pub fn step<E>(&mut self, event: AcceptorEvent<E>) -> (action: AcceptorAction<E>)
        ensures
            (*final(self), action) == old(self).next(event),
    {
        match event {
            AcceptorEvent::HandlerFinished(outcome) => match outcome {
                Err(e) => AcceptorAction::Report(e),
                Ok(_) => AcceptorAction::Nothing,
            },
            AcceptorEvent::Bound => match *self {
                Acceptor::Binding => {
                    *self = Acceptor::Listening;
                    AcceptorAction::Accept
                },
                _ => AcceptorAction::Nothing,
            },
            AcceptorEvent::BindFailed(e) => match *self {
                Acceptor::Binding => {
                    *self = Acceptor::Stopped;
                    AcceptorAction::Exit(Err(ProxyError::Bind(e)))
                },
                _ => AcceptorAction::Nothing,
            },
            AcceptorEvent::Accepted => match *self {
                Acceptor::Listening => AcceptorAction::Spawn,
                _ => AcceptorAction::Nothing,
            },
            AcceptorEvent::AcceptFailed(e) => match *self {
                Acceptor::Listening => AcceptorAction::Retry(ProxyError::Accept(e)),
                _ => AcceptorAction::Nothing,
            },
            AcceptorEvent::ListenerClosed => match *self {
                Acceptor::Listening => {
                    *self = Acceptor::Stopped;
                    AcceptorAction::Exit(Ok(()))
                },
                _ => AcceptorAction::Nothing,
            },
        }
    }
}

/// The state that a sequence of events leads to from `start`.
pub open spec fn run_from<E>(start: Acceptor, trace: Seq<AcceptorEvent<E>>) -> Acceptor
    decreases trace.len(),
{
    if trace.len() == 0 {
        start
    } else {
        run_from(start, trace.drop_last()).next(trace.last()).0
    }
}

/// Failure isolation, one step: the end of a handler, whatever its outcome,
/// leaves the acceptor as it was, so every later event is answered as if that
/// handler had never run. A listening acceptor goes on to hand the next
/// connection to a new handler.
pub proof fn lemma_failure_isolation<E>(
    acceptor: Acceptor,
    outcome: Result<(), ProxyError<E>>,
    later: AcceptorEvent<E>,
)
    ensures
        acceptor.next(AcceptorEvent::HandlerFinished(outcome)).0 == acceptor,
        acceptor.next(AcceptorEvent::HandlerFinished(outcome)).0.next(later) == acceptor.next(
            later,
        ),
        acceptor == Acceptor::Listening ==> acceptor.next(
            AcceptorEvent::HandlerFinished(outcome),
        ).0.next(AcceptorEvent::<E>::Accepted) == (Acceptor::Listening, AcceptorAction::<E>::Spawn),
{
}

/// Failure isolation, whole runs: as long as the listener is not lost, a
/// listening acceptor keeps listening, whatever attempts to accept and whatever
/// handlers fail on the way.
pub proof fn lemma_acceptor_keeps_listening<E>(trace: Seq<AcceptorEvent<E>>)
    requires
        forall|i: int| 0 <= i < trace.len() ==> !(#[trigger] trace[i] is ListenerClosed),
    ensures
        run_from(Acceptor::Listening, trace) == Acceptor::Listening,
    decreases trace.len(),
{
    if trace.len() > 0 {
        let before = trace.drop_last();
        assert forall|i: int| 0 <= i < before.len() implies !(#[trigger] before[i]
            is ListenerClosed) by {
            assert(before[i] == trace[i]);
        }
        lemma_acceptor_keeps_listening(before);
        assert(!(trace[trace.len() - 1] is ListenerClosed));
    }
}

/// Only a failed bind stops the process with an error: whenever the acceptor
/// asks to exit with an error, that error reaches the whole process.
pub proof fn lemma_only_bind_is_fatal<E>(acceptor: Acceptor, event: AcceptorEvent<E>)
    ensures
        acceptor.next(event).1 matches AcceptorAction::Exit(Err(e)) ==> e is Bind
            && acceptor == Acceptor::Binding,
        acceptor.next(event).1 matches AcceptorAction::Retry(e) ==> e is Accept,
        acceptor.next(event).1 matches AcceptorAction::Report(e) ==> event
            == AcceptorEvent::HandlerFinished(Err(e)),
{
}

} // verus!
