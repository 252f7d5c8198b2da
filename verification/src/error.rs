//! The errors of the relay and how far each of them reaches.

use vstd::prelude::*;

verus! {

/// A failure of one relay loop: the operation that failed, with the error
/// that the connection reported.
#[derive(Debug, PartialEq, Eq)]
pub enum RelayError<E> {
    /// Reading from the source failed.
    Read(E),
    /// Writing to the destination failed.
    Write(E),
}

/// Everything that can go wrong in the relay.
#[derive(Debug, PartialEq, Eq)]
pub enum ProxyError<E> {
    /// The listening address could not be used.
    Bind(E),
    /// One attempt to accept a connection failed.
    Accept(E),
    /// The outbound connection for one inbound connection could not be opened.
    Dial(E),
    /// A read or a write failed while bytes were being relayed.
    Relay(RelayError<E>),
}

/// How far an error reaches.
#[derive(Clone, Copy, Debug, PartialEq, Eq, Structural)]
pub enum Scope {
    /// The process cannot go on.
    Process,
    /// One attempt to accept is lost; the acceptor goes on.
    Attempt,
    /// One connection's handler ends; the acceptor and all other connections
    /// go on.
    Connection,
}

impl<E> RelayError<E> {
    /// The error that the connection reported.
    pub open spec fn cause(self) -> E {
        match self {
            RelayError::Read(e) => e,
            RelayError::Write(e) => e,
        }
    }

    /// Gives back the error that the connection reported.
    pub fn into_cause(self) -> (e: E)
        ensures
            e == self.cause(),
    {
        match self {
            RelayError::Read(e) => e,
            RelayError::Write(e) => e,
        }
    }
}

impl<E> ProxyError<E> {
    /// How far this error reaches.
    pub open spec fn reach(self) -> Scope {
        match self {
            ProxyError::Bind(_) => Scope::Process,
            ProxyError::Accept(_) => Scope::Attempt,
            ProxyError::Dial(_) => Scope::Connection,
            ProxyError::Relay(_) => Scope::Connection,
        }
    }

    /// The error that the transport reported.
    pub open spec fn cause(self) -> E {
        match self {
            ProxyError::Bind(e) => e,
            ProxyError::Accept(e) => e,
            ProxyError::Dial(e) => e,
            ProxyError::Relay(r) => r.cause(),
        }
    }

    /// How far this error reaches.
    pub fn scope(&self) -> (s: Scope)
        ensures
            s == self.reach(),
    {
        match self {
            ProxyError::Bind(_) => Scope::Process,
            ProxyError::Accept(_) => Scope::Attempt,
            ProxyError::Dial(_) => Scope::Connection,
            ProxyError::Relay(_) => Scope::Connection,
        }
    }

    /// Whether the process has to stop: only when the listening address is
    /// unusable.
    pub fn is_fatal(&self) -> (b: bool)
        ensures
            b <==> *self is Bind,
            b <==> self.reach() == Scope::Process,
    {
        match self {
            ProxyError::Bind(_) => true,
            _ => false,
        }
    }

    /// Gives back the error that the transport reported.
    pub fn into_cause(self) -> (e: E)
        ensures
            e == self.cause(),
    {
        match self {
            ProxyError::Bind(e) => e,
            ProxyError::Accept(e) => e,
            ProxyError::Dial(e) => e,
            ProxyError::Relay(r) => r.into_cause(),
        }
    }
}

} // verus!
