//! The kinds of failure and how far each of them reaches.

use vstd::prelude::*;

verus! {

/// What can go wrong in the server.
#[derive(Clone, Copy, Debug, PartialEq, Eq, Structural)]
pub enum Failure {
    /// The listening address could not be bound.
    Bind,
    /// A peer sent bytes that are no valid HTTP or WebSocket framing.
    Protocol,
    /// An upgrade request did not pass the opening handshake.
    Handshake,
    /// Reading from or writing to a connection failed.
    Io,
}

/// The part of the server that a failure brings down.
#[derive(Clone, Copy, Debug, PartialEq, Eq, Structural)]
pub enum Reach {
    /// The process: it cannot start.
    Process,
    /// The one connection on which the failure occurred. The listener and
    /// all other connections go on, and nothing is tried again.
    Connection,
}

/// How far a failure reaches: only a failure to bind is fatal, every other
/// failure ends with the connection it occurred on.
pub open spec fn reach_of(failure: Failure) -> Reach {
    match failure {
        Failure::Bind => Reach::Process,
        _ => Reach::Connection,
    }
}

impl Failure {
    /// The part of the server that this failure brings down.
    pub fn reach(self) -> (reach: Reach)
        ensures
            reach == reach_of(self),
    {
        match self {
            Failure::Bind => Reach::Process,
            Failure::Protocol => Reach::Connection,
            Failure::Handshake => Reach::Connection,
            Failure::Io => Reach::Connection,
        }
    }

    /// Whether the process has to end.
    pub fn is_fatal(self) -> (fatal: bool)
        ensures
            fatal == (reach_of(self) == Reach::Process),
    {
        match self {
            Failure::Bind => true,
            _ => false,
        }
    }
}

} // verus!
