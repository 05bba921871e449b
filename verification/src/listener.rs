//! What the accept loop does with the outcome of one accept attempt.

use vstd::prelude::*;

verus! {

/// Why an accept attempt failed.
#[derive(Clone, Copy, Debug, PartialEq, Eq, Structural)]
pub enum AcceptFailure {
    /// The peer refused the connection while it was being set up.
    ConnectionRefused,
    /// The peer gave the connection up before it was accepted.
    ConnectionAborted,
    /// The peer reset the connection before it was accepted.
    ConnectionReset,
    /// The call was interrupted.
    Interrupted,
    /// Anything else: the listening socket cannot be relied on any more.
    Other,
}

/// The outcome of one accept attempt.
#[derive(Clone, Copy, Debug, PartialEq, Eq, Structural)]
pub enum Accepted {
    Connection,
    Failed(AcceptFailure),
}

/// What the accept loop does next.
#[derive(Clone, Copy, Debug, PartialEq, Eq, Structural)]
pub enum ListenerAction {
    /// Hand the connection to a handler of its own and accept again, without
    /// waiting for that handler.
    Serve,
    /// Report the failure and accept again.
    Retry,
    /// Report the failure and give the listener up: the process ends.
    Stop,
}

/// The failure concerns one attempt only: it came from the peer or from an
/// interruption, and the listener is as usable as before. Of any other
/// failure the worst is taken, that the listener itself is lost.
pub open spec fn is_transient(failure: AcceptFailure) -> bool {
    failure != AcceptFailure::Other
}

/// The action that follows an accept attempt.
pub open spec fn action_after(outcome: Accepted) -> ListenerAction {
    match outcome {
        Accepted::Connection => ListenerAction::Serve,
        Accepted::Failed(failure) => if is_transient(failure) {
            ListenerAction::Retry
        } else {
            ListenerAction::Stop
        },
    }
}

/// Decides how the accept loop goes on after one attempt.
pub fn after_accept(outcome: Accepted) -> (action: ListenerAction)
    ensures
        action == action_after(outcome),
{
    match outcome {
        Accepted::Connection => ListenerAction::Serve,
        Accepted::Failed(AcceptFailure::Other) => ListenerAction::Stop,
        Accepted::Failed(_) => ListenerAction::Retry,
    }
}

} // verus!
