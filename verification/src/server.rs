//! The decisions of the accept loop.

use vstd::prelude::*;

verus! {

/// What happened to the accept loop.
#[derive(Debug, Clone, Copy, PartialEq, Eq, Structural)]
pub enum ServerEvent {
    /// The address is bound and the listener listens.
    Bound,
    /// The address could not be bound.
    BindFailed,
    /// A connection was accepted.
    Accepted,
    /// Accepting a connection failed.
    AcceptFailed,
    /// A session ended in a failure: its handshake, or its transport.
    SessionFailed,
}

/// What the accept loop does next.
#[derive(Debug, Clone, Copy, PartialEq, Eq, Structural)]
pub enum ServerAction {
    /// Wait for the next connection.
    Accept,
    /// Start a session for the connection just accepted, without waiting for
    /// it, and wait for the next connection.
    Serve,
    /// Record the failure; the loop goes on as it was.
    Report,
    /// Leave the loop and hand the failure to the caller.
    Fail,
}

/// The action that follows `event`. The loop goes on for ever: it is left
/// only where the listener itself fails, to bind or to accept, and the
/// caller then gets the failure.
pub open spec fn action_after(event: ServerEvent) -> ServerAction {
    match event {
        ServerEvent::Bound => ServerAction::Accept,
        ServerEvent::BindFailed => ServerAction::Fail,
        ServerEvent::Accepted => ServerAction::Serve,
        ServerEvent::AcceptFailed => ServerAction::Fail,
        ServerEvent::SessionFailed => ServerAction::Report,
    }
}

/// What the accept loop does after `event`.
pub fn next_action(event: ServerEvent) -> (action: ServerAction)
    ensures
        action == action_after(event),
{
    match event {
        ServerEvent::Bound => ServerAction::Accept,
        ServerEvent::BindFailed => ServerAction::Fail,
        ServerEvent::Accepted => ServerAction::Serve,
        ServerEvent::AcceptFailed => ServerAction::Fail,
        ServerEvent::SessionFailed => ServerAction::Report,
    }
}

/// A failure of the listener itself, to bind or to accept, ends the loop
/// and reaches the caller, and nothing else does: the failure of a session
/// is recorded and the loop goes on.
pub proof fn lemma_session_failure_stays_in_the_session(event: ServerEvent)
    ensures
        action_after(event) is Fail <==> event is BindFailed || event is AcceptFailed,
        action_after(ServerEvent::SessionFailed) is Report,
{
}

} // verus!
