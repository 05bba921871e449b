//! The message loop of one session as a state machine. The caller owns the
//! connection: it waits for the next event, hands it to [`step`] together
//! with the session's state, and carries out the action it gets back.

use crate::message::{Message, MessageView};
use vstd::prelude::*;

verus! {

/// A session is open from the end of the handshake until it is closed; it
/// never opens again.
#[derive(Clone, Copy, Debug, PartialEq, Eq, Structural)]
pub enum SessionState {
    Open,
    Closed,
}

/// What can happen on a session while its loop waits.
#[derive(Clone, Debug, PartialEq, Eq)]
pub enum Event {
    /// The receiving side delivered a message.
    Received(Message),
    /// The receiving side is exhausted: the peer is gone.
    EndOfStream,
    /// Receiving failed with a transport or framing error.
    ReceiveFailed,
    /// The reply handed out last has been sent.
    SendCompleted,
    /// Sending the reply handed out last failed.
    SendFailed,
}

/// An event with its message by its view.
pub enum EventView {
    Received(MessageView),
    EndOfStream,
    ReceiveFailed,
    SendCompleted,
    SendFailed,
}

impl View for Event {
    type V = EventView;

    open spec fn view(&self) -> EventView {
        match self {
            Event::Received(message) => EventView::Received(message@),
            Event::EndOfStream => EventView::EndOfStream,
            Event::ReceiveFailed => EventView::ReceiveFailed,
            Event::SendCompleted => EventView::SendCompleted,
            Event::SendFailed => EventView::SendFailed,
        }
    }
}

/// What the caller does next.
#[derive(Clone, Debug, PartialEq, Eq)]
pub enum Action {
    /// Wait for the next message.
    Await,
    /// Send this message, then report `SendCompleted` or `SendFailed`.
    Reply(Message),
    /// Leave the loop and let go of the connection.
    Finish,
    /// Leave the loop, let go of the connection and report the failure.
    Abort,
}

/// An action with its message by its view.
pub enum ActionView {
    Await,
    Reply(MessageView),
    Finish,
    Abort,
}

impl View for Action {
    type V = ActionView;

    open spec fn view(&self) -> ActionView {
        match self {
            Action::Await => ActionView::Await,
            Action::Reply(message) => ActionView::Reply(message@),
            Action::Finish => ActionView::Finish,
            Action::Abort => ActionView::Abort,
        }
    }
}

/// The outcome of one step: the session's next state and the action to take.
#[derive(Clone, Debug, PartialEq, Eq)]
pub struct Step {
    pub next: SessionState,
    pub action: Action,
}

/// A step with its action by its view.
pub struct StepView {
    pub next: SessionState,
    pub action: ActionView,
}

impl View for Step {
    type V = StepView;

    open spec fn view(&self) -> StepView {
        StepView { next: self.next, action: self.action@ }
    }
}

/// The upper-cased form of a text: every character replaced by its Unicode
/// upper-case mapping, which may be longer than one character. The mapping
/// knows no locale.
pub uninterp spec fn uppercase_of(text: Seq<char>) -> Seq<char>;

/// Calls `str::to_uppercase` of the standard library. The contract only
/// names that result; that the same text always gives the same upper-cased
/// text is all that is taken on trust.
#[verifier::external_body]
fn uppercase(text: &str) -> (upper: String)
    ensures
        upper@ == uppercase_of(text@),
{
    text.to_uppercase()
}

/// The step that answers a text message, given its upper-cased form.
pub open spec fn reply_step(upper: Seq<char>) -> StepView {
    StepView { next: SessionState::Open, action: ActionView::Reply(MessageView::Text(upper)) }
}

/// The transition of the session loop.
///
/// A closed session stays closed and does nothing. On an open session a text
/// message is answered with its upper-cased form; a close message and the
/// end of the stream close the session; a failure to receive or to send
/// closes it with [`ActionView::Abort`]; everything else is passed over.
pub open spec fn step_of(state: SessionState, event: EventView) -> StepView {
    match state {
        SessionState::Closed => StepView { next: SessionState::Closed, action: ActionView::Finish },
        SessionState::Open => match event {
            EventView::Received(MessageView::Text(text)) => reply_step(uppercase_of(text)),
            EventView::Received(MessageView::Close(_)) => StepView {
                next: SessionState::Closed,
                action: ActionView::Finish,
            },
            EventView::Received(_) => StepView {
                next: SessionState::Open,
                action: ActionView::Await,
            },
            EventView::EndOfStream => StepView {
                next: SessionState::Closed,
                action: ActionView::Finish,
            },
            EventView::ReceiveFailed => StepView {
                next: SessionState::Closed,
                action: ActionView::Abort,
            },
            EventView::SendCompleted => StepView {
                next: SessionState::Open,
                action: ActionView::Await,
            },
            EventView::SendFailed => StepView {
                next: SessionState::Closed,
                action: ActionView::Abort,
            },
        },
    }
}

/// Answers a text message whose upper-cased form is `upper`: the session
/// stays open and `upper` goes out as a text message.
pub fn reply_with(upper: String) -> (step: Step)
    ensures
        step@ == reply_step(upper@),
{
    Step { next: SessionState::Open, action: Action::Reply(Message::Text(upper)) }
}

/// Takes one event on a session in state `state`.
pub fn step(state: SessionState, event: Event) -> (step: Step)
    ensures
        step@ == step_of(state, event@),
{
    match state {
        SessionState::Closed => Step { next: SessionState::Closed, action: Action::Finish },
        SessionState::Open => match event {
            Event::Received(Message::Text(text)) => reply_with(uppercase(text.as_str())),
            Event::Received(Message::Close(_)) => Step {
                next: SessionState::Closed,
                action: Action::Finish,
            },
            Event::Received(_) => Step { next: SessionState::Open, action: Action::Await },
            Event::EndOfStream => Step { next: SessionState::Closed, action: Action::Finish },
            Event::ReceiveFailed => Step { next: SessionState::Closed, action: Action::Abort },
            Event::SendCompleted => Step { next: SessionState::Open, action: Action::Await },
            Event::SendFailed => Step { next: SessionState::Closed, action: Action::Abort },
        },
    }
}

/// One session from the end of its handshake on. The value is neither
/// copied nor cloned: whoever runs the session's loop holds it alone.
#[derive(Debug)]
pub struct Session {
    state: SessionState,
}

impl View for Session {
    type V = SessionState;

    closed spec fn view(&self) -> SessionState {
        self.state
    }
}

impl Session {
    /// The session that a completed handshake leaves behind: an open one.
    pub fn open() -> (session: Session)
        ensures
            session@ == SessionState::Open,
    {
        Session { state: SessionState::Open }
    }

    /// The state the session is in.
    pub fn state(&self) -> (state: SessionState)
        ensures
            state == self@,
    {
        self.state
    }

    /// Whether the session is still open.
    pub fn is_open(&self) -> (open: bool)
        ensures
            open == (self@ == SessionState::Open),
    {
        match self.state {
            SessionState::Open => true,
            SessionState::Closed => false,
        }
    }

    /// Takes one event: moves the session to its next state and returns the
    /// action to carry out, both as [`step_of`] gives them.
    pub fn handle(&mut self, event: Event) -> (action: Action)
        ensures
            final(self)@ == step_of(old(self)@, event@).next,
            action@ == step_of(old(self)@, event@).action,
    {
        let taken = step(self.state, event);
        self.state = taken.next;
        taken.action
    }
}

} // verus!
