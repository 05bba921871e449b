//! Whole histories: what a session has sent and what state it is in after a
//! sequence of events, and the same for many sessions whose events arrive
//! interleaved. Everything here is stated over [`step_of`], the transition
//! that [`crate::session::step`] computes.

use crate::message::MessageView;
use crate::session::{step_of, uppercase_of, ActionView, EventView, SessionState};
use vstd::prelude::*;

verus! {

/// A session's state together with the replies it has handed out so far,
/// oldest first.
pub struct Trace {
    pub state: SessionState,
    pub replies: Seq<MessageView>,
}

/// A session right after the handshake: open, nothing sent.
pub open spec fn fresh() -> Trace {
    Trace { state: SessionState::Open, replies: Seq::empty() }
}

/// The trace after one more event.
pub open spec fn advance(trace: Trace, event: EventView) -> Trace {
    let step = step_of(trace.state, event);
    Trace {
        state: step.next,
        replies: match step.action {
            ActionView::Reply(message) => trace.replies.push(message),
            _ => trace.replies,
        },
    }
}

/// The trace of a fresh session after `events`, taken in order.
pub open spec fn run(events: Seq<EventView>) -> Trace
    decreases events.len(),
{
    if events.len() == 0 {
        fresh()
    } else {
        advance(run(events.drop_last()), events.last())
    }
}

/// A text message that reaches an open session is answered with exactly one
/// message, the text in upper case, and the session stays open. The reply is
/// the last one handed out at that point: it stands after the replies to all
/// earlier messages.
pub proof fn text_is_answered_in_turn(history: Seq<EventView>, text: Seq<char>)
    requires
        run(history).state == SessionState::Open,
    ensures
        run(history.push(EventView::Received(MessageView::Text(text)))).state
            == SessionState::Open,
        run(history.push(EventView::Received(MessageView::Text(text)))).replies == run(
            history,
        ).replies.push(MessageView::Text(uppercase_of(text))),
{
    let event = EventView::Received(MessageView::Text(text));
    assert(history.push(event).drop_last() =~= history);
}

/// Replies are never taken back or reordered: whatever follows, the replies
/// handed out so far remain the initial part of all replies. So the reply to
/// a message stands before the reply to any later message.
pub proof fn replies_only_grow(history: Seq<EventView>, later: Seq<EventView>)
    ensures
        run(history).replies.is_prefix_of(run(history + later).replies),
    decreases later.len(),
{
    if later.len() == 0 {
        assert(history + later =~= history);
        assert(run(history).replies.subrange(0, run(history).replies.len() as int) =~= run(
            history,
        ).replies);
    } else {
        let all = history + later;
        assert(all.drop_last() =~= history + later.drop_last());
        replies_only_grow(history, later.drop_last());
        let before = run(all.drop_last()).replies;
        let after = run(all).replies;
        let shown = run(history).replies;
        assert(after == before || after == before.push(after.last()));
        assert(after.subrange(0, shown.len() as int) =~= before.subrange(0, shown.len() as int));
    }
}

/// A message that is neither text nor a close message changes nothing on an
/// open session: no reply is handed out and the session stays open.
pub proof fn other_messages_are_passed_over(history: Seq<EventView>, message: MessageView)
    requires
        run(history).state == SessionState::Open,
        !(message is Text),
        !(message is Close),
    ensures
        step_of(SessionState::Open, EventView::Received(message)).action == ActionView::Await,
        run(history.push(EventView::Received(message))) == run(history),
{
    assert(history.push(EventView::Received(message)).drop_last() =~= history);
}

/// Once a session is closed it stays closed and hands out no reply, whatever
/// reaches it.
pub proof fn closed_sessions_stay_silent(history: Seq<EventView>, later: Seq<EventView>)
    requires
        run(history).state == SessionState::Closed,
    ensures
        run(history + later) == run(history),
    decreases later.len(),
{
    if later.len() == 0 {
        assert(history + later =~= history);
    } else {
        assert((history + later).drop_last() =~= history + later.drop_last());
        closed_sessions_stay_silent(history, later.drop_last());
    }
}

/// A close message closes the session without a reply, and nothing that
/// reaches the session afterwards is answered.
pub proof fn close_ends_the_session(
    history: Seq<EventView>,
    close: MessageView,
    later: Seq<EventView>,
)
    requires
        close is Close,
    ensures
        run(history.push(EventView::Received(close))).state == SessionState::Closed,
        run(history.push(EventView::Received(close))).replies == run(history).replies,
        run(history.push(EventView::Received(close)) + later) == run(
            history.push(EventView::Received(close)),
        ),
{
    let closing = history.push(EventView::Received(close));
    assert(closing.drop_last() =~= history);
    closed_sessions_stay_silent(closing, later);
}

/// The traces of all sessions of a server after `events`, each event tagged
/// with the session it occurred on. Every session starts fresh, and an event
/// advances the session it is tagged with.
pub open spec fn serve(events: Seq<(nat, EventView)>) -> Map<nat, Trace>
    decreases events.len(),
{
    if events.len() == 0 {
        Map::new(|session: nat| true, |session: nat| fresh())
    } else {
        let before = serve(events.drop_last());
        let (session, event) = events.last();
        before.insert(session, advance(before[session], event))
    }
}

/// The events of `events` that occurred on `session`, in order.
pub open spec fn events_on(events: Seq<(nat, EventView)>, session: nat) -> Seq<EventView>
    decreases events.len(),
{
    if events.len() == 0 {
        Seq::empty()
    } else if events.last().0 == session {
        events_on(events.drop_last(), session).push(events.last().1)
    } else {
        events_on(events.drop_last(), session)
    }
}

/// An event on one session leaves every other session as it was: nothing
/// sent on `a` shows up among the replies of `b`, and closing `a` does not
/// close `b`.
pub proof fn sessions_do_not_interfere(
    events: Seq<(nat, EventView)>,
    a: nat,
    b: nat,
    event: EventView,
)
    requires
        a != b,
    ensures
        serve(events.push((a, event))).dom().contains(b),
        serve(events).dom().contains(b),
        serve(events.push((a, event)))[b] == serve(events)[b],
{
    assert(events.push((a, event)).drop_last() =~= events);
    every_session_is_served(events, b);
}

/// Every session has a trace at all times.
pub proof fn every_session_is_served(events: Seq<(nat, EventView)>, session: nat)
    ensures
        serve(events).dom().contains(session),
    decreases events.len(),
{
    if events.len() > 0 {
        every_session_is_served(events.drop_last(), session);
    }
}

/// Among any number of interleaved sessions, each one ends up exactly where
/// it would have, had its own events been the only ones.
pub proof fn each_session_runs_alone(events: Seq<(nat, EventView)>, session: nat)
    ensures
        serve(events).dom().contains(session),
        serve(events)[session] == run(events_on(events, session)),
    decreases events.len(),
{
    every_session_is_served(events, session);
    if events.len() > 0 {
        each_session_runs_alone(events.drop_last(), session);
        if events.last().0 == session {
            let own = events_on(events, session);
            assert(own.drop_last() =~= events_on(events.drop_last(), session));
        }
    }
}

} // verus!
