//! The chat loop, as mathematics: which events it takes, the state it ends
//! in, and what it draws on the way.
//!
//! The loop takes events one by one for as long as the chat is not asked to
//! quit. Nothing here waits: the events are given as a sequence, and the loop
//! stops where the sequence ends.

use vstd::prelude::*;
use crate::event::Event;
use crate::model::{is_prefix, lemma_event_keeps_history, ChatState};
use crate::screen::{cursor_ops, frame, input_ops, op_views, DrawOp, DrawOpView};

verus! {

/// The state after every one of the events has been handled, in order.
pub open spec fn after(state: ChatState, events: Seq<Event>) -> ChatState
    decreases events.len(),
{
    if events.len() == 0 {
        state
    } else {
        after(state.on_event(events.first()), events.drop_first())
    }
}

/// The number of events that the loop takes: it stops before the first event
/// that finds the chat asked to quit, and at the end of the events.
pub open spec fn taken(state: ChatState, events: Seq<Event>) -> nat
    decreases events.len(),
{
    if state.quit_requested || events.len() == 0 {
        0
    } else {
        1 + taken(state.on_event(events.first()), events.drop_first())
    }
}

/// The state in which the loop stops.
pub open spec fn run(state: ChatState, events: Seq<Event>) -> ChatState
    decreases events.len(),
{
    if state.quit_requested || events.len() == 0 {
        state
    } else {
        run(state.on_event(events.first()), events.drop_first())
    }
}

/// What the loop draws, one frame for each event after which the chat is
/// drawn again, with the input line on `row`.
pub open spec fn redrawn(state: ChatState, events: Seq<Event>, row: u16) -> Seq<Seq<DrawOpView>>
    decreases events.len(),
{
    if state.quit_requested || events.len() == 0 {
        Seq::empty()
    } else {
        let next = state.on_event(events.first());
        let rest = redrawn(next, events.drop_first(), row);
        if state.redraws(events.first()) {
            seq![frame(next, row)] + rest
        } else {
            rest
        }
    }
}

/// What is drawn before the loop starts, in two batches: the input line, then
/// the cursor is put just behind the label.
pub open spec fn opening(state: ChatState, row: u16) -> Seq<Seq<DrawOpView>> {
    seq![input_ops(state.pending_input, row), cursor_ops(row)]
}

/// Everything that a run of the chat draws, batch by batch: the opening, then
/// what the loop draws.
pub open spec fn rendered(state: ChatState, events: Seq<Event>, row: u16) -> Seq<
    Seq<DrawOpView>,
> {
    opening(state, row) + redrawn(state, events, row)
}

/// What a list of batches of drawing operations is.
pub open spec fn batch_views(batches: Seq<Vec<DrawOp>>) -> Seq<Seq<DrawOpView>> {
    Seq::new(batches.len(), |i: int| op_views(batches[i]@))
}

/// Every one of the events types a character.
pub open spec fn all_typed(events: Seq<Event>) -> bool {
    forall|i: int| 0 <= i < events.len() ==> (#[trigger] events[i]).typed() is Some
}

/// The characters that the events type, in order.
pub open spec fn typed_text(events: Seq<Event>) -> Seq<char> {
    Seq::new(events.len(), |i: int| events[i].typed().unwrap())
}

/// After key events that each type a character, the pending input is what it
/// was, followed by those characters in order. Nothing else has changed.
pub proof fn lemma_typing_concatenates(state: ChatState, events: Seq<Event>)
    requires
        all_typed(events),
    ensures
        after(state, events).pending_input == state.pending_input + typed_text(events),
        after(state, events).history == state.history,
        after(state, events).quit_requested == state.quit_requested,
    decreases events.len(),
{
    if events.len() == 0 {
        assert(state.pending_input + typed_text(events) =~= state.pending_input);
    } else {
        let next = state.on_event(events.first());
        let rest = events.drop_first();
        assert(events[0].typed() is Some);
        assert forall|i: int| 0 <= i < rest.len() implies (#[trigger] rest[i]).typed() is Some by {
            assert(rest[i] == events[i + 1]);
        }
        lemma_typing_concatenates(next, rest);
        assert(next.pending_input + typed_text(rest) =~= state.pending_input + typed_text(
            events,
        ));
    }
}

/// The loop takes every event for as long as none leaves the chat asked to
/// quit. So a chat that is not asked to quit takes all of a sequence of events
/// that each type a character, and ends with the pending input that it had,
/// followed by those characters in order.
pub proof fn lemma_loop_types_text(state: ChatState, events: Seq<Event>)
    requires
        !state.quit_requested,
        all_typed(events),
    ensures
        taken(state, events) == events.len(),
        run(state, events) == after(state, events),
        run(state, events).pending_input == state.pending_input + typed_text(events),
    decreases events.len(),
{
    lemma_typing_concatenates(state, events);
    if events.len() > 0 {
        let next = state.on_event(events.first());
        let rest = events.drop_first();
        assert(events[0].typed() is Some);
        assert forall|i: int| 0 <= i < rest.len() implies (#[trigger] rest[i]).typed() is Some by {
            assert(rest[i] == events[i + 1]);
        }
        lemma_loop_types_text(next, rest);
    }
}

/// The loop stops in the state after the events that it took, and it took
/// them from the front.
pub proof fn lemma_run_is_after_taken(state: ChatState, events: Seq<Event>)
    ensures
        taken(state, events) <= events.len(),
        run(state, events) == after(state, events.take(taken(state, events) as int)),
    decreases events.len(),
{
    if state.quit_requested || events.len() == 0 {
        assert(events.take(0) =~= Seq::<Event>::empty());
    } else {
        let next = state.on_event(events.first());
        let rest = events.drop_first();
        lemma_run_is_after_taken(next, rest);
        let n = taken(state, events) as int;
        assert(events.take(n).first() == events.first());
        assert(events.take(n).drop_first() =~= rest.take(n - 1));
    }
}

/// A request to quit ends the loop wherever it stands among the events: the
/// loop takes no event behind it, and stops with the chat asked to quit.
pub proof fn lemma_quit_ends_loop(state: ChatState, events: Seq<Event>, at: int)
    requires
        0 <= at < events.len(),
        events[at].is_quit(),
    ensures
        taken(state, events) <= at + 1,
        run(state, events).quit_requested,
    decreases events.len(),
{
    if !state.quit_requested {
        let next = state.on_event(events.first());
        let rest = events.drop_first();
        if at == 0 {
            assert(next.quit_requested);
            assert(taken(next, rest) == 0);
            assert(run(next, rest) == next);
        } else {
            assert(rest[at - 1] == events[at]);
            lemma_quit_ends_loop(next, rest, at - 1);
        }
    }
}

/// The loop stops for one of two reasons only: the chat is asked to quit, or
/// every event was taken.
pub proof fn lemma_loop_stops(state: ChatState, events: Seq<Event>)
    ensures
        run(state, events).quit_requested || taken(state, events) == events.len(),
    decreases events.len(),
{
    if !state.quit_requested && events.len() > 0 {
        lemma_loop_stops(state.on_event(events.first()), events.drop_first());
    }
}

/// The loop only ever adds to the history, and never takes a request to quit
/// back.
pub proof fn lemma_loop_keeps_history(state: ChatState, events: Seq<Event>)
    ensures
        is_prefix(state.history, run(state, events).history),
        state.quit_requested ==> run(state, events).quit_requested,
    decreases events.len(),
{
    if state.quit_requested || events.len() == 0 {
        assert(state.history.take(state.history.len() as int) =~= state.history);
    } else {
        let next = state.on_event(events.first());
        lemma_event_keeps_history(state, events.first());
        lemma_loop_keeps_history(next, events.drop_first());
        let last = run(state, events).history;
        assert(last.take(state.history.len() as int) =~= last.take(
            next.history.len() as int,
        ).take(state.history.len() as int));
    }
}

/// The loop draws at most one frame for each event that it takes.
pub proof fn lemma_redrawn_at_most_taken(state: ChatState, events: Seq<Event>, row: u16)
    ensures
        redrawn(state, events, row).len() <= taken(state, events),
    decreases events.len(),
{
    if !state.quit_requested && events.len() > 0 {
        lemma_redrawn_at_most_taken(state.on_event(events.first()), events.drop_first(), row);
    }
}

} // verus!
