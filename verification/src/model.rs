//! The state of a chat and how input events change it, as mathematics.

use vstd::prelude::*;
use crate::event::{Event, KeyCode, KeyEvent};
use crate::message::{MessageView, Origin};

verus! {

/// The state of a chat.
pub struct ChatState {
    /// The messages committed so far, oldest first.
    pub history: Seq<MessageView>,
    /// The text typed since the last commit.
    pub pending_input: Seq<char>,
    /// Whether the user has asked to quit.
    pub quit_requested: bool,
}

impl ChatState {
    /// The state a chat starts in: nothing said, nothing typed, not quitting.
    pub open spec fn initial() -> ChatState {
        ChatState { history: Seq::empty(), pending_input: Seq::empty(), quit_requested: false }
    }

    /// The state after the user asks to quit.
    pub open spec fn quit(self) -> ChatState {
        ChatState { quit_requested: true, ..self }
    }

    /// The state after the character `c` is typed.
    pub open spec fn type_char(self, c: char) -> ChatState {
        ChatState { pending_input: self.pending_input.push(c), ..self }
    }

    /// The state after the pending input is committed: a pending input that is
    /// not empty becomes a message of the user at the end of the history, and
    /// the pending input is empty afterwards in either case.
    pub open spec fn commit(self) -> ChatState {
        ChatState {
            history: if self.pending_input.len() > 0 {
                self.history.push(
                    MessageView { content: self.pending_input, origin: Origin::User },
                )
            } else {
                self.history
            },
            pending_input: Seq::empty(),
            ..self
        }
    }

    /// The state after the last character of the pending input is erased, if
    /// it has one.
    pub open spec fn erase(self) -> ChatState {
        ChatState {
            pending_input: if self.pending_input.len() > 0 {
                self.pending_input.drop_last()
            } else {
                self.pending_input
            },
            ..self
        }
    }

    /// The state after a key event. The first of these that applies decides:
    /// a request to quit, a typed character, Enter, Backspace. Any other key
    /// changes nothing.
    pub open spec fn on_key(self, key: KeyEvent) -> ChatState {
        if key.is_quit() {
            self.quit()
        } else if key.typed() is Some {
            self.type_char(key.typed().unwrap())
        } else if key.code == KeyCode::Enter {
            self.commit()
        } else if key.code == KeyCode::Backspace {
            self.erase()
        } else {
            self
        }
    }

    /// The state after an input event: only key events change it.
    pub open spec fn on_event(self, event: Event) -> ChatState {
        match event {
            Event::Key(key) => self.on_key(key),
            Event::Other => self,
        }
    }

    /// Whether the chat is drawn again after an input event: after every key
    /// event but one that leaves the chat asked to quit.
    pub open spec fn redraws(self, event: Event) -> bool {
        event is Key && !self.on_event(event).quit_requested
    }
}

/// `shorter` is the beginning of `longer`.
pub open spec fn is_prefix<T>(shorter: Seq<T>, longer: Seq<T>) -> bool {
    shorter.len() <= longer.len() && longer.take(shorter.len() as int) == shorter
}

/// A key event that types a character adds it at the end of the pending input
/// and changes nothing else.
pub proof fn lemma_typing_appends(state: ChatState, key: KeyEvent, c: char)
    requires
        key.typed() == Some(c),
    ensures
        state.on_key(key).pending_input == state.pending_input.push(c),
        state.on_key(key).history == state.history,
        state.on_key(key).quit_requested == state.quit_requested,
{
}

/// Backspace on an empty pending input changes nothing.
pub proof fn lemma_backspace_on_empty(state: ChatState, key: KeyEvent)
    requires
        key.code == KeyCode::Backspace,
        state.pending_input.len() == 0,
    ensures
        state.on_key(key) == state,
{
}

/// Backspace on a pending input that is not empty removes its last character
/// and changes nothing else.
pub proof fn lemma_backspace_erases(state: ChatState, key: KeyEvent)
    requires
        key.code == KeyCode::Backspace,
        state.pending_input.len() > 0,
    ensures
        state.on_key(key).pending_input == state.pending_input.drop_last(),
        state.on_key(key).history == state.history,
        state.on_key(key).quit_requested == state.quit_requested,
{
}

/// Enter with a pending input that is not empty adds exactly one message at
/// the end of the history, with the pending input as its text and the user as
/// its origin, and empties the pending input.
pub proof fn lemma_enter_commits(state: ChatState, key: KeyEvent)
    requires
        key.code == KeyCode::Enter,
        state.pending_input.len() > 0,
    ensures
        state.on_key(key).history == state.history.push(
            MessageView { content: state.pending_input, origin: Origin::User },
        ),
        state.on_key(key).history.len() == state.history.len() + 1,
        state.on_key(key).pending_input == Seq::<char>::empty(),
        state.on_key(key).quit_requested == state.quit_requested,
{
}

/// Enter with an empty pending input adds nothing to the history and leaves
/// the pending input empty.
pub proof fn lemma_enter_on_empty(state: ChatState, key: KeyEvent)
    requires
        key.code == KeyCode::Enter,
        state.pending_input.len() == 0,
    ensures
        state.on_key(key).history == state.history,
        state.on_key(key).pending_input == Seq::<char>::empty(),
        state.on_key(key).quit_requested == state.quit_requested,
{
}

/// A request to quit is taken in every state: the chat is asked to quit
/// afterwards, and nothing else has changed.
pub proof fn lemma_quit_key(state: ChatState, key: KeyEvent)
    requires
        key.is_quit(),
    ensures
        state.on_key(key).quit_requested,
        state.on_key(key).history == state.history,
        state.on_key(key).pending_input == state.pending_input,
{
}

/// No event takes a message out of the history or changes one: the history
/// before an event is the beginning of the history after it. And no event
/// takes a request to quit back.
pub proof fn lemma_event_keeps_history(state: ChatState, event: Event)
    ensures
        is_prefix(state.history, state.on_event(event).history),
        state.quit_requested ==> state.on_event(event).quit_requested,
{
    let next = state.on_event(event);
    assert(next.history.take(state.history.len() as int) =~= state.history);
}

} // verus!
