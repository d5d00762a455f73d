//! The chat itself: its state, and the key presses that change it.

use vstd::prelude::*;
use crate::chat_loop::{batch_views, opening, redrawn, rendered, run, taken};
use crate::event::{Event, KeyCode, KeyEvent};
use crate::message::{views, Message, Origin};
use crate::model::ChatState;
use crate::screen::{
    draw_cursor, draw_history, draw_input, frame, history_ops, input_ops, input_row, op_views,
    DrawOp,
};

verus! {

/// A chat: the messages so far, the text being typed, and whether the user has
/// asked to quit.
#[derive(Clone, Debug, PartialEq, Eq)]
pub struct App {
    messages: Vec<Message>,
    user_message: String,
    should_quit: bool,
}

impl View for App {
    type V = ChatState;

    closed spec fn view(&self) -> ChatState {
        ChatState {
            history: views(self.messages@),
            pending_input: self.user_message@,
            quit_requested: self.should_quit,
        }
    }
}

/// What a run of the chat over given events did.
#[derive(Clone, Debug, PartialEq, Eq)]
pub struct Rendering {
    /// What was drawn, batch by batch.
    pub batches: Vec<Vec<DrawOp>>,
    /// How many of the events were taken.
    pub taken: usize,
}

impl App {
    /// A chat in its initial state.
    pub fn new() -> (app: App)
        ensures
            app@ == ChatState::initial(),
    {
        let app = App { messages: Vec::new(), user_message: String::new(), should_quit: false };
        assert(views(app.messages@) =~= Seq::empty());
        app
    }

    /// Takes one key event and changes the chat as the event asks.
    pub fn handle_keyevent(&mut self, event: KeyEvent)
        ensures
            final(self)@ == old(self)@.on_key(event),
    {
        if event.is_quit() {
            self.should_quit = true;
        } else if let Some(c) = event.typed() {
            self.user_message.push(c);
        } else {
            match event.code {
                KeyCode::Enter => {
                    if !self.user_message.as_str().is_empty() {
                        let message = Message::new(self.user_message.clone(), Origin::User);
                        self.messages.push(message);
                        assert(views(self.messages@) =~= views(old(self).messages@).push(
                            message@,
                        ));
                    }
                    self.user_message = String::new();
                },
                KeyCode::Backspace => {
                    self.user_message.pop();
                },
                _ => {},
            }
        }
    }

    /// The operations that draw the history: every message on its own row.
    pub fn render_messsages(&self) -> (ops: Vec<DrawOp>)
        ensures
            op_views(ops@) == history_ops(self@.history),
    {
        draw_history(&self.messages)
    }

    /// The operations that draw the input line on `row`.
    pub fn render_input(&self, row: u16) -> (ops: Vec<DrawOp>)
        ensures
            op_views(ops@) == input_ops(self@.pending_input, row),
    {
        draw_input(&self.user_message, row)
    }

    /// The operations that draw the whole chat, with the input line on `row`.
    pub fn render_frame(&self, row: u16) -> (ops: Vec<DrawOp>)
        ensures
            op_views(ops@) == frame(self@, row),
    {
        let mut ops = self.render_messsages();
        let mut input = self.render_input(row);
        let ghost history = ops@;
        let ghost line = input@;
        ops.append(&mut input);
        assert(op_views(ops@) =~= op_views(history) + op_views(line));
        ops
    }

    /// Takes one input event: changes the chat as the event asks, and returns
    /// the operations that draw it again where it is to be drawn again.
    pub fn step(&mut self, event: Event, row: u16) -> (drawn: Option<Vec<DrawOp>>)
        ensures
            final(self)@ == old(self)@.on_event(event),
            drawn is Some <==> old(self)@.redraws(event),
            drawn is Some ==> op_views(drawn.unwrap()@) == frame(final(self)@, row),
    {
        match event {
            Event::Key(key) => {
                self.handle_keyevent(key);
                if self.should_quit {
                    None
                } else {
                    Some(self.render_frame(row))
                }
            },
            Event::Other => None,
        }
    }

    /// Runs the chat on a terminal of the given size over the given events:
    /// draws the opening, then takes the events one by one until the chat is
    /// asked to quit or the events end, and draws the chat again after each
    /// event that asks for it.
    pub fn render(&mut self, size: Option<(u16, u16)>, events: &Vec<Event>) -> (rendering:
        Rendering)
        ensures
            final(self)@ == run(old(self)@, events@),
            rendering.taken == taken(old(self)@, events@),
            batch_views(rendering.batches@) == rendered(old(self)@, events@, input_row(size)),
    {
        let row = input_row(size);
        let mut batches: Vec<Vec<DrawOp>> = Vec::new();
        batches.push(self.render_input(row));
        batches.push(draw_cursor(row));
        assert(batch_views(batches@) =~= opening(self@, row));
        let mut i: usize = 0;
        assert(events@.skip(0) =~= events@);
        while i < events.len() && !self.should_quit
            invariant
                i <= events.len(),
                row == input_row(size),
                run(self@, events@.skip(i as int)) == run(old(self)@, events@),
                i + taken(self@, events@.skip(i as int)) == taken(old(self)@, events@),
                batch_views(batches@) + redrawn(self@, events@.skip(i as int), row) == rendered(
                    old(self)@,
                    events@,
                    row,
                ),
            decreases events.len() - i,
        {
            let ghost before = self@;
            let ghost drawn_before = batch_views(batches@);
            let ghost rest = events@.skip(i as int);
            assert(rest.first() == events@[i as int]);
            assert(rest.drop_first() =~= events@.skip(i + 1));
            match self.step(events[i], row) {
                Some(ops) => {
                    batches.push(ops);
                    assert(batch_views(batches@) =~= drawn_before + seq![frame(self@, row)]);
                    assert(batch_views(batches@) + redrawn(self@, events@.skip(i + 1), row)
                        =~= drawn_before + redrawn(before, rest, row));
                },
                None => {},
            }
            i += 1;
        }
        Rendering { batches, taken: i }
    }

    /// The messages so far, oldest first.
    pub fn messages(&self) -> (messages: &Vec<Message>)
        ensures
            views(messages@) == self@.history,
    {
        &self.messages
    }

    /// The text typed since the last commit.
    pub fn user_message(&self) -> (text: &String)
        ensures
            text@ == self@.pending_input,
    {
        &self.user_message
    }

    /// Whether the user has asked to quit.
    pub fn should_quit(&self) -> (quit: bool)
        ensures
            quit == self@.quit_requested,
    {
        self.should_quit
    }
}

} // verus!
