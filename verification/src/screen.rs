//! What is drawn: the operations that put a chat on the screen.
//!
//! Every message has a line of its own, the line whose number is the message's
//! place in the history. The input line shows the text being typed. A line
//! starts with a coloured label that tells who wrote it.

use vstd::prelude::*;
use crate::message::{views, Message, MessageView, Origin};
use crate::model::ChatState;

verus! {

/// The colour of a label.
#[derive(Clone, Copy, Debug, PartialEq, Eq)]
pub enum Color {
    Blue,
    Green,
}

/// What a drawing operation is.
pub enum DrawOpView {
    MoveTo { column: u16, row: u16 },
    ClearLine,
    PrintStyled { text: Seq<char>, color: Color },
    Print { text: Seq<char> },
}

/// One drawing operation.
#[derive(Clone, Debug, PartialEq, Eq)]
pub enum DrawOp {
    /// Move the cursor to a column and a row, both counted from zero.
    MoveTo { column: u16, row: u16 },
    /// Clear the line that the cursor is on.
    ClearLine,
    /// Print a text in a colour at the cursor.
    PrintStyled { text: String, color: Color },
    /// Print a text without styling at the cursor.
    Print { text: String },
}

impl View for DrawOp {
    type V = DrawOpView;

    open spec fn view(&self) -> DrawOpView {
        match *self {
            DrawOp::MoveTo { column, row } => DrawOpView::MoveTo { column, row },
            DrawOp::ClearLine => DrawOpView::ClearLine,
            DrawOp::PrintStyled { text, color } => DrawOpView::PrintStyled { text: text@, color },
            DrawOp::Print { text } => DrawOpView::Print { text: text@ },
        }
    }
}

/// What a list of drawing operations is: what each of them is, in the same
/// order.
pub open spec fn op_views(ops: Seq<DrawOp>) -> Seq<DrawOpView> {
    Seq::new(ops.len(), |i: int| ops[i]@)
}

/// The text of the label of a line.
pub open spec fn label_text(origin: Origin) -> Seq<char> {
    match origin {
        Origin::User => "You: "@,
        Origin::Assistant => "Assistant: "@,
    }
}

/// The colour of the label of a line.
pub open spec fn label_color(origin: Origin) -> Color {
    match origin {
        Origin::User => Color::Blue,
        Origin::Assistant => Color::Green,
    }
}

/// The operation that prints the label of a line.
pub open spec fn label_op(origin: Origin) -> DrawOpView {
    DrawOpView::PrintStyled { text: label_text(origin), color: label_color(origin) }
}

/// The row of the message at place `index` of the history. Rows are 16 bits
/// wide, so the places from 65536 on start again at row 0.
pub open spec fn message_row(index: int) -> u16 {
    (index % 0x1_0000) as u16
}

/// The operations that draw one message: at the start of its row, its label,
/// then its whole text.
pub open spec fn message_ops(index: int, message: MessageView) -> Seq<DrawOpView> {
    seq![
        DrawOpView::MoveTo { column: 0, row: message_row(index) },
        label_op(message.origin),
        DrawOpView::Print { text: message.content },
    ]
}

/// The operations that draw a history: those of each message, from the first
/// message to the last.
pub open spec fn history_ops(history: Seq<MessageView>) -> Seq<DrawOpView>
    decreases history.len(),
{
    if history.len() == 0 {
        Seq::empty()
    } else {
        history_ops(history.drop_last()) + message_ops(history.len() - 1, history.last())
    }
}

/// The operations that draw the input line on `row`: the line is cleared, then
/// the user's label and the pending input are printed from its start.
pub open spec fn input_ops(pending_input: Seq<char>, row: u16) -> Seq<DrawOpView> {
    seq![
        DrawOpView::MoveTo { column: 0, row },
        DrawOpView::ClearLine,
        label_op(Origin::User),
        DrawOpView::Print { text: pending_input },
    ]
}

/// The column just behind the user's label.
pub const INPUT_COLUMN: u16 = 5;

/// The operation that puts the cursor on the input line on `row`, just behind
/// the label.
pub open spec fn cursor_ops(row: u16) -> Seq<DrawOpView> {
    seq![DrawOpView::MoveTo { column: INPUT_COLUMN, row }]
}

/// The operations that draw a whole chat, with the input line on `row`: the
/// history first, then the input line.
pub open spec fn frame(state: ChatState, row: u16) -> Seq<DrawOpView> {
    history_ops(state.history) + input_ops(state.pending_input, row)
}

/// The row of the input line on a terminal of the given size (columns, then
/// rows): the last row but one, and row 0 where there are fewer than two rows
/// or the size is not known.
pub open spec fn spec_input_row(size: Option<(u16, u16)>) -> u16 {
    match size {
        Some((_, rows)) => if rows >= 2 {
            (rows - 2) as u16
        } else {
            0
        },
        None => 0,
    }
}

/// The row of the input line on a terminal of the given size (columns, then
/// rows). `None` stands for a size that could not be measured.
#[verifier::when_used_as_spec(spec_input_row)]
pub fn input_row(size: Option<(u16, u16)>) -> (row: u16)
    ensures
        row == spec_input_row(size),
{
    match size {
        Some((_, rows)) => if rows >= 2 {
            rows - 2
        } else {
            0
        },
        None => 0,
    }
}

/// The operation that prints the label of a line.
pub fn draw_label(origin: Origin) -> (op: DrawOp)
    ensures
        op@ == label_op(origin),
{
    match origin {
        Origin::User => DrawOp::PrintStyled { text: "You: ".to_owned(), color: Color::Blue },
        Origin::Assistant => DrawOp::PrintStyled {
            text: "Assistant: ".to_owned(),
            color: Color::Green,
        },
    }
}

/// The operations that draw a history.
pub fn draw_history(messages: &Vec<Message>) -> (ops: Vec<DrawOp>)
    ensures
        op_views(ops@) == history_ops(views(messages@)),
{
    let mut ops: Vec<DrawOp> = Vec::new();
    let mut i: usize = 0;
    assert(views(messages@).take(0) =~= Seq::empty());
    while i < messages.len()
        invariant
            i <= messages.len(),
            op_views(ops@) == history_ops(views(messages@).take(i as int)),
        decreases messages.len() - i,
    {
        let message = &messages[i];
        let ghost before = op_views(ops@);
        ops.push(DrawOp::MoveTo { column: 0, row: (i % 0x1_0000) as u16 });
        ops.push(draw_label(message.origin()));
        ops.push(DrawOp::Print { text: message.content().clone() });
        proof {
            let seen = views(messages@).take(i + 1);
            assert(seen.drop_last() =~= views(messages@).take(i as int));
            assert(seen.last() == message@);
            assert(op_views(ops@) =~= before + message_ops(i as int, message@));
        }
        i += 1;
    }
    assert(views(messages@).take(i as int) =~= views(messages@));
    ops
}

/// The operations that draw the input line on `row`.
pub fn draw_input(pending_input: &String, row: u16) -> (ops: Vec<DrawOp>)
    ensures
        op_views(ops@) == input_ops(pending_input@, row),
{
    let mut ops: Vec<DrawOp> = Vec::new();
    ops.push(DrawOp::MoveTo { column: 0, row });
    ops.push(DrawOp::ClearLine);
    ops.push(draw_label(Origin::User));
    ops.push(DrawOp::Print { text: pending_input.clone() });
    assert(op_views(ops@) =~= input_ops(pending_input@, row));
    ops
}

/// The operation that puts the cursor on the input line on `row`, just behind
/// the label.
pub fn draw_cursor(row: u16) -> (ops: Vec<DrawOp>)
    ensures
        op_views(ops@) == cursor_ops(row),
{
    let mut ops: Vec<DrawOp> = Vec::new();
    ops.push(DrawOp::MoveTo { column: INPUT_COLUMN, row });
    assert(op_views(ops@) =~= cursor_ops(row));
    ops
}

/// The column that the cursor is put in is the first one behind the user's
/// label.
pub proof fn lemma_input_column_follows_label()
    ensures
        INPUT_COLUMN == label_text(Origin::User).len(),
{
    reveal_strlit("You: ");
}

/// A history is drawn as one line for each message and nothing else: three
/// operations for the message at each place, which move to the start of the
/// row of that place, print the label of the message, and print its text.
pub proof fn lemma_history_lines(history: Seq<MessageView>)
    ensures
        history_ops(history).len() == 3 * history.len(),
        forall|i: int|
            0 <= i < history.len() ==> {
                &&& #[trigger] history_ops(history)[3 * i] == (DrawOpView::MoveTo {
                    column: 0,
                    row: message_row(i),
                })
                &&& history_ops(history)[3 * i + 1] == label_op(history[i].origin)
                &&& history_ops(history)[3 * i + 2] == (DrawOpView::Print {
                    text: history[i].content,
                })
            },
    decreases history.len(),
{
    if history.len() > 0 {
        let front = history.drop_last();
        lemma_history_lines(front);
        assert forall|i: int| 0 <= i < history.len() implies {
            &&& #[trigger] history_ops(history)[3 * i] == (DrawOpView::MoveTo {
                column: 0,
                row: message_row(i),
            })
            &&& history_ops(history)[3 * i + 1] == label_op(history[i].origin)
            &&& history_ops(history)[3 * i + 2] == (DrawOpView::Print { text: history[i].content })
        } by {
            if i < front.len() {
                assert(front[i] == history[i]);
                assert(history_ops(front)[3 * i] == history_ops(history)[3 * i]);
            }
        }
    }
}

/// The row of a message is its place in the history, for every place that a
/// row number can hold.
pub proof fn lemma_message_row_is_place(index: int)
    requires
        0 <= index < 0x1_0000,
    ensures
        message_row(index) == index,
{
}

/// What is drawn of a chat follows from its history, its pending input and the
/// row of the input line, and from nothing else: two chats that agree in these
/// are drawn by the same operations, whenever and however often they are
/// drawn.
pub proof fn lemma_frame_follows_state(first: ChatState, second: ChatState, row: u16)
    requires
        first.history == second.history,
        first.pending_input == second.pending_input,
    ensures
        frame(first, row) == frame(second, row),
{
}

} // verus!
