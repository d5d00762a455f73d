//! A picture of the screen, to say what drawing operations show.
//!
//! The picture is an idealised terminal: a grid of cells without edges, in
//! which every character takes one cell and printing never starts a new line.

use vstd::prelude::*;
use crate::model::ChatState;
use crate::screen::{frame, history_ops, lemma_history_lines, Color, DrawOpView};

verus! {

/// What one cell of the screen shows.
pub struct Cell {
    pub glyph: char,
    /// The colour of the glyph, where it was printed in one.
    pub color: Option<Color>,
}

/// A place on the screen.
pub struct Place {
    pub column: int,
    pub row: int,
}

/// The screen: what its cells show, and where the cursor is. A place that
/// `cells` does not hold is blank.
pub struct Canvas {
    pub cells: Map<Place, Cell>,
    pub cursor: Place,
}

impl Canvas {
    /// What the screen shows at a place, `None` where it is blank.
    pub open spec fn look(self, place: Place) -> Option<Cell> {
        if self.cells.dom().contains(place) {
            Some(self.cells[place])
        } else {
            None
        }
    }

    /// The screen with the cursor at a place.
    pub open spec fn move_to(self, place: Place) -> Canvas {
        Canvas { cursor: place, ..self }
    }

    /// The screen with the cursor's line blank.
    pub open spec fn clear_line(self) -> Canvas {
        Canvas {
            cells: Map::new(
                |place: Place| self.cells.dom().contains(place) && place.row != self.cursor.row,
                |place: Place| self.cells[place],
            ),
            ..self
        }
    }

    /// Whether printing `length` characters at the cursor writes to a place.
    pub open spec fn covers(self, length: nat, place: Place) -> bool {
        place.row == self.cursor.row && self.cursor.column <= place.column < self.cursor.column
            + length
    }

    /// The character that printing `text` at the cursor puts at a place it
    /// writes to.
    pub open spec fn glyph_at(self, text: Seq<char>, place: Place) -> char {
        text[place.column - self.cursor.column]
    }

    /// The screen after a text is printed at the cursor: its characters stand
    /// in the cells from the cursor on, and the cursor is behind the last.
    pub open spec fn print(self, text: Seq<char>, color: Option<Color>) -> Canvas {
        Canvas {
            cells: Map::new(
                |place: Place| self.cells.dom().contains(place) || self.covers(text.len(), place),
                |place: Place|
                    if self.covers(text.len(), place) {
                        Cell { glyph: self.glyph_at(text, place), color }
                    } else {
                        self.cells[place]
                    },
            ),
            cursor: Place { column: self.cursor.column + text.len(), row: self.cursor.row },
        }
    }

    /// The screen after one drawing operation.
    pub open spec fn draw(self, op: DrawOpView) -> Canvas {
        match op {
            DrawOpView::MoveTo { column, row } => self.move_to(
                Place { column: column as int, row: row as int },
            ),
            DrawOpView::ClearLine => self.clear_line(),
            DrawOpView::PrintStyled { text, color } => self.print(text, Some(color)),
            DrawOpView::Print { text } => self.print(text, None),
        }
    }

    /// The screen after a list of drawing operations, done in order.
    pub open spec fn paint(self, ops: Seq<DrawOpView>) -> Canvas
        decreases ops.len(),
    {
        if ops.len() == 0 {
            self
        } else {
            self.paint(ops.drop_last()).draw(ops.last())
        }
    }

    /// Two screens show the same, with the cursor at the same place.
    pub open spec fn same_picture(self, other: Canvas) -> bool {
        &&& self.cursor == other.cursor
        &&& forall|place: Place| #[trigger] self.look(place) == other.look(place)
    }
}

/// One operation draws on two screens alike, where their cursors are at the
/// same place or the operation places the cursor: the cursors are at the same
/// place afterwards, and a place shows the same on both unless the operation
/// left it as it was on both.
pub proof fn lemma_draw_forgets(first: Canvas, second: Canvas, op: DrawOpView, place: Place)
    requires
        first.cursor == second.cursor || op is MoveTo,
    ensures
        first.draw(op).cursor == second.draw(op).cursor,
        first.draw(op).look(place) == second.draw(op).look(place) || (first.draw(op).look(place)
            == first.look(place) && second.draw(op).look(place) == second.look(place)),
{
    match op {
        DrawOpView::MoveTo { column, row } => {},
        DrawOpView::ClearLine => {},
        DrawOpView::PrintStyled { text, color } => {
            assert(first.covers(text.len(), place) == second.covers(text.len(), place));
        },
        DrawOpView::Print { text } => {
            assert(first.covers(text.len(), place) == second.covers(text.len(), place));
        },
    }
}

/// Operations that start by placing the cursor paint every screen alike: on
/// any two screens they leave the cursor at the same place, and at each place
/// they either leave both screens as they were or show the same on both.
pub proof fn lemma_paint_forgets(first: Canvas, second: Canvas, ops: Seq<DrawOpView>)
    requires
        first.cursor == second.cursor || (ops.len() > 0 && ops[0] is MoveTo),
    ensures
        first.paint(ops).cursor == second.paint(ops).cursor,
        forall|place: Place|
            {
                ||| #[trigger] first.paint(ops).look(place) == second.paint(ops).look(place)
                ||| (first.paint(ops).look(place) == first.look(place) && second.paint(ops).look(
                    place,
                ) == second.look(place))
            },
    decreases ops.len(),
{
    if ops.len() > 0 {
        let front = ops.drop_last();
        let op = ops.last();
        if front.len() > 0 {
            assert(front[0] == ops[0]);
            lemma_paint_forgets(first, second, front);
        }
        let one = first.paint(front);
        let two = second.paint(front);
        lemma_draw_forgets(one, two, op, one.cursor);
        assert forall|place: Place|
            {
                ||| #[trigger] first.paint(ops).look(place) == second.paint(ops).look(place)
                ||| (first.paint(ops).look(place) == first.look(place) && second.paint(ops).look(
                    place,
                ) == second.look(place))
            } by {
            assert(one.look(place) == two.look(place) || (one.look(place) == first.look(place)
                && two.look(place) == second.look(place)));
            lemma_draw_forgets(one, two, op, place);
        }
    }
}

/// Painting operations that start by placing the cursor a second time changes
/// nothing: the screen shows what it showed after the first time.
pub proof fn lemma_paint_twice(canvas: Canvas, ops: Seq<DrawOpView>)
    requires
        ops.len() > 0,
        ops[0] is MoveTo,
    ensures
        canvas.paint(ops).paint(ops).same_picture(canvas.paint(ops)),
{
    lemma_paint_forgets(canvas.paint(ops), canvas, ops);
}

/// Drawing a chat is idempotent: on any screen, drawing the same chat again
/// shows what the first drawing showed.
pub proof fn lemma_redraw_is_idempotent(canvas: Canvas, state: ChatState, row: u16)
    ensures
        canvas.paint(frame(state, row)).paint(frame(state, row)).same_picture(
            canvas.paint(frame(state, row)),
        ),
{
    let ops = frame(state, row);
    lemma_history_lines(state.history);
    if state.history.len() > 0 {
        assert(ops[0] == history_ops(state.history)[3 * 0int]);
    }
    lemma_paint_twice(canvas, ops);
}

} // verus!
