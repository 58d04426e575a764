//! The cursor: a cell of the screen, and how it moves.
//!
//! Columns and rows count from 0 and stop at `u16::MAX`. A move changes one
//! of the two by one and stays where it is at either end.

use vstd::prelude::*;

verus! {

/// The four ways the cursor moves.
#[derive(Clone, Copy, Debug, PartialEq, Eq, Structural)]
pub enum Direction {
    Up,
    Down,
    Left,
    Right,
}

/// A cell of the screen, by column and row.
pub struct Position {
    pub column: int,
    pub row: int,
}

/// `n - 1`, and 0 where that would be negative.
pub open spec fn one_less(n: int) -> int {
    if n > 0 {
        n - 1
    } else {
        0
    }
}

/// `n + 1`, and `u16::MAX` where that would be more.
pub open spec fn one_more(n: int) -> int {
    if n < u16::MAX {
        n + 1
    } else {
        u16::MAX as int
    }
}

impl Position {
    /// Both coordinates are in the range of the screen's cells.
    pub open spec fn on_grid(self) -> bool {
        0 <= self.column <= u16::MAX && 0 <= self.row <= u16::MAX
    }

    /// The cell one step from this one in `direction`.
    pub open spec fn moved(self, direction: Direction) -> Position {
        match direction {
            Direction::Up => Position { row: one_less(self.row), ..self },
            Direction::Down => Position { row: one_more(self.row), ..self },
            Direction::Left => Position { column: one_less(self.column), ..self },
            Direction::Right => Position { column: one_more(self.column), ..self },
        }
    }

    /// The first cell of the row below this one.
    pub open spec fn next_line(self) -> Position {
        Position { column: 0, row: one_more(self.row) }
    }

    /// The cell reached from this one by the moves of `path`, in order.
    pub open spec fn walked(self, path: Seq<Direction>) -> Position
        decreases path.len(),
    {
        if path.len() == 0 {
            self
        } else {
            self.walked(path.drop_last()).moved(path.last())
        }
    }
}

/// Whatever the moves, the cursor stays on the grid: neither coordinate is
/// ever negative, and neither passes `u16::MAX`.
pub proof fn lemma_walk_stays_on_grid(start: Position, path: Seq<Direction>)
    requires
        start.on_grid(),
    ensures
        start.walked(path).on_grid(),
        start.walked(path).column >= 0,
        start.walked(path).row >= 0,
    decreases path.len(),
{
    if path.len() > 0 {
        lemma_walk_stays_on_grid(start, path.drop_last());
    }
}

} // verus!
