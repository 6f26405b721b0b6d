//! The mathematical model of a generation: what a grid is, which squares
//! surround a square once the edges are joined, what the next generation is
//! and how a generation is written out as text.

use crate::cell::Cell;
use vstd::prelude::*;

verus! {

/// One generation of the game: the dimensions of the grid and the state of
/// every square, row after row.
pub struct Grid {
    pub width: nat,
    pub height: nat,
    pub cells: Seq<Cell>,
}

impl Grid {
    /// Both dimensions are positive and there is one cell for every square.
    pub open spec fn wf(self) -> bool {
        &&& self.width > 0
        &&& self.height > 0
        &&& self.cells.len() == self.width * self.height
    }

    /// `(row, column)` names a square of the grid.
    pub open spec fn contains(self, row: int, column: int) -> bool {
        0 <= row < self.height && 0 <= column < self.width
    }

    /// The position in `cells` of the square at `(row, column)`.
    pub open spec fn index(self, row: int, column: int) -> int {
        row * self.width + column
    }

    /// The state of the square at `(row, column)`.
    pub open spec fn at(self, row: int, column: int) -> Cell {
        self.cells[self.index(row, column)]
    }

    /// The row reached from `row` by going `delta` rows down, past the last
    /// row back to the first.
    pub open spec fn wrap_row(self, row: int, delta: int) -> int {
        (row + delta) % (self.height as int)
    }

    /// The column reached from `column` by going `delta` columns to the
    /// right, past the last column back to the first.
    pub open spec fn wrap_column(self, column: int, delta: int) -> int {
        (column + delta) % (self.width as int)
    }

    /// The row above `row`. A step up is a step of `height - 1` rows down.
    pub open spec fn up(self, row: int) -> int {
        self.wrap_row(row, self.height - 1)
    }

    /// The row below `row`.
    pub open spec fn down(self, row: int) -> int {
        self.wrap_row(row, 1)
    }

    /// The column to the left of `column`. A step to the left is a step of
    /// `width - 1` columns to the right.
    pub open spec fn left(self, column: int) -> int {
        self.wrap_column(column, self.width - 1)
    }

    /// The column to the right of `column`.
    pub open spec fn right(self, column: int) -> int {
        self.wrap_column(column, 1)
    }

    /// The number of live cells among the eight squares around
    /// `(row, column)`: the three in the row above, the one to the left, the
    /// one to the right and the three in the row below. The square itself is
    /// not one of the eight places, but in a grid of a single row or column
    /// some of them lead back to it, and then it counts as often as it is
    /// reached.
    pub open spec fn live_neighbors(self, row: int, column: int) -> int {
        self.at(self.up(row), self.left(column)).weight()
            + self.at(self.up(row), column).weight()
            + self.at(self.up(row), self.right(column)).weight()
            + self.at(row, self.left(column)).weight()
            + self.at(row, self.right(column)).weight()
            + self.at(self.down(row), self.left(column)).weight()
            + self.at(self.down(row), column).weight()
            + self.at(self.down(row), self.right(column)).weight()
    }

    /// The state of the square at `(row, column)` in the next generation.
    pub open spec fn successor_at(self, row: int, column: int) -> Cell {
        self.at(row, column).successor(self.live_neighbors(row, column))
    }

    /// The next generation. Every square of it is decided by this generation
    /// alone.
    pub open spec fn step(self) -> Grid {
        Grid {
            width: self.width,
            height: self.height,
            cells: Seq::new(
                self.cells.len(),
                |i: int| self.successor_at(i / (self.width as int), i % (self.width as int)),
            ),
        }
    }

    /// The text of one row: a glyph for every square, then a line break.
    pub open spec fn line(self, row: int) -> Seq<char> {
        Seq::new(self.width, |column: int| self.at(row, column).glyph()).push('\n')
    }

    /// The text of the first `rows` rows.
    pub open spec fn lines(self, rows: int) -> Seq<char>
        decreases rows,
    {
        if rows <= 0 {
            Seq::empty()
        } else {
            self.lines(rows - 1) + self.line(rows - 1)
        }
    }

    /// The text of the whole grid.
    pub open spec fn rendering(self) -> Seq<char> {
        self.lines(self.height as int)
    }
}

/// The state in which square number `i` of a fresh grid starts.
pub open spec fn seed(i: int) -> Cell {
    if i % 2 == 0 || i % 7 == 0 {
        Cell::Alive
    } else {
        Cell::Dead
    }
}

/// The grid of the given dimensions in which every square is in its starting
/// state.
pub open spec fn seeded(width: nat, height: nat) -> Grid {
    Grid { width, height, cells: Seq::new(width * height, |i: int| seed(i)) }
}

} // verus!
