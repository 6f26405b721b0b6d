//! The state of a single square and the rule that decides its future.

use vstd::prelude::*;

verus! {

/// One square of the grid: it holds a live cell or it does not.
#[derive(Clone, Copy, Debug, PartialEq, Eq, Structural)]
pub enum Cell {
    Dead,
    Alive,
}

impl Cell {
    /// What the cell adds to a count of live cells.
    pub open spec fn weight(self) -> int {
        match self {
            Cell::Alive => 1,
            Cell::Dead => 0,
        }
    }

    /// The state that follows `self` when `live_neighbors` of the surrounding
    /// squares are alive. The rules are read in order and the first that
    /// applies decides:
    ///
    /// 1. a live cell with fewer than two live neighbors dies;
    /// 2. a live cell with two or three live neighbors lives on;
    /// 3. a live cell with more than three live neighbors dies;
    /// 4. a dead cell with exactly three live neighbors comes alive;
    /// 5. any other cell stays as it is.
    pub open spec fn successor(self, live_neighbors: int) -> Cell {
        if self == Cell::Alive && live_neighbors < 2 {
            Cell::Dead
        } else if self == Cell::Alive && (live_neighbors == 2 || live_neighbors == 3) {
            Cell::Alive
        } else if self == Cell::Alive && live_neighbors > 3 {
            Cell::Dead
        } else if self == Cell::Dead && live_neighbors == 3 {
            Cell::Alive
        } else {
            self
        }
    }

    /// The character that stands for the cell in a rendering.
    pub open spec fn glyph(self) -> char {
        match self {
            Cell::Dead => '⬜',
            Cell::Alive => '🟪',
        }
    }

    /// One if the cell is alive, zero if it is dead.
    pub fn count(self) -> (n: u8)
        ensures
            n == self.weight(),
    {
        match self {
            Cell::Alive => 1,
            Cell::Dead => 0,
        }
    }

    /// Applies the rule of the game to one cell.
    pub fn next(self, live_neighbors: u8) -> (next: Cell)
        ensures
            next == self.successor(live_neighbors as int),
    {
        match self {
            Cell::Alive => {
                if live_neighbors < 2 {
                    Cell::Dead
                } else if live_neighbors <= 3 {
                    Cell::Alive
                } else {
                    Cell::Dead
                }
            },
            Cell::Dead => {
                if live_neighbors == 3 {
                    Cell::Alive
                } else {
                    Cell::Dead
                }
            },
        }
    }

    /// The cell's glyph as a string of one character.
    pub fn symbol(self) -> (s: &'static str)
        ensures
            s@ == seq![self.glyph()],
    {
        proof {
            reveal_strlit("⬜");
            reveal_strlit("🟪");
        }
        match self {
            Cell::Dead => "⬜",
            Cell::Alive => "🟪",
        }
    }
}

} // verus!
