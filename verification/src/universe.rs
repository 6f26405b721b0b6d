//! The grid that the game is played on, and its three operations:
//! construction, the step to the next generation and the rendering as text.

use crate::cell::Cell;
use crate::grid::{seed, seeded, Grid};
use crate::laws::{lemma_index_in_range, lemma_index_inverse};
use vstd::prelude::*;

verus! {

/// A grid of cells whose edges are joined to the opposite edges. The
/// dimensions are fixed when the universe is made; the cells are kept in one
/// sequence, row after row.
pub struct Universe {
    width: u32,
    height: u32,
    cells: Vec<Cell>,
}

impl View for Universe {
    type V = Grid;

    closed spec fn view(&self) -> Grid {
        Grid { width: self.width as nat, height: self.height as nat, cells: self.cells@ }
    }
}

impl Universe {
    #[verifier::type_invariant]
    spec fn inv(&self) -> bool {
        self@.wf()
    }

    /// The universe of 64 rows by 64 columns in which every square is in its
    /// starting state.
    pub fn new() -> (universe: Universe)
        ensures
            universe@ == seeded(64, 64),
            universe@.wf(),
    {
        let width: u32 = 64;
        let height: u32 = 64;
        let mut cells: Vec<Cell> = Vec::new();
        let mut i: u32 = 0;
        while i < width * height
            invariant
                width == 64,
                height == 64,
                i <= width * height,
                cells@.len() == i,
                forall|k: int| 0 <= k < i ==> cells@[k] == seed(k),
            decreases width * height - i,
        {
            let cell = if i % 2 == 0 || i % 7 == 0 {
                Cell::Alive
            } else {
                Cell::Dead
            };
            cells.push(cell);
            i += 1;
        }
        assert(cells@ =~= seeded(64, 64).cells);
        Universe { width, height, cells }
    }

    /// The universe of the given dimensions that holds the given cells, row
    /// after row. There is none if a dimension is zero or if the number of
    /// cells is not the product of the dimensions.
    pub fn from_cells(width: u32, height: u32, cells: Vec<Cell>) -> (universe: Option<Universe>)
        ensures
            match universe {
                Some(u) => u@.wf() && u@.width == width && u@.height == height && u@.cells == cells@,
                None => width == 0 || height == 0 || cells@.len() != width * height,
            },
    {
        if width == 0 || height == 0 {
            return None;
        }
        assert(width * height <= u64::MAX) by (nonlinear_arith)
            requires
                width <= u32::MAX,
                height <= u32::MAX,
        ;
        let squares: u64 = (width as u64) * (height as u64);
        if cells.len() as u64 != squares {
            return None;
        }
        Some(Universe { width, height, cells })
    }

    /// The number of columns.
    pub fn width(&self) -> (width: u32)
        ensures
            width == self@.width,
            self@.wf(),
    {
        proof {
            use_type_invariant(self);
        }
        self.width
    }

    /// The number of rows.
    pub fn height(&self) -> (height: u32)
        ensures
            height == self@.height,
            self@.wf(),
    {
        proof {
            use_type_invariant(self);
        }
        self.height
    }

    /// The cells, row after row: there is one for every square.
    pub fn cells(&self) -> (cells: &[Cell])
        ensures
            cells@ == self@.cells,
            cells@.len() == self@.width * self@.height,
            self@.wf(),
    {
        proof {
            use_type_invariant(self);
        }
        self.cells.as_slice()
    }

    /// The position among the cells of the square at `(row, column)`.
    pub fn get_index(&self, row: u32, column: u32) -> (index: usize)
        requires
            self@.contains(row as int, column as int),
        ensures
            index == self@.index(row as int, column as int),
            index < self@.cells.len(),
    {
        proof {
            use_type_invariant(self);
            lemma_index_in_range(self@, row as int, column as int);
            assert(0 <= (row as int) * (self.width as int)) by (nonlinear_arith);
            assert(self.cells@.len() == self.cells.len());
        }
        (row as usize) * (self.width as usize) + (column as usize)
    }

    /// The state of the square at `(row, column)`.
    pub fn cell(&self, row: u32, column: u32) -> (cell: Cell)
        requires
            self@.contains(row as int, column as int),
        ensures
            cell == self@.at(row as int, column as int),
    {
        let index = self.get_index(row, column);
        self.cells[index]
    }

    /// The row that lies `delta` rows below `row`, counted past the last row
    /// on from the first.
    fn wrap_row(&self, row: u32, delta: u32) -> (wrapped: u32)
        ensures
            wrapped == self@.wrap_row(row as int, delta as int),
            wrapped < self@.height,
    {
        proof {
            use_type_invariant(self);
        }
        ((row as u64 + delta as u64) % (self.height as u64)) as u32
    }

    /// The column that lies `delta` columns to the right of `column`, counted
    /// past the last column on from the first.
    fn wrap_column(&self, column: u32, delta: u32) -> (wrapped: u32)
        ensures
            wrapped == self@.wrap_column(column as int, delta as int),
            wrapped < self@.width,
    {
        proof {
            use_type_invariant(self);
        }
        ((column as u64 + delta as u64) % (self.width as u64)) as u32
    }

    /// The number of live cells among the eight squares that surround
    /// `(row, column)` once the edges of the grid are joined.
    pub fn live_neighbor_count(&self, row: u32, column: u32) -> (count: u8)
        requires
            self@.contains(row as int, column as int),
        ensures
            count == self@.live_neighbors(row as int, column as int),
            count <= 8,
    {
        proof {
            use_type_invariant(self);
        }
        let up: u32 = self.wrap_row(row, self.height - 1);
        let down: u32 = self.wrap_row(row, 1);
        let left: u32 = self.wrap_column(column, self.width - 1);
        let right: u32 = self.wrap_column(column, 1);
        self.cell(up, left).count() + self.cell(up, column).count() + self.cell(up, right).count()
            + self.cell(row, left).count() + self.cell(row, right).count()
            + self.cell(down, left).count() + self.cell(down, column).count()
            + self.cell(down, right).count()
    }

    /// Advances the universe by one generation. Every square of the new
    /// generation is decided by the old generation alone: the new cells are
    /// gathered apart from the old ones and take their place at the end.
    pub fn tick(&mut self)
        ensures
            final(self)@ == old(self)@.step(),
            final(self)@.wf(),
    {
        proof {
            use_type_invariant(&*self);
        }
        let mut next = self.cells.clone();
        let mut row: u32 = 0;
        while row < self.height
            invariant
                *self == *old(self),
                self@.wf(),
                row <= self.height,
                next@.len() == self.cells@.len(),
                forall|i: int|
                    0 <= i < next@.len() && i < row * self.width ==> next@[i] == self@.step().cells[i],
            decreases self.height - row,
        {
            let mut column: u32 = 0;
            while column < self.width
                invariant
                    *self == *old(self),
                    self@.wf(),
                    row < self.height,
                    column <= self.width,
                    next@.len() == self.cells@.len(),
                    forall|i: int|
                        0 <= i < next@.len() && i < row * self.width + column ==> next@[i]
                            == self@.step().cells[i],
                decreases self.width - column,
            {
                let index = self.get_index(row, column);
                let cell = self.cells[index];
                let live_neighbors = self.live_neighbor_count(row, column);
                next.set(index, cell.next(live_neighbors));
                proof {
                    lemma_index_inverse(self@, row as int, column as int);
                }
                column += 1;
            }
            proof {
                assert((row + 1) * self.width == row * self.width + self.width) by (nonlinear_arith);
            }
            row += 1;
        }
        proof {
            assert(row * self.width == self@.width * self@.height) by (nonlinear_arith)
                requires
                    row == self@.height,
                    self.width == self@.width,
            ;
            assert(next@ =~= self@.step().cells);
        }
        self.cells = next;
    }

    /// The universe as text: a line for every row, from the first row to the
    /// last; in a line a glyph for every square, from left to right, and a
    /// line break at its end.
    pub fn render(&self) -> (text: String)
        ensures
            text@ == self@.rendering(),
    {
        proof {
            use_type_invariant(self);
        }
        let mut text = String::new();
        let mut row: u32 = 0;
        while row < self.height
            invariant
                self@.wf(),
                row <= self.height,
                text@ == self@.lines(row as int),
            decreases self.height - row,
        {
            let ghost line = self@.line(row as int);
            let mut column: u32 = 0;
            while column < self.width
                invariant
                    self@.wf(),
                    row < self.height,
                    column <= self.width,
                    line == self@.line(row as int),
                    text@ == self@.lines(row as int) + line.take(column as int),
                decreases self.width - column,
            {
                let cell = self.cell(row, column);
                text.append(cell.symbol());
                proof {
                    assert(line.take(column + 1) =~= line.take(column as int) + seq![cell.glyph()]);
                }
                column += 1;
            }
            proof {
                reveal_strlit("\n");
                assert(line =~= line.take(self.width as int) + seq!['\n']);
            }
            text.append("\n");
            row += 1;
        }
        text
    }
}

} // verus!
