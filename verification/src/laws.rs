//! What holds of every grid: facts about the model that the contracts of
//! [`Universe`](crate::universe::Universe) are stated over.

use crate::cell::Cell;
use crate::grid::Grid;
use vstd::arithmetic::div_mod::lemma_fundamental_div_mod_converse;
use vstd::prelude::*;

verus! {

/// Every square of a grid has a position among the cells: its index is at
/// least zero and less than the product of the dimensions.
pub proof fn lemma_index_in_range(grid: Grid, row: int, column: int)
    requires
        grid.contains(row, column),
    ensures
        0 <= grid.index(row, column) < grid.width * grid.height,
{
    let width = grid.width as int;
    let height = grid.height as int;
    assert(0 <= row * width && row * width + width <= width * height) by (nonlinear_arith)
        requires
            0 <= row < height,
            0 < width,
    ;
}

/// The row and the column of a square are the quotient and the remainder of
/// its index divided by the width.
pub proof fn lemma_index_inverse(grid: Grid, row: int, column: int)
    requires
        grid.contains(row, column),
    ensures
        grid.index(row, column) / (grid.width as int) == row,
        grid.index(row, column) % (grid.width as int) == column,
{
    lemma_fundamental_div_mod_converse(grid.index(row, column), grid.width as int, row, column);
}

/// Two squares with the same index are the same square.
pub proof fn lemma_index_injective(grid: Grid, row: int, column: int, other_row: int, other_column: int)
    requires
        grid.contains(row, column),
        grid.contains(other_row, other_column),
        grid.index(row, column) == grid.index(other_row, other_column),
    ensures
        row == other_row,
        column == other_column,
{
    lemma_index_inverse(grid, row, column);
    lemma_index_inverse(grid, other_row, other_column);
}

/// Every position among the cells is the index of a square of the grid: the
/// one whose row is the quotient and whose column is the remainder of the
/// position divided by the width.
pub proof fn lemma_index_onto(grid: Grid, i: int)
    requires
        grid.width > 0,
        0 <= i < grid.width * grid.height,
    ensures
        grid.contains(i / (grid.width as int), i % (grid.width as int)),
        grid.index(i / (grid.width as int), i % (grid.width as int)) == i,
{
    let width = grid.width as int;
    let height = grid.height as int;
    assert(i == (i / width) * width + i % width && 0 <= i % width < width && 0 <= i / width
        && i / width < height) by (nonlinear_arith)
        requires
            0 < width,
            0 <= i < width * height,
    ;
}

/// Going through the squares row by row, and through each row from left to
/// right, goes through the indices in order, from zero upward: the first
/// square has index zero, the square to the right of a square has the next
/// index, and so has the first square of the next row after the last square
/// of a row.
pub proof fn lemma_index_row_major(grid: Grid, row: int, column: int)
    requires
        grid.contains(row, column),
    ensures
        grid.index(0, 0) == 0,
        column + 1 < grid.width ==> grid.index(row, column + 1) == grid.index(row, column) + 1,
        column + 1 == grid.width ==> grid.index(row + 1, 0) == grid.index(row, column) + 1,
{
    let width = grid.width as int;
    assert((row + 1) * width == row * width + width) by (nonlinear_arith);
}

/// Around any position, in any grid, there are at least zero and at most
/// eight live neighbors.
pub proof fn lemma_live_neighbors_range(grid: Grid, row: int, column: int)
    ensures
        0 <= grid.live_neighbors(row, column) <= 8,
{
}

/// The edges of the grid are joined. The row above the first row is the last
/// row and the row below the last row is the first; the column to the left of
/// the first column is the last column and the column to the right of the
/// last column is the first. Everywhere else a step leads to the row or the
/// column next to the one it starts from.
pub proof fn lemma_toroidal_wrap(grid: Grid, row: int, column: int)
    requires
        grid.wf(),
        grid.contains(row, column),
    ensures
        grid.up(row) == (if row == 0 { grid.height - 1 } else { row - 1 }),
        grid.down(row) == (if row == grid.height - 1 { 0 } else { row + 1 }),
        grid.left(column) == (if column == 0 { grid.width - 1 } else { column - 1 }),
        grid.right(column) == (if column == grid.width - 1 { 0 } else { column + 1 }),
        grid.contains(grid.up(row), grid.left(column)),
        grid.contains(grid.down(row), grid.right(column)),
{
    let width = grid.width as int;
    let height = grid.height as int;
    if row == 0 {
        lemma_fundamental_div_mod_converse(row + height - 1, height, 0, height - 1);
    } else {
        lemma_fundamental_div_mod_converse(row + height - 1, height, 1, row - 1);
    }
    if row == height - 1 {
        lemma_fundamental_div_mod_converse(row + 1, height, 1, 0);
    } else {
        lemma_fundamental_div_mod_converse(row + 1, height, 0, row + 1);
    }
    if column == 0 {
        lemma_fundamental_div_mod_converse(column + width - 1, width, 0, width - 1);
    } else {
        lemma_fundamental_div_mod_converse(column + width - 1, width, 1, column - 1);
    }
    if column == width - 1 {
        lemma_fundamental_div_mod_converse(column + 1, width, 1, 0);
    } else {
        lemma_fundamental_div_mod_converse(column + 1, width, 0, column + 1);
    }
}

/// The eight squares around a square are those reached by the nine pairs of
/// an offset of `height - 1`, `0` or `1` rows and an offset of `width - 1`,
/// `0` or `1` columns, but for the middle pair, which leaves the square where
/// it is.
pub proof fn lemma_neighbors_by_offsets(grid: Grid, row: int, column: int)
    requires
        grid.wf(),
        grid.contains(row, column),
    ensures
        grid.wrap_row(row, 0) == row,
        grid.wrap_column(column, 0) == column,
        grid.live_neighbors(row, column) == grid.at(
            grid.wrap_row(row, grid.height - 1),
            grid.wrap_column(column, grid.width - 1),
        ).weight() + grid.at(
            grid.wrap_row(row, grid.height - 1),
            grid.wrap_column(column, 0),
        ).weight() + grid.at(
            grid.wrap_row(row, grid.height - 1),
            grid.wrap_column(column, 1),
        ).weight() + grid.at(
            grid.wrap_row(row, 0),
            grid.wrap_column(column, grid.width - 1),
        ).weight() + grid.at(grid.wrap_row(row, 0), grid.wrap_column(column, 1)).weight()
            + grid.at(grid.wrap_row(row, 1), grid.wrap_column(column, grid.width - 1)).weight()
            + grid.at(grid.wrap_row(row, 1), grid.wrap_column(column, 0)).weight() + grid.at(
            grid.wrap_row(row, 1),
            grid.wrap_column(column, 1),
        ).weight(),
{
    lemma_fundamental_div_mod_converse(row, grid.height as int, 0, row);
    lemma_fundamental_div_mod_converse(column, grid.width as int, 0, column);
}

/// The next generation of a grid is a grid of the same dimensions, with one
/// cell for every square again.
pub proof fn lemma_step_keeps_shape(grid: Grid)
    requires
        grid.wf(),
    ensures
        grid.step().wf(),
        grid.step().width == grid.width,
        grid.step().height == grid.height,
        grid.step().cells.len() == grid.cells.len(),
{
}

/// Each square of the next generation holds what the rule of the game makes
/// of the square's state and the number of its live neighbors in this
/// generation.
pub proof fn lemma_step_at(grid: Grid, row: int, column: int)
    requires
        grid.wf(),
        grid.contains(row, column),
    ensures
        grid.step().at(row, column) == grid.at(row, column).successor(
            grid.live_neighbors(row, column),
        ),
{
    lemma_index_in_range(grid, row, column);
    lemma_index_inverse(grid, row, column);
}

/// The rule of the game looks at nothing but the state of a square and the
/// number of its live neighbors: two squares, of one grid or of two, that
/// agree in both are in the same state one generation later.
pub proof fn lemma_rule_determinism(
    grid: Grid,
    row: int,
    column: int,
    other: Grid,
    other_row: int,
    other_column: int,
)
    requires
        grid.wf(),
        grid.contains(row, column),
        other.wf(),
        other.contains(other_row, other_column),
        grid.at(row, column) == other.at(other_row, other_column),
        grid.live_neighbors(row, column) == other.live_neighbors(other_row, other_column),
    ensures
        grid.step().at(row, column) == other.step().at(other_row, other_column),
{
    lemma_step_at(grid, row, column);
    lemma_step_at(other, other_row, other_column);
}

/// A cell is alive in the next generation exactly if it has three live
/// neighbors, or is alive and has two.
pub proof fn lemma_alive_next(grid: Grid, row: int, column: int)
    requires
        grid.wf(),
        grid.contains(row, column),
    ensures
        grid.step().at(row, column) == Cell::Alive <==> grid.live_neighbors(row, column) == 3 || (
        grid.at(row, column) == Cell::Alive && grid.live_neighbors(row, column) == 2),
{
    lemma_step_at(grid, row, column);
}

/// Underpopulation: a live cell with no live neighbor, or with one, is dead
/// in the next generation.
pub proof fn lemma_underpopulation(grid: Grid, row: int, column: int)
    requires
        grid.wf(),
        grid.contains(row, column),
        grid.at(row, column) == Cell::Alive,
        grid.live_neighbors(row, column) < 2,
    ensures
        grid.step().at(row, column) == Cell::Dead,
{
    lemma_step_at(grid, row, column);
}

/// Stasis: a live cell with two live neighbors, or with three, is alive in
/// the next generation.
pub proof fn lemma_stasis(grid: Grid, row: int, column: int)
    requires
        grid.wf(),
        grid.contains(row, column),
        grid.at(row, column) == Cell::Alive,
        grid.live_neighbors(row, column) == 2 || grid.live_neighbors(row, column) == 3,
    ensures
        grid.step().at(row, column) == Cell::Alive,
{
    lemma_step_at(grid, row, column);
}

/// Overpopulation: a live cell with four live neighbors or more is dead in
/// the next generation.
pub proof fn lemma_overpopulation(grid: Grid, row: int, column: int)
    requires
        grid.wf(),
        grid.contains(row, column),
        grid.at(row, column) == Cell::Alive,
        grid.live_neighbors(row, column) >= 4,
    ensures
        grid.step().at(row, column) == Cell::Dead,
{
    lemma_step_at(grid, row, column);
}

/// Reproduction: a dead cell with exactly three live neighbors is alive in
/// the next generation.
pub proof fn lemma_reproduction(grid: Grid, row: int, column: int)
    requires
        grid.wf(),
        grid.contains(row, column),
        grid.at(row, column) == Cell::Dead,
        grid.live_neighbors(row, column) == 3,
    ensures
        grid.step().at(row, column) == Cell::Alive,
{
    lemma_step_at(grid, row, column);
}

/// The text of the first rows of a grid holds, for each of them, one
/// character more than the grid has columns.
proof fn lemma_lines_len(grid: Grid, rows: int)
    requires
        0 <= rows,
    ensures
        grid.lines(rows).len() == rows * (grid.width + 1),
    decreases rows,
{
    if rows > 0 {
        lemma_lines_len(grid, rows - 1);
        assert(rows * (grid.width + 1) == (rows - 1) * (grid.width + 1) + (grid.width + 1))
            by (nonlinear_arith);
    }
}

/// The text of the first rows of a grid holds the text of each of them at
/// the place that the rows before it leave.
proof fn lemma_lines_index(grid: Grid, rows: int, row: int, column: int)
    requires
        0 <= row < rows,
        0 <= column <= grid.width,
    ensures
        0 <= row * (grid.width + 1) + column < grid.lines(rows).len(),
        grid.lines(rows)[row * (grid.width + 1) + column] == grid.line(row)[column],
    decreases rows,
{
    lemma_lines_len(grid, rows);
    lemma_lines_len(grid, rows - 1);
    assert(0 <= row * (grid.width + 1) && (row + 1) * (grid.width + 1) <= (rows - 1) * (grid.width
        + 1) + (grid.width + 1) && (row + 1) * (grid.width + 1) == row * (grid.width + 1) + (
    grid.width + 1)) by (nonlinear_arith)
        requires
            0 <= row < rows,
    ;
    if row < rows - 1 {
        lemma_lines_index(grid, rows - 1, row, column);
    }
}

/// The shape of a rendering: it holds a line for every row of the grid, and
/// a line holds a glyph for every square of the row, from left to right, and
/// then a line break. The character at place `column` of line `row` is the
/// glyph of the square at `(row, column)`, or, at the end of the line, the
/// line break.
pub proof fn lemma_rendering_shape(grid: Grid, row: int, column: int)
    requires
        0 <= row < grid.height,
        0 <= column <= grid.width,
    ensures
        grid.rendering().len() == grid.height * (grid.width + 1),
        0 <= row * (grid.width + 1) + column < grid.rendering().len(),
        grid.rendering()[row * (grid.width + 1) + column] == (if column < grid.width {
            grid.at(row, column).glyph()
        } else {
            '\n'
        }),
{
    lemma_lines_len(grid, grid.height as int);
    lemma_lines_index(grid, grid.height as int, row, column);
}

/// The line breaks of a rendering are the characters that end its lines, and
/// no others: a glyph is never a line break. So a rendering has as many
/// lines as the grid has rows.
pub proof fn lemma_rendering_line_breaks(grid: Grid, i: int)
    requires
        0 <= i < grid.rendering().len(),
    ensures
        grid.rendering()[i] == '\n' <==> i % (grid.width as int + 1) == grid.width,
{
    let length = grid.width as int + 1;
    lemma_lines_len(grid, grid.height as int);
    assert(i == (i / length) * length + i % length && 0 <= i % length < length && 0 <= i / length
        && i / length < grid.height) by (nonlinear_arith)
        requires
            0 < length,
            0 <= i < grid.height * length,
    ;
    lemma_rendering_shape(grid, i / length, i % length);
}

} // verus!
