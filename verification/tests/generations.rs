use wasm_game_of_life::{Cell, Universe};

/// Builds a universe from rows of text: `#` is a live cell, anything else a
/// dead one.
fn universe_of(rows: &[&str]) -> Universe {
    let height: u32 = rows.len() as u32;
    let width: u32 = rows[0].chars().count() as u32;
    let mut cells: Vec<Cell> = Vec::new();
    for row in rows {
        for square in row.chars() {
            cells.push(if square == '#' { Cell::Alive } else { Cell::Dead });
        }
    }
    Universe::from_cells(width, height, cells).expect("the rows make a grid")
}

/// Writes a universe as rows of text, `#` for a live cell and `.` for a dead
/// one.
fn rows_of(universe: &Universe) -> Vec<String> {
    let mut rows: Vec<String> = Vec::new();
    for row in 0..universe.height() {
        let mut text = String::new();
        for column in 0..universe.width() {
            text.push(if universe.cell(row, column) == Cell::Alive { '#' } else { '.' });
        }
        rows.push(text);
    }
    rows
}

/// A step that writes each new cell over the old one at once, so that the
/// squares that come later see a mixture of two generations.
fn step_in_place(width: usize, height: usize, cells: &mut Vec<Cell>) {
    for row in 0..height {
        for column in 0..width {
            let rows = [(row + height - 1) % height, row, (row + 1) % height];
            let columns = [(column + width - 1) % width, column, (column + 1) % width];
            let mut live: u8 = 0;
            for i in 0..3usize {
                for j in 0..3usize {
                    if i == 1 && j == 1 {
                        continue;
                    }
                    if cells[rows[i] * width + columns[j]] == Cell::Alive {
                        live += 1;
                    }
                }
            }
            let index: usize = row * width + column;
            cells[index] = cells[index].next(live);
        }
    }
}

#[test]
fn rule_for_a_live_cell() {
    assert_eq!(Cell::Alive.next(0), Cell::Dead);
    assert_eq!(Cell::Alive.next(1), Cell::Dead);
    assert_eq!(Cell::Alive.next(2), Cell::Alive);
    assert_eq!(Cell::Alive.next(3), Cell::Alive);
    assert_eq!(Cell::Alive.next(4), Cell::Dead);
    assert_eq!(Cell::Alive.next(5), Cell::Dead);
    assert_eq!(Cell::Alive.next(6), Cell::Dead);
    assert_eq!(Cell::Alive.next(7), Cell::Dead);
    assert_eq!(Cell::Alive.next(8), Cell::Dead);
}

#[test]
fn rule_for_a_dead_cell() {
    assert_eq!(Cell::Dead.next(0), Cell::Dead);
    assert_eq!(Cell::Dead.next(1), Cell::Dead);
    assert_eq!(Cell::Dead.next(2), Cell::Dead);
    assert_eq!(Cell::Dead.next(3), Cell::Alive);
    assert_eq!(Cell::Dead.next(4), Cell::Dead);
    assert_eq!(Cell::Dead.next(5), Cell::Dead);
    assert_eq!(Cell::Dead.next(6), Cell::Dead);
    assert_eq!(Cell::Dead.next(7), Cell::Dead);
    assert_eq!(Cell::Dead.next(8), Cell::Dead);
}

#[test]
fn rule_gives_the_same_answer_every_time() {
    for live in 0..=8u8 {
        assert_eq!(Cell::Alive.next(live), Cell::Alive.next(live));
        assert_eq!(Cell::Dead.next(live), Cell::Dead.next(live));
    }
    let mut first = Universe::new();
    let mut second = Universe::new();
    for _ in 0..4 {
        first.tick();
        second.tick();
        assert_eq!(first.cells(), second.cells());
    }
}

#[test]
fn squares_alike_in_state_and_count_fare_alike() {
    // Both live squares below have two live neighbors, in different places.
    let mut row = universe_of(&[".....", ".###.", ".....", ".....", "....."]);
    let mut diagonal = universe_of(&["#....", ".#...", "..#..", ".....", "....."]);
    assert_eq!(row.live_neighbor_count(1, 2), 2);
    assert_eq!(diagonal.live_neighbor_count(1, 1), 2);
    row.tick();
    diagonal.tick();
    assert_eq!(row.cell(1, 2), Cell::Alive);
    assert_eq!(diagonal.cell(1, 1), Cell::Alive);
}

#[test]
fn lonely_cell_dies() {
    let mut universe = universe_of(&[".....", ".....", "..#..", ".....", "....."]);
    assert_eq!(universe.live_neighbor_count(2, 2), 0);
    universe.tick();
    assert_eq!(universe.cell(2, 2), Cell::Dead);
    assert_eq!(rows_of(&universe), vec![".....", ".....", ".....", ".....", "....."]);
}

#[test]
fn cell_with_one_neighbor_dies() {
    let mut universe = universe_of(&[".....", ".....", ".##..", ".....", "....."]);
    assert_eq!(universe.live_neighbor_count(2, 1), 1);
    assert_eq!(universe.live_neighbor_count(2, 2), 1);
    universe.tick();
    assert_eq!(universe.cell(2, 1), Cell::Dead);
    assert_eq!(universe.cell(2, 2), Cell::Dead);
    assert_eq!(rows_of(&universe), vec![".....", ".....", ".....", ".....", "....."]);
}

#[test]
fn cell_with_two_neighbors_lives_on() {
    let mut universe = universe_of(&["#....", ".#...", "..#..", ".....", "....."]);
    assert_eq!(universe.live_neighbor_count(1, 1), 2);
    universe.tick();
    assert_eq!(universe.cell(1, 1), Cell::Alive);
    assert_eq!(rows_of(&universe), vec![".....", ".#...", ".....", ".....", "....."]);
}

#[test]
fn cell_with_three_neighbors_lives_on() {
    let mut universe = universe_of(&["......", ".##...", ".##...", "......", "......", "......"]);
    for (row, column) in [(1, 1), (1, 2), (2, 1), (2, 2)] {
        assert_eq!(universe.live_neighbor_count(row, column), 3);
    }
    universe.tick();
    assert_eq!(
        rows_of(&universe),
        vec!["......", ".##...", ".##...", "......", "......", "......"]
    );
}

#[test]
fn cell_with_four_neighbors_dies() {
    let mut universe = universe_of(&[".....", "..#..", ".###.", "..#..", "....."]);
    assert_eq!(universe.live_neighbor_count(2, 2), 4);
    universe.tick();
    assert_eq!(universe.cell(2, 2), Cell::Dead);
    assert_eq!(rows_of(&universe), vec![".....", ".###.", ".#.#.", ".###.", "....."]);
}

#[test]
fn cell_with_eight_neighbors_dies() {
    let mut universe = Universe::from_cells(4, 4, vec![Cell::Alive; 16]).unwrap();
    assert_eq!(universe.live_neighbor_count(1, 1), 8);
    universe.tick();
    assert_eq!(universe.cells(), vec![Cell::Dead; 16].as_slice());
}

#[test]
fn dead_cell_with_three_neighbors_comes_alive() {
    let mut universe = universe_of(&[".....", ".##..", ".#...", ".....", "....."]);
    assert_eq!(universe.cell(2, 2), Cell::Dead);
    assert_eq!(universe.live_neighbor_count(2, 2), 3);
    universe.tick();
    assert_eq!(universe.cell(2, 2), Cell::Alive);
    assert_eq!(rows_of(&universe), vec![".....", ".##..", ".##..", ".....", "....."]);
}

#[test]
fn dead_cell_without_three_neighbors_stays_dead() {
    let mut universe = universe_of(&[".....", ".#.#.", ".....", ".#.#.", "....."]);
    assert_eq!(universe.live_neighbor_count(2, 2), 4);
    assert_eq!(universe.live_neighbor_count(1, 2), 2);
    assert_eq!(universe.live_neighbor_count(0, 0), 1);
    universe.tick();
    assert_eq!(universe.cell(2, 2), Cell::Dead);
    assert_eq!(universe.cell(1, 2), Cell::Dead);
    assert_eq!(universe.cell(0, 0), Cell::Dead);
    assert_eq!(rows_of(&universe), vec![".....", ".....", ".....", ".....", "....."]);
}

#[test]
fn blinker_turns_and_turns_back() {
    let mut universe = universe_of(&[".....", ".....", ".###.", ".....", "....."]);
    universe.tick();
    assert_eq!(rows_of(&universe), vec![".....", "..#..", "..#..", "..#..", "....."]);
    universe.tick();
    assert_eq!(rows_of(&universe), vec![".....", ".....", ".###.", ".....", "....."]);
}

#[test]
fn blinker_across_the_edge_turns_too() {
    let mut universe = universe_of(&[".....", ".....", "#..##", ".....", "....."]);
    universe.tick();
    assert_eq!(rows_of(&universe), vec![".....", "....#", "....#", "....#", "....."]);
    universe.tick();
    assert_eq!(rows_of(&universe), vec![".....", ".....", "#..##", ".....", "....."]);
}

#[test]
fn row_of_three_fills_a_grid_of_three_by_three() {
    // Three columns joined at the edges: every square of the outer rows has
    // the whole middle row around it, and every square of the middle row has
    // the two others.
    let mut universe = universe_of(&["...", "###", "..."]);
    for column in 0..3u32 {
        assert_eq!(universe.live_neighbor_count(0, column), 3);
        assert_eq!(universe.live_neighbor_count(1, column), 2);
        assert_eq!(universe.live_neighbor_count(2, column), 3);
    }
    universe.tick();
    assert_eq!(rows_of(&universe), vec!["###", "###", "###"]);
    universe.tick();
    assert_eq!(rows_of(&universe), vec!["...", "...", "..."]);
}

#[test]
fn glider_moves_on() {
    let mut universe = universe_of(&[".#....", "..#...", "###...", "......", "......", "......"]);
    universe.tick();
    assert_eq!(
        rows_of(&universe),
        vec!["......", "#.#...", ".##...", ".#....", "......", "......"]
    );
    universe.tick();
    assert_eq!(
        rows_of(&universe),
        vec!["......", "..#...", "#.#...", ".##...", "......", "......"]
    );
}

#[test]
fn tick_reads_the_old_generation_only() {
    let start = universe_of(&[".#....", "..#...", "###...", "......", "......", "......"]);
    let mut universe = universe_of(&[".#....", "..#...", "###...", "......", "......", "......"]);
    universe.tick();

    let mut mixed: Vec<Cell> = start.cells().to_vec();
    step_in_place(6, 6, &mut mixed);

    // Writing over the old cells loses the glider; the tick does not.
    assert_ne!(universe.cells(), mixed.as_slice());
    assert_eq!(
        rows_of(&universe),
        vec!["......", "#.#...", ".##...", ".#....", "......", "......"]
    );
}

#[test]
fn tick_reads_the_old_generation_only_in_three_by_three() {
    // Every square has all the others around it: the five live ones have
    // four live neighbors and die, the four dead ones have five and stay
    // dead.
    let start = universe_of(&[".#.", "..#", "###"]);
    let mut universe = universe_of(&[".#.", "..#", "###"]);
    universe.tick();
    assert_eq!(rows_of(&universe), vec!["...", "...", "..."]);

    // Writing over the old cells, the square at the end of the middle row
    // is left with three live neighbors by the time it is looked at.
    let mut mixed: Vec<Cell> = start.cells().to_vec();
    step_in_place(3, 3, &mut mixed);
    assert_eq!(mixed[5], Cell::Alive);
    assert_ne!(universe.cells(), mixed.as_slice());
}

#[test]
fn tick_of_the_new_universe() {
    let mut universe = Universe::new();
    assert_eq!(universe.live_neighbor_count(1, 2), 2);
    assert_eq!(universe.live_neighbor_count(1, 6), 4);
    assert_eq!(universe.live_neighbor_count(1, 13), 6);
    universe.tick();
    // Alive with two live neighbors.
    assert_eq!(universe.cell(1, 2), Cell::Alive);
    // Alive with four.
    assert_eq!(universe.cell(1, 6), Cell::Dead);
    // Alive with six.
    assert_eq!(universe.cell(1, 13), Cell::Dead);
    // Dead with six.
    assert_eq!(universe.cell(1, 1), Cell::Dead);
    // Alive with four.
    assert_eq!(universe.cell(0, 0), Cell::Dead);
}

#[test]
fn tick_of_a_single_square() {
    // Alive with eight live neighbors, all of them the square itself.
    let mut alive = Universe::from_cells(1, 1, vec![Cell::Alive]).unwrap();
    alive.tick();
    assert_eq!(alive.cells(), [Cell::Dead].as_slice());
    let mut dead = Universe::from_cells(1, 1, vec![Cell::Dead]).unwrap();
    dead.tick();
    assert_eq!(dead.cells(), [Cell::Dead].as_slice());
}

#[test]
fn tick_of_a_single_row() {
    // The live square has two live neighbors, itself from above and from
    // below; the squares beside it have three.
    let mut universe = universe_of(&[".#..."]);
    universe.tick();
    assert_eq!(rows_of(&universe), vec!["###.."]);
    // Now the middle square has eight live neighbors and its two sides have
    // five; the squares at the ends have three.
    assert_eq!(universe.live_neighbor_count(0, 1), 8);
    assert_eq!(universe.live_neighbor_count(0, 0), 5);
    assert_eq!(universe.live_neighbor_count(0, 3), 3);
    assert_eq!(universe.live_neighbor_count(0, 4), 3);
    universe.tick();
    assert_eq!(rows_of(&universe), vec!["...##"]);
}

#[test]
fn tick_of_a_full_single_row() {
    let mut universe = universe_of(&["###"]);
    universe.tick();
    assert_eq!(rows_of(&universe), vec!["..."]);
}

#[test]
fn tick_agrees_with_the_rule_on_every_square() {
    let mut universe = Universe::new();
    for _ in 0..3 {
        let mut expected: Vec<Cell> = Vec::new();
        for row in 0..universe.height() {
            for column in 0..universe.width() {
                let live: u8 = universe.live_neighbor_count(row, column);
                expected.push(universe.cell(row, column).next(live));
            }
        }
        universe.tick();
        assert_eq!(universe.cells(), expected.as_slice());
    }
}
