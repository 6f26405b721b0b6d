//! Conway's Game of Life on a fixed-size grid whose edges wrap around.
//!
//! [`Universe`] owns the grid and offers construction, a single-generation
//! step and a textual rendering. Its contracts are stated over [`Grid`], the
//! mathematical model of a generation.

pub mod cell;
pub mod grid;
pub mod laws;
pub mod universe;

pub use cell::Cell;
pub use grid::Grid;
pub use universe::Universe;
