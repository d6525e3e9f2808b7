//! Conway's Game of Life on a finite grid whose edges wrap around.

pub mod cell;
pub mod grid;
pub mod laws;
mod random;
pub mod universe;

pub use cell::Cell;
pub use grid::Grid;
pub use universe::{Universe, UniverseError, UniverseView};
