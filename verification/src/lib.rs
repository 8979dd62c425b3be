//! Conway's Game of Life on a fixed-size toroidal grid.
//!
//! The [`Universe`](universe::Universe) owns the cells of one generation and
//! steps them with the standard B3/S23 rule. Every operation is specified
//! against the mathematical [`Grid`](grid::Grid) it denotes.

pub mod cell;
pub mod grid;
pub mod universe;
pub mod random;

pub use cell::Cell;
pub use universe::Universe;
