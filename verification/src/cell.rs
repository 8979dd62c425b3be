//! The two-valued state of one grid position, and the rule that steps it.

use vstd::prelude::*;

verus! {

/// One position of the grid: populated or not.
#[derive(Clone, Copy, Debug, PartialEq, Eq, Structural)]
pub enum Cell {
    Dead,
    Alive,
}

impl Cell {
    /// The byte that stands for this cell in an exported buffer:
    /// `0` for `Dead`, `1` for `Alive`.
    pub open spec fn byte(self) -> int {
        match self {
            Cell::Dead => 0,
            Cell::Alive => 1,
        }
    }

    /// The other state.
    pub open spec fn flipped(self) -> Cell {
        match self {
            Cell::Dead => Cell::Alive,
            Cell::Alive => Cell::Dead,
        }
    }

    /// The B3/S23 rule: a cell lives in the next generation exactly when it
    /// has three live neighbours, or is alive now and has two.
    pub open spec fn next(self, live_neighbours: int) -> Cell {
        if live_neighbours == 3 || (self is Alive && live_neighbours == 2) {
            Cell::Alive
        } else {
            Cell::Dead
        }
    }

    /// Encodes the cell as its exported byte.
    pub fn to_byte(self) -> (b: u8)
        ensures
            b == self.byte(),
    {
        match self {
            Cell::Dead => 0,
            Cell::Alive => 1,
        }
    }

    /// Returns the other state.
    pub fn toggled(self) -> (c: Cell)
        ensures
            c == self.flipped(),
    {
        match self {
            Cell::Dead => Cell::Alive,
            Cell::Alive => Cell::Dead,
        }
    }

    /// Applies the generation rule to one cell, given how many of its eight
    /// neighbours are alive.
    pub fn step(self, live_neighbours: u8) -> (c: Cell)
        ensures
            c == self.next(live_neighbours as int),
    {
        match self {
            Cell::Alive => {
                if live_neighbours < 2 {
                    Cell::Dead
                } else if live_neighbours <= 3 {
                    Cell::Alive
                } else {
                    Cell::Dead
                }
            },
            Cell::Dead => {
                if live_neighbours == 3 {
                    Cell::Alive
                } else {
                    Cell::Dead
                }
            },
        }
    }
}

} // verus!
