//! The mathematical grid that a universe denotes, and the generation rule
//! stated over it.

use vstd::prelude::*;
use crate::cell::Cell;
use crate::random::seeded_cell;

verus! {

/// A rectangular, row-major arrangement of cells whose opposite edges meet.
pub struct Grid {
    pub width: nat,
    pub height: nat,
    pub cells: Seq<Cell>,
}

impl Grid {
    /// Both sides are non-zero and there is exactly one cell per position.
    pub open spec fn wf(self) -> bool {
        &&& self.width > 0
        &&& self.height > 0
        &&& self.cells.len() == self.width * self.height
    }

    /// The grid of the given sides in which nothing is alive.
    pub open spec fn dead(width: nat, height: nat) -> Grid {
        Grid { width, height, cells: Seq::new(width * height, |i: int| Cell::Dead) }
    }

    /// Whether no cell of the grid is alive.
    pub open spec fn all_dead(self) -> bool {
        forall|i: int| 0 <= i < self.cells.len() ==> self.cells[i] == Cell::Dead
    }

    /// Whether `(column, row)` names a position of the grid.
    pub open spec fn in_bounds(self, column: int, row: int) -> bool {
        0 <= column < self.width && 0 <= row < self.height
    }

    /// Row-major position of `(column, row)` in `cells`.
    pub open spec fn index(self, column: int, row: int) -> int {
        row * self.width + column
    }

    /// The cell at `(column, row)`.
    pub open spec fn cell(self, column: int, row: int) -> Cell {
        self.cells[self.index(column, row)]
    }

    /// The cell reached from any integer coordinate by wrapping each axis
    /// around its side.
    pub open spec fn wrapped(self, column: int, row: int) -> Cell {
        self.cell(column % (self.width as int), row % (self.height as int))
    }

    /// How many of the eight positions around `(column, row)` are alive.
    /// A position reached twice by wrapping is counted each time.
    pub open spec fn live_neighbours(self, column: int, row: int) -> int {
        self.wrapped(column - 1, row - 1).byte() + self.wrapped(column, row - 1).byte()
            + self.wrapped(column + 1, row - 1).byte() + self.wrapped(column - 1, row).byte()
            + self.wrapped(column + 1, row).byte() + self.wrapped(column - 1, row + 1).byte()
            + self.wrapped(column, row + 1).byte() + self.wrapped(column + 1, row + 1).byte()
    }

    /// The state in the next generation of the cell stored at position `i`.
    pub open spec fn next_at(self, i: int) -> Cell {
        let column = i % (self.width as int);
        let row = i / (self.width as int);
        self.cells[i].next(self.live_neighbours(column, row))
    }

    /// The next generation: every cell stepped from this generation alone.
    pub open spec fn step(self) -> Grid {
        Grid {
            width: self.width,
            height: self.height,
            cells: Seq::new(self.cells.len(), |i: int| self.next_at(i)),
        }
    }

    /// The grid after `n` generations.
    pub open spec fn steps(self, n: nat) -> Grid
        decreases n,
    {
        if n == 0 {
            self
        } else {
            self.step().steps((n - 1) as nat)
        }
    }

    /// This grid with the cell at `(column, row)` flipped.
    pub open spec fn toggled(self, column: int, row: int) -> Grid {
        let i = self.index(column, row);
        Grid { width: self.width, height: self.height, cells: self.cells.update(i, self.cells[i].flipped()) }
    }

    /// This grid with every cell seeded anew, the cell at position `i` from
    /// `draws[i]`.
    pub open spec fn seeded(self, draws: Seq<u64>) -> Grid {
        Grid {
            width: self.width,
            height: self.height,
            cells: Seq::new(self.cells.len(), |i: int| seeded_cell(draws[i])),
        }
    }

    /// Every position inside the grid has its own place in `cells`.
    pub proof fn lemma_index_in_range(self, column: int, row: int)
        requires
            self.wf(),
            self.in_bounds(column, row),
        ensures
            0 <= self.index(column, row) < self.cells.len(),
            self.index(column, row) % (self.width as int) == column,
            self.index(column, row) / (self.width as int) == row,
    {
        let w = self.width as int;
        let h = self.height as int;
        assert(row * w + w <= h * w) by (nonlinear_arith)
            requires
                0 <= row < h,
                0 < w,
        ;
        assert(0 <= row * w) by (nonlinear_arith)
            requires
                0 <= row,
                0 < w,
        ;
        assert(h * w == self.width * self.height) by (nonlinear_arith)
            requires
                w == self.width,
                h == self.height,
        ;
        vstd::arithmetic::div_mod::lemma_fundamental_div_mod_converse(row * w + column, w, row, column);
    }

    /// Every place in `cells` belongs to one position inside the grid.
    pub proof fn lemma_position_of_index(self, i: int)
        requires
            self.wf(),
            0 <= i < self.cells.len(),
        ensures
            self.in_bounds(i % (self.width as int), i / (self.width as int)),
            self.index(i % (self.width as int), i / (self.width as int)) == i,
    {
        let w = self.width as int;
        let h = self.height as int;
        vstd::arithmetic::div_mod::lemma_fundamental_div_mod(i, w);
        assert(0 <= i % w < w) by (nonlinear_arith)
            requires
                0 < w,
        ;
        assert(0 <= i / w < h) by (nonlinear_arith)
            requires
                0 <= i < w * h,
                0 < w,
        ;
        assert(w * h == self.width * self.height) by (nonlinear_arith)
            requires
                w == self.width,
                h == self.height,
        ;
        assert((i / w) * w == w * (i / w)) by (nonlinear_arith);
    }

    /// A dead grid of non-zero sides is well formed, has one cell per
    /// position, and none of them is alive.
    pub proof fn lemma_dead(width: nat, height: nat)
        requires
            width > 0,
            height > 0,
        ensures
            Grid::dead(width, height).wf(),
            Grid::dead(width, height).cells.len() == width * height,
            Grid::dead(width, height).all_dead(),
    {
    }

    /// Stepping keeps the sides and the number of cells.
    pub proof fn lemma_step_wf(self)
        requires
            self.wf(),
        ensures
            self.step().wf(),
            self.step().width == self.width,
            self.step().height == self.height,
    {
    }

    /// The next generation holds, at every position, the rule applied to the
    /// cell and the live neighbours that the position has in this generation.
    pub proof fn lemma_step_cell(self, column: int, row: int)
        requires
            self.wf(),
            self.in_bounds(column, row),
        ensures
            self.step().cell(column, row) == self.cell(column, row).next(
                self.live_neighbours(column, row),
            ),
    {
        self.lemma_index_in_range(column, row);
    }

    /// Two grids of the same sides and cells have the same next generation:
    /// a step depends on nothing else.
    pub proof fn lemma_step_deterministic(self, other: Grid)
        requires
            self.width == other.width,
            self.height == other.height,
            self.cells == other.cells,
        ensures
            self.step() == other.step(),
    {
    }

    /// A live cell none of whose neighbours is alive is dead in the next
    /// generation.
    pub proof fn lemma_lonely_cell_dies(self, column: int, row: int)
        requires
            self.wf(),
            self.in_bounds(column, row),
            self.cell(column, row) is Alive,
            self.live_neighbours(column, row) == 0,
        ensures
            self.step().cell(column, row) is Dead,
    {
        self.lemma_step_cell(column, row);
    }

    /// A grid that one step leaves unchanged is left unchanged by any number
    /// of steps.
    pub proof fn lemma_still_life(self, n: nat)
        requires
            self.step() == self,
        ensures
            self.steps(n) == self,
        decreases n,
    {
        if n > 0 {
            self.lemma_still_life((n - 1) as nat);
        }
    }

    /// Flipping the same cell twice gives back the grid.
    pub proof fn lemma_toggle_twice(self, column: int, row: int)
        requires
            self.wf(),
            self.in_bounds(column, row),
        ensures
            self.toggled(column, row).toggled(column, row) == self,
    {
        self.lemma_index_in_range(column, row);
        assert(self.toggled(column, row).toggled(column, row).cells =~= self.cells);
    }

    /// Flipping a cell changes that cell and no other.
    pub proof fn lemma_toggle_cell(self, column: int, row: int, other_column: int, other_row: int)
        requires
            self.wf(),
            self.in_bounds(column, row),
            self.in_bounds(other_column, other_row),
        ensures
            self.toggled(column, row).wf(),
            self.toggled(column, row).cell(column, row) == self.cell(column, row).flipped(),
            (other_column != column || other_row != row) ==> self.toggled(column, row).cell(
                other_column,
                other_row,
            ) == self.cell(other_column, other_row),
    {
        self.lemma_index_in_range(column, row);
        self.lemma_index_in_range(other_column, other_row);
    }
}

} // verus!
