//! The executable universe: two cell buffers and the sides of the grid.

use vstd::prelude::*;
use crate::cell::Cell;
use crate::grid::Grid;
use crate::random::{cell_from_draw, host_draw, in_unit_interval, seeded_cell};

verus! {

/// A toroidal grid of cells that can be edited and stepped in place.
///
/// `cells` holds the current generation in row-major order. `scratch` has
/// the same length and is only ever written during a step, after which the
/// two buffers trade places.
pub struct Universe {
    width: u32,
    height: u32,
    cells: Vec<Cell>,
    scratch: Vec<Cell>,
}

impl View for Universe {
    type V = Grid;

    /// The grid of the current generation. The scratch buffer is no part of it.
    closed spec fn view(&self) -> Grid {
        Grid { width: self.width as nat, height: self.height as nat, cells: self.cells@ }
    }
}

impl Universe {
    /// Length of the buffer that the next generation is written to.
    pub closed spec fn scratch_len(&self) -> nat {
        self.scratch@.len()
    }

    /// The invariant of every universe: non-zero sides that fit their
    /// machine types, one cell per position, and a scratch buffer of the
    /// same length as the current one.
    pub open spec fn wf(&self) -> bool {
        &&& self@.wf()
        &&& self@.width <= u32::MAX
        &&& self@.height <= u32::MAX
        &&& self@.cells.len() <= usize::MAX
        &&& self.scratch_len() == self@.cells.len()
    }

    /// Creates a universe of the given sides with every cell dead.
    ///
    /// A side of zero has no neighbours to wrap to, and a grid with more
    /// cells than `usize` can count cannot be addressed: both are left to
    /// the caller to rule out.
    pub fn new(width: u32, height: u32) -> (universe: Self)
        requires
            width > 0,
            height > 0,
            width * height <= usize::MAX,
        ensures
            universe.wf(),
            universe@ == Grid::dead(width as nat, height as nat),
            universe@.cells.len() == width * height,
            universe@.all_dead(),
    {
        let len = cell_count(width, height);
        let universe = Universe {
            width,
            height,
            cells: vec![Cell::Dead; len],
            scratch: vec![Cell::Dead; len],
        };
        assert(universe@.cells =~= Grid::dead(width as nat, height as nat).cells);
        universe
    }

    /// Number of columns.
    pub fn width(&self) -> (width: u32)
        ensures
            width == self@.width,
    {
        self.width
    }

    /// Number of rows.
    pub fn height(&self) -> (height: u32)
        ensures
            height == self@.height,
    {
        self.height
    }
}

impl Universe {
    /// Row-major position of `(column, row)` in the buffer that `cells` returns.
    ///
    /// Coordinates outside the grid are a caller's error, here and in every
    /// other operation that takes a coordinate.
    pub fn get_index(&self, column: u32, row: u32) -> (index: usize)
        requires
            self.wf(),
            self@.in_bounds(column as int, row as int),
        ensures
            index == self@.index(column as int, row as int),
            index < self@.cells.len(),
    {
        proof {
            self@.lemma_index_in_range(column as int, row as int);
            assert(0 <= row * self.width <= self@.index(column as int, row as int)) by (nonlinear_arith)
                requires
                    0 <= column,
                    self@.index(column as int, row as int) == row * self.width + column,
            ;
        }
        (row as usize) * (self.width as usize) + (column as usize)
    }

    /// The current generation, row by row.
    pub fn cells(&self) -> (cells: &[Cell])
        ensures
            cells@ == self@.cells,
    {
        self.cells.as_slice()
    }

    /// Gives the universe new sides and kills every cell. Nothing of the
    /// earlier state survives.
    pub fn resize(&mut self, width: u32, height: u32)
        requires
            width > 0,
            height > 0,
            width * height <= usize::MAX,
        ensures
            final(self).wf(),
            final(self)@ == Grid::dead(width as nat, height as nat),
            final(self)@.cells.len() == width * height,
            final(self)@.all_dead(),
    {
        let len = cell_count(width, height);
        self.width = width;
        self.height = height;
        self.cells = vec![Cell::Dead; len];
        self.scratch = vec![Cell::Dead; len];
        assert(self@.cells =~= Grid::dead(width as nat, height as nat).cells);
    }

    /// Kills every cell and keeps the sides.
    pub fn reset(&mut self)
        requires
            old(self).wf(),
        ensures
            final(self).wf(),
            final(self)@ == Grid::dead(old(self)@.width, old(self)@.height),
            final(self)@.cells.len() == old(self)@.width * old(self)@.height,
            final(self)@.all_dead(),
    {
        let len = self.cells.len();
        let mut i: usize = 0;
        while i < len
            invariant
                i <= len,
                len == self.cells@.len(),
                self.width == old(self).width,
                self.height == old(self).height,
                self.scratch@.len() == old(self).scratch@.len(),
                forall|k: int| 0 <= k < i ==> self.cells@[k] == Cell::Dead,
            decreases len - i,
        {
            self.cells.set(i, Cell::Dead);
            i += 1;
        }
        assert(self@.cells =~= Grid::dead(self@.width, self@.height).cells);
    }

    /// Flips the cell at `(column, row)` and leaves every other cell alone.
    pub fn toggle_cell(&mut self, column: u32, row: u32)
        requires
            old(self).wf(),
            old(self)@.in_bounds(column as int, row as int),
        ensures
            final(self).wf(),
            final(self)@ == old(self)@.toggled(column as int, row as int),
    {
        let index = self.get_index(column, row);
        let cell = self.cells[index];
        self.cells.set(index, cell.toggled());
    }
}

impl Universe {
    /// The byte of the cell at a position inside the grid.
    fn alive_at(&self, column: u32, row: u32) -> (alive: u8)
        requires
            self.wf(),
            self@.in_bounds(column as int, row as int),
        ensures
            alive == self@.cell(column as int, row as int).byte(),
    {
        let index = self.get_index(column, row);
        self.cells[index].to_byte()
    }

    /// Counts the live cells among the eight neighbours of `(column, row)`,
    /// wrapping around the edges of the grid.
    pub fn live_neighbour_count(&self, column: u32, row: u32) -> (count: u8)
        requires
            self.wf(),
            self@.in_bounds(column as int, row as int),
        ensures
            count == self@.live_neighbours(column as int, row as int),
            count <= 8,
    {
        let west = wrap(column, self.width - 1, self.width);
        let east = wrap(column, 1, self.width);
        let north = wrap(row, self.height - 1, self.height);
        let south = wrap(row, 1, self.height);
        proof {
            lemma_wrap_back(column as int, self.width as int);
            lemma_wrap_back(row as int, self.height as int);
            vstd::arithmetic::div_mod::lemma_small_mod(column as nat, self.width as nat);
            vstd::arithmetic::div_mod::lemma_small_mod(row as nat, self.height as nat);
        }
        self.alive_at(west, north) + self.alive_at(column, north) + self.alive_at(east, north)
            + self.alive_at(west, row) + self.alive_at(east, row) + self.alive_at(west, south)
            + self.alive_at(column, south) + self.alive_at(east, south)
    }
}

impl Universe {
    /// Advances the universe by one generation.
    ///
    /// Every neighbour count is taken from the generation that the call
    /// found: the new states go to the scratch buffer, and only when all of
    /// them are written do the two buffers trade places.
    pub fn tick(&mut self)
        requires
            old(self).wf(),
        ensures
            final(self).wf(),
            final(self)@ == old(self)@.step(),
    {
        let mut row: u32 = 0;
        while row < self.height
            invariant
                self.wf(),
                self@ == old(self)@,
                row <= self.height,
                forall|k: int| 0 <= k < row * self.width ==> self.scratch@[k] == self@.next_at(k),
            decreases self.height - row,
        {
            let mut column: u32 = 0;
            while column < self.width
                invariant
                    self.wf(),
                    self@ == old(self)@,
                    row < self.height,
                    column <= self.width,
                    forall|k: int|
                        0 <= k < row * self.width + column ==> self.scratch@[k] == self@.next_at(k),
                decreases self.width - column,
            {
                let index = self.get_index(column, row);
                let cell = self.cells[index];
                let live_neighbours = self.live_neighbour_count(column, row);
                proof {
                    self@.lemma_index_in_range(column as int, row as int);
                }
                self.scratch.set(index, cell.step(live_neighbours));
                column += 1;
            }
            row += 1;
            assert(row * self.width == (row - 1) * self.width + self.width) by (nonlinear_arith);
        }
        assert(self.height * self.width == self@.cells.len()) by (nonlinear_arith)
            requires
                self@.cells.len() == self@.width * self@.height,
                self@.width == self.width,
                self@.height == self.height,
        ;
        std::mem::swap(&mut self.cells, &mut self.scratch);
        assert(self@.cells =~= old(self)@.step().cells);
    }
}

impl Universe {
    /// Seeds every cell from the draw at its own position: dead where the
    /// draw is below one half, alive elsewhere. What the cells held before
    /// does not matter.
    pub fn fill_from_draws(&mut self, draws: &[u64])
        requires
            old(self).wf(),
            draws@.len() == old(self)@.cells.len(),
        ensures
            final(self).wf(),
            final(self)@ == old(self)@.seeded(draws@),
    {
        let len = self.cells.len();
        let mut i: usize = 0;
        while i < len
            invariant
                i <= len,
                len == self.cells@.len(),
                len == draws@.len(),
                self.width == old(self).width,
                self.height == old(self).height,
                self.scratch@.len() == old(self).scratch@.len(),
                forall|k: int| 0 <= k < i ==> self.cells@[k] == seeded_cell(draws@[k]),
            decreases len - i,
        {
            self.cells.set(i, cell_from_draw(draws[i]));
            i += 1;
        }
        assert(self@.cells =~= old(self)@.seeded(draws@).cells);
    }

    /// Seeds every cell from a draw of its own, taken from the host's random
    /// source: alive with probability one half.
    ///
    /// Which cells come out alive is the host's doing. What is certain is
    /// that the sides stay and that each cell is what `fill_from_draws`
    /// makes of one draw from the unit interval. The draws come from the
    /// JavaScript host, so the call needs one; `fill_from_draws` does not.
    pub fn fill_random(&mut self)
        requires
            old(self).wf(),
        ensures
            final(self).wf(),
            exists|draws: Seq<u64>|
                {
                    &&& draws.len() == old(self)@.cells.len()
                    &&& forall|i: int| 0 <= i < draws.len() ==> in_unit_interval(#[trigger] draws[i])
                    &&& final(self)@ == #[trigger] old(self)@.seeded(draws)
                },
    {
        let len = self.cells.len();
        let ghost mut draws: Seq<u64> = Seq::empty();
        let mut i: usize = 0;
        while i < len
            invariant
                i <= len,
                len == self.cells@.len(),
                draws.len() == i,
                self.width == old(self).width,
                self.height == old(self).height,
                self.scratch@.len() == old(self).scratch@.len(),
                forall|k: int| 0 <= k < i ==> in_unit_interval(#[trigger] draws[k]),
                forall|k: int| 0 <= k < i ==> self.cells@[k] == seeded_cell(draws[k]),
            decreases len - i,
        {
            let draw = host_draw();
            self.cells.set(i, cell_from_draw(draw));
            proof {
                draws = draws.push(draw);
            }
            i += 1;
        }
        assert(self@.cells =~= old(self)@.seeded(draws).cells);
    }
}

impl Universe {
    /// Two universes of the same sides whose current buffers agree denote
    /// grids with the same next generation, whatever their scratch buffers
    /// hold: what `tick` leaves behind is decided by the cells it found.
    pub proof fn lemma_tick_deterministic(self, other: Universe)
        requires
            self.wf(),
            other.wf(),
            self@.width == other@.width,
            self@.height == other@.height,
            self@.cells == other@.cells,
        ensures
            self@.step() == other@.step(),
    {
        self@.lemma_step_deterministic(other@);
    }
}

/// Moves `position` forward by `delta` on an axis of length `side`, wrapping
/// past the end.
fn wrap(position: u32, delta: u32, side: u32) -> (wrapped: u32)
    requires
        side > 0,
    ensures
        wrapped == (position + delta) % (side as int),
        wrapped < side,
{
    let sum: u64 = position as u64 + delta as u64;
    let wrapped: u64 = sum % (side as u64);
    wrapped as u32
}

/// Going forward by one less than the length of an axis is going back by one.
proof fn lemma_wrap_back(position: int, side: int)
    requires
        side > 0,
    ensures
        (position + (side - 1)) % side == (position - 1) % side,
{
    vstd::arithmetic::div_mod::lemma_mod_add_multiples_vanish(position - 1, side);
    assert(side + (position - 1) == position + (side - 1));
}

/// Number of cells of a grid of the given sides.
fn cell_count(width: u32, height: u32) -> (len: usize)
    requires
        width * height <= usize::MAX,
    ensures
        len == width * height,
{
    assert(0 <= width * height) by (nonlinear_arith);
    (width as usize) * (height as usize)
}

} // verus!
