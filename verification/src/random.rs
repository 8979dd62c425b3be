//! Random draws from the JavaScript host, and the rule that turns a draw
//! into a cell.
//!
//! A draw is carried as the 64 bits of an IEEE 754 double. For doubles of
//! positive sign the order of the bit patterns, read as integers, is the
//! order of the numbers, so the rule below is stated on integers alone.

use vstd::prelude::*;
use crate::cell::Cell;

verus! {

/// Bits of the double `0.5`.
pub const HALF: u64 = 0x3FE0_0000_0000_0000;

/// Bits of the double `1.0`.
pub const ONE: u64 = 0x3FF0_0000_0000_0000;

/// Bits of the double `-0.0`, the least pattern of negative sign.
pub const NEGATIVE_ZERO: u64 = 0x8000_0000_0000_0000;

/// Bits of negative infinity, the greatest pattern of negative sign that is
/// a number.
pub const NEGATIVE_INFINITY: u64 = 0xFFF0_0000_0000_0000;

/// Whether the double with these bits is a number that is at least zero
/// and below one. Zero of either sign counts.
pub open spec fn in_unit_interval(draw: u64) -> bool {
    draw < ONE || draw == NEGATIVE_ZERO
}

/// Whether the double with these bits is a number below one half: a
/// non-negative one under `0.5`, or any negative one.
pub open spec fn below_half(draw: u64) -> bool {
    draw < HALF || NEGATIVE_ZERO <= draw <= NEGATIVE_INFINITY
}

/// The cell that a draw seeds: dead below one half, alive otherwise, so
/// that a uniform draw from the unit interval gives either with
/// probability one half.
pub open spec fn seeded_cell(draw: u64) -> Cell {
    if below_half(draw) {
        Cell::Dead
    } else {
        Cell::Alive
    }
}

/// Turns one draw into a cell.
pub fn cell_from_draw(draw: u64) -> (cell: Cell)
    ensures
        cell == seeded_cell(draw),
{
    if draw < HALF || (NEGATIVE_ZERO <= draw && draw <= NEGATIVE_INFINITY) {
        Cell::Dead
    } else {
        Cell::Alive
    }
}

/// Asks the host for one draw: `js_sys::Math::random`, whose double is
/// handed on as its bits.
///
/// Trusted, not proved: the host documents the number as lying in the range
/// from 0 to 1, 0 included and 1 not. Nothing is claimed of how the draws
/// are distributed, nor of one draw given another. The call reaches the
/// host through a WebAssembly import and can only be made where such a host
/// is present.
#[verifier::external_body]
pub(crate) fn host_draw() -> (draw: u64)
    ensures
        in_unit_interval(draw),
{
    js_sys::Math::random().to_bits()
}

} // verus!
