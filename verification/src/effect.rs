//! Visual-effect descriptors: output-only records the board emits while
//! resolving, consumed once by a rendering layer.

use vstd::prelude::*;

verus! {

/// The direction a visual effect travels in, one unit step along an axis.
/// `MinusY` points upward, away from the board.
#[derive(Debug, Clone, Copy, PartialEq, Eq, Structural)]
pub enum Direction {
    PlusX,
    PlusY,
    MinusX,
    MinusY,
}

/// One emitted visual event: the cell it originates from, the direction it
/// travels, and the cell's value at the moment of emission.
#[derive(Debug, Clone, Copy, PartialEq, Eq, Structural)]
pub struct Effect {
    pub index: usize,
    pub direction: Direction,
    pub value: u8,
}

} // verus!
