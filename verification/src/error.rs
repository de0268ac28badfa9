//! Why a call was turned down.

use vstd::prelude::*;

verus! {

/// An argument that the library does not accept. A call that returns one has
/// changed nothing.
#[derive(Clone, Copy, Debug, PartialEq, Eq, Structural)]
pub enum InvalidArgument {
    /// A fixed tick increment that is not greater than zero.
    InvalidTickIncrement,
    /// A character that names no point symbol.
    InvalidSymbol(char),
    /// A grid without rows or columns, or a cell outside the grid.
    InvalidGridPosition,
    /// A palette parameter outside its range.
    InvalidPaletteParameter,
    /// A custom palette without a control point.
    EmptyGenerator,
    /// A custom palette whose gray level at the given index is a NaN or
    /// lies below the one before it.
    NonMonotonicSequence(usize),
    /// A label kind that has no place of its own in the script.
    InvalidLabelKind,
}

} // verus!
