use vstd::prelude::*;

verus! {

/// Why a renderer or an event handler refused its input.
#[derive(Debug, Clone, Copy, PartialEq, Eq, Structural)]
pub enum TuiError {
    /// A square narrower or lower than two cells has no outline.
    SquareTooSmall,
    /// A square's far edge lies beyond the last addressable column or row.
    SquareOutOfRange,
    /// The screen is too narrow for the size readout.
    ScreenTooNarrow,
    /// A text cannot be cut inside a character.
    NotCharBoundary,
    /// The counter already holds the largest value it can.
    CounterOverflow,
}

} // verus!
