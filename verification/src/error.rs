//! Why a conversion fails.

use vstd::prelude::*;

verus! {

/// Why a span could not be converted. A conversion that fails returns no
/// span: nothing is clamped.
#[derive(Debug, Clone, Copy, PartialEq, Eq, Structural)]
pub enum SpanError {
    /// The span names a unit that the input does not have.
    OutOfRange,
    /// The span lies in the input, but its cooked offsets exceed what a
    /// `usize` holds.
    Overflow,
}

} // verus!
