use vstd::prelude::*;

verus! {

/// Why a decode step stopped.
#[derive(Clone, Copy, Debug, PartialEq, Eq, Structural)]
pub enum DecodeError {
    /// Fewer bytes were available than a fixed-width read needs.
    ShortRead,
    /// The input ends in the middle of a block, or in the middle of a row
    /// whose declared length runs past the bytes that are left.
    Truncated,
    /// The bytes are all there but contradict each other: the header offsets
    /// are out of order, or a row's data offset does not leave room for what
    /// must precede it.
    StructuralInvariantViolation,
}

} // verus!
