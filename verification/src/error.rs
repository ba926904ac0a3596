//! What can go wrong when a range is decoded.

use vstd::prelude::*;
use crate::map::Cell;

verus! {

/// Why a range could not be decoded.
#[derive(Debug, Clone, Copy, PartialEq, Eq, Structural)]
pub enum DecodeError {
    /// The number of words given is not the number of cells of a range.
    Usage,
    /// A cell that is needed is absent: it was not given, or what was given
    /// for it is not a 32-bit hexadecimal numeral.
    MissingField(Cell),
}

} // verus!
