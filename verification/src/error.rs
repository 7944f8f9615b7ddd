//! What can go wrong while a board is being set up.

use vstd::prelude::*;

verus! {

/// Why a board, or a part of it, could not be built.
#[derive(Clone, Copy, Debug, PartialEq, Eq, Structural)]
pub enum BoardError {
    /// The board image is missing or could not be decoded.
    ResourceLoad,
    /// A rank or a file outside `1..=8`; the field is the offending value.
    InvalidCoordinate(u32),
}

} // verus!
