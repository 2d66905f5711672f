//! Decode status.
use vstd::prelude::*;

verus! {

/// Status of the most recent decode.
#[derive(Clone, Copy, PartialEq, Eq, Debug, Structural)]
pub enum DecodeError {
    /// The word decoded to an instruction.
    NoError,
    /// Fewer than four bytes remained at the cursor.
    EndOfInstruction,
    /// The word matched no accepted encoding.
    Unmatched,
}

} // verus!
