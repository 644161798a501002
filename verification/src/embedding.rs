//! The shape of embedding vectors. The arithmetic on their components is
//! not part of this library; what is decided on their lengths is.

use vstd::prelude::*;

verus! {

/// Two vectors that were to be compared differ in length.
#[derive(Clone, Copy, Debug, PartialEq, Eq, Structural)]
pub struct LengthMismatch {
    /// The length of the first vector.
    pub left: usize,
    /// The length of the second vector.
    pub right: usize,
}

impl LengthMismatch {
    /// The descriptive message of the error.
    pub open spec fn text() -> Seq<char> {
        "Vectors must have the same length"@
    }

    /// The descriptive message of the error.
    pub fn message(&self) -> (s: String)
        ensures
            s@ == Self::text(),
    {
        "Vectors must have the same length".to_owned()
    }
}

/// Accepts two vectors for comparison by their lengths: vectors of the same
/// length pass, vectors of different length fail with both lengths.
pub fn same_length(left: usize, right: usize) -> (r: Result<(), LengthMismatch>)
    ensures
        r is Ok <==> left == right,
        r matches Err(e) ==> e.left == left && e.right == right,
{
    if left == right {
        Ok(())
    } else {
        Err(LengthMismatch { left, right })
    }
}

} // verus!
