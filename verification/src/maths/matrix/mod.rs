//! Square matrices of sizes two, three and four.

pub mod expansion;
pub mod matrix2x2;
pub mod matrix3x3;
pub mod matrix4x4;

use vstd::prelude::*;

verus! {

/// The error of a matrix inversion: the matrix is singular.
#[derive(Debug)]
pub struct InverseMatrixError<'a>(pub &'a str);

impl<'a> Clone for InverseMatrixError<'a> {
    fn clone(&self) -> (r: Self)
        ensures
            r == *self,
    {
        InverseMatrixError(self.0)
    }
}

impl<'a> View for InverseMatrixError<'a> {
    type V = Seq<char>;

    /// The message that the error carries.
    open spec fn view(&self) -> Seq<char> {
        self.0@
    }
}

impl<'a> InverseMatrixError<'a> {
    /// The message that the error carries.
    pub fn message(&self) -> (r: &'a str)
        ensures
            r@ == self@,
    {
        self.0
    }
}

/// The index that comes `k`-th, counted from zero, once the index `deleted`
/// has been struck out.
pub open spec fn skip(k: int, deleted: int) -> int {
    if k < deleted {
        k
    } else {
        k + 1
    }
}

/// How many of the indices below `k` are left once the index `deleted` has
/// been struck out.
pub open spec fn kept(k: int, deleted: int) -> int {
    if k <= deleted {
        k
    } else {
        k - 1
    }
}

} // verus!
