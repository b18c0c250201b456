//! Linear systems: a matrix whose last column holds the right-hand sides,
//! paired with the unknowns that its other columns stand for.
use vstd::prelude::*;
use crate::matrix::{is_rectangular, matrix_ncols, IntMatrix};
use unknowns::Unknowns;

pub mod fmt;
pub mod unknowns;

verus! {

/// An index into a vector of unknowns at or past its end.
#[derive(Clone, Copy, Debug, PartialEq, Eq, Structural)]
pub struct OutOfBoundsError;

/// How the unknowns of a vector are numbered in their subscripts.
#[derive(Clone, Copy, Debug, PartialEq, Eq, Structural)]
pub enum Numbering {
    /// `x_{0}`, `x_{1}`, ...
    ZeroBased,
    /// `x_{1}`, `x_{2}`, ...
    OneBased,
}

impl Numbering {
    /// The number written for the unknown at zero-based index `i`.
    pub open spec fn spec_number(self, i: int) -> int {
        match self {
            Numbering::ZeroBased => i,
            Numbering::OneBased => i + 1,
        }
    }
}

/// A linear system: row `i` of `matrix` reads
/// `matrix[i][0] u_0 + ... + matrix[i][n-2] u_{n-2} = matrix[i][n-1]` over the
/// unknowns `u`.
pub struct LinSys<U: Unknowns> {
    /// The coefficients, with the right-hand sides as the last column.
    pub matrix: IntMatrix,
    /// The unknowns that the columns but the last stand for.
    pub unknowns: U,
}

impl<U: Unknowns> LinSys<U> {
    /// There is one unknown for each column but the last.
    pub open spec fn wf(&self) -> bool {
        &&& is_rectangular(self.matrix)
        &&& matrix_ncols(self.matrix) >= 1
        &&& self.unknowns.spec_len() == matrix_ncols(self.matrix) - 1
    }

    /// The linear system over `mrls` and `unknowns`, or `None` unless there is
    /// exactly one unknown for each column of `mrls` but the last.
    pub fn new(mrls: IntMatrix, unknowns: U) -> (r: Option<Self>)
        ensures
            r is Some <==> matrix_ncols(mrls) >= 1 && unknowns.spec_len() == matrix_ncols(mrls) - 1,
            r is Some ==> r->Some_0.matrix == mrls && r->Some_0.unknowns == unknowns
                && r->Some_0.wf(),
    {
        let ncols = mrls.ncols();
        let len = match unknowns.len() {
            Ok(len) => len,
            Err(_) => {
                return None;
            },
        };
        if ncols == 0 || len != ncols - 1 {
            return None;
        }
        Some(LinSys { matrix: mrls, unknowns })
    }
}

} // verus!
