//! The matrices that the serializers read: `nalgebra`'s dynamically sized
//! matrices of `i64`, seen through their rows.
use vstd::prelude::*;

verus! {

/// A dynamically sized matrix of `i64`, held as a `nalgebra::DMatrix<i64>`.
///
/// What the serializers read of it is named by [`matrix_rows`] and
/// [`matrix_ncols`]; the functions of this module that call `nalgebra` state
/// their results over these names.
#[verifier::external_body]
pub struct IntMatrix {
    inner: nalgebra::DMatrix<i64>,
}

/// The rows of a matrix, top to bottom, each left to right.
pub uninterp spec fn matrix_rows(m: IntMatrix) -> Seq<Seq<i64>>;

/// The number of columns of a matrix (also known when it has no rows).
pub uninterp spec fn matrix_ncols(m: IntMatrix) -> nat;

/// The rows of `m` all have `matrix_ncols(m)` cells.
pub open spec fn is_rectangular(m: IntMatrix) -> bool {
    forall|i: int|
        0 <= i < matrix_rows(m).len() ==> #[trigger] matrix_rows(m)[i].len() == matrix_ncols(m)
}

/// The matrix of `nrows` rows and `ncols` columns whose cells, read row after
/// row, are `data`.
pub open spec fn holds_row_major(m: IntMatrix, nrows: nat, ncols: nat, data: Seq<i64>) -> bool {
    &&& matrix_rows(m).len() == nrows
    &&& matrix_ncols(m) == ncols
    &&& is_rectangular(m)
    &&& forall|i: int, j: int|
        0 <= i < nrows && 0 <= j < ncols ==> #[trigger] matrix_rows(m)[i][j] == data[i * ncols + j]
}

impl IntMatrix {
    /// Relies on `nalgebra::DMatrix::from_row_slice`: the matrix whose cells,
    /// row after row, are `data` (it panics unless `data` has exactly
    /// `nrows * ncols` cells).
    #[verifier::external_body]
    pub(crate) fn new_row_major(nrows: usize, ncols: usize, data: &[i64]) -> (r: IntMatrix)
        requires
            data@.len() == nrows * ncols,
        ensures
            holds_row_major(r, nrows as nat, ncols as nat, data@),
    {
        IntMatrix { inner: nalgebra::DMatrix::from_row_slice(nrows, ncols, data) }
    }

    /// Relies on `nalgebra::Matrix::nrows`: the number of rows.
    #[verifier::external_body]
    pub(crate) fn nrows(&self) -> (r: usize)
        ensures
            r == matrix_rows(*self).len(),
    {
        self.inner.nrows()
    }

    /// Relies on `nalgebra::Matrix::ncols`: the number of columns, which every
    /// row has.
    #[verifier::external_body]
    pub(crate) fn ncols(&self) -> (r: usize)
        ensures
            r == matrix_ncols(*self),
            forall|i: int|
                0 <= i < matrix_rows(*self).len() ==> #[trigger] matrix_rows(*self)[i].len() == r,
    {
        self.inner.ncols()
    }

    /// Relies on `nalgebra`'s `Index<(usize, usize)>` for matrices: the cell
    /// in row `i` and column `j` (it panics outside the shape).
    #[verifier::external_body]
    pub(crate) fn cell(&self, i: usize, j: usize) -> (r: i64)
        requires
            i < matrix_rows(*self).len(),
            j < matrix_ncols(*self),
        ensures
            r == matrix_rows(*self)[i as int][j as int],
    {
        self.inner[(i, j)]
    }

    /// The matrix of `nrows` rows and `ncols` columns whose cells, row after
    /// row, are `data`; `None` unless `data` has exactly `nrows * ncols`
    /// cells.
    pub fn from_row_slice(nrows: usize, ncols: usize, data: &[i64]) -> (r: Option<IntMatrix>)
        ensures
            r is Some <==> data@.len() == nrows * ncols,
            r is Some ==> holds_row_major(r->Some_0, nrows as nat, ncols as nat, data@),
    {
        let len = data.len();
        match nrows.checked_mul(ncols) {
            Some(n) if n == len => Some(IntMatrix::new_row_major(nrows, ncols, data)),
            _ => None,
        }
    }

    /// The numbers of rows and of columns.
    pub fn shape(&self) -> (r: (usize, usize))
        ensures
            r.0 == matrix_rows(*self).len(),
            r.1 == matrix_ncols(*self),
            is_rectangular(*self),
    {
        (self.nrows(), self.ncols())
    }

    /// The cell in row `i` and column `j`, or `None` outside the matrix.
    pub fn get(&self, i: usize, j: usize) -> (r: Option<i64>)
        ensures
            r is Some <==> i < matrix_rows(*self).len() && j < matrix_ncols(*self),
            r is Some ==> r->Some_0 == matrix_rows(*self)[i as int][j as int],
    {
        if i < self.nrows() && j < self.ncols() {
            Some(self.cell(i, j))
        } else {
            None
        }
    }
}

} // verus!
