use vstd::prelude::*;

use crate::TrainError;

verus! {

/// A dense matrix of scalars, stored row by row.
///
/// The scalar type is a parameter: the training engine never inspects a
/// scalar's value, it only moves scalars around and combines them through
/// the arithmetic of the underlying linear-algebra library.
#[derive(Debug)]
pub struct Matrix<T> {
    /// The entries, one inner vector per row.
    pub data: Vec<Vec<T>>,
    /// The number of rows.
    pub rows: usize,
    /// The number of columns.
    pub cols: usize,
}

impl<T> Matrix<T> {
    /// The stated dimensions agree with the stored entries.
    pub open spec fn wf(&self) -> bool {
        &&& self.data@.len() == self.rows
        &&& forall|i: int|
            0 <= i < self.data@.len() ==> (#[trigger] self.data@[i])@.len() == self.cols
    }

    /// The entry in row `i`, column `j`.
    pub open spec fn at(&self, i: int, j: int) -> T {
        self.data@[i]@[j]
    }

    /// Builds a matrix from a vector of rows.
    ///
    /// Rejects an empty vector and a ragged one: every row must have the
    /// length of the first.
    pub fn from_rows(entries: Vec<Vec<T>>) -> (r: Result<Matrix<T>, TrainError>)
        ensures
            match r {
                Ok(m) => {
                    &&& m.wf()
                    &&& entries@.len() > 0
                    &&& m.rows == entries@.len()
                    &&& m.cols == entries@[0]@.len()
                    &&& forall|i: int|
                        0 <= i < entries@.len() ==> (#[trigger] m.data@[i])@ == entries@[i]@
                },
                Err(e) => {
                    &&& e == TrainError::ShapeMismatch
                    &&& (entries@.len() == 0 || exists|i: int|
                        0 <= i < entries@.len() && (#[trigger] entries@[i])@.len()
                            != entries@[0]@.len())
                },
            },
    {
        if entries.len() == 0 {
            return Err(TrainError::ShapeMismatch);
        }
        let cols = entries[0].len();
        let mut i: usize = 1;
        while i < entries.len()
            invariant
                1 <= i <= entries@.len(),
                cols == entries@[0]@.len(),
                forall|k: int| 0 <= k < i ==> (#[trigger] entries@[k])@.len() == cols,
            decreases entries@.len() - i,
        {
            if entries[i].len() != cols {
                return Err(TrainError::ShapeMismatch);
            }
            i += 1;
        }
        let rows = entries.len();
        Ok(Matrix { data: entries, rows, cols })
    }
}

impl<T> Matrix<T> {
    /// The number of rows.
    pub fn nrows(&self) -> (r: usize)
        ensures
            r == self.rows,
    {
        self.rows
    }

    /// The number of columns.
    pub fn ncols(&self) -> (r: usize)
        ensures
            r == self.cols,
    {
        self.cols
    }
}

impl<T: Copy> Matrix<T> {
    /// Reads one entry.
    pub fn get(&self, i: usize, j: usize) -> (r: T)
        requires
            self.wf(),
            i < self.rows,
            j < self.cols,
        ensures
            r == self.at(i as int, j as int),
    {
        self.data[i][j]
    }

    /// An entrywise copy of the matrix.
    pub fn duplicate(&self) -> (r: Matrix<T>)
        requires
            self.wf(),
        ensures
            r.wf(),
            r.rows == self.rows,
            r.cols == self.cols,
            forall|i: int, j: int|
                0 <= i < self.rows && 0 <= j < self.cols ==> r.at(i, j) == self.at(i, j),
    {
        let mut out: Vec<Vec<T>> = Vec::new();
        let mut i: usize = 0;
        while i < self.rows
            invariant
                self.wf(),
                i <= self.rows,
                out@.len() == i,
                forall|p: int| 0 <= p < i ==> (#[trigger] out@[p])@.len() == self.cols,
                forall|p: int, q: int|
                    0 <= p < i && 0 <= q < self.cols ==> out@[p]@[q] == self.at(p, q),
            decreases self.rows - i,
        {
            let mut row: Vec<T> = Vec::new();
            let mut j: usize = 0;
            while j < self.cols
                invariant
                    self.wf(),
                    i < self.rows,
                    j <= self.cols,
                    row@.len() == j,
                    forall|q: int| 0 <= q < j ==> row@[q] == self.at(i as int, q),
                decreases self.cols - j,
            {
                row.push(self.data[i][j]);
                j += 1;
            }
            out.push(row);
            i += 1;
        }
        Matrix { data: out, rows: self.rows, cols: self.cols }
    }

    /// The transpose: rows become columns.
    ///
    /// The underlying library offers a transposed view of a matrix; a fresh
    /// rectangle of entries is wanted here, and the rearrangement is plain
    /// enough to state entry by entry, so it is built and proved directly.
    pub fn transpose(&self) -> (r: Matrix<T>)
        requires
            self.wf(),
        ensures
            r.wf(),
            r.rows == self.cols,
            r.cols == self.rows,
            forall|i: int, j: int|
                0 <= i < r.rows && 0 <= j < r.cols ==> r.at(i, j) == self.at(j, i),
    {
        let mut out: Vec<Vec<T>> = Vec::new();
        let mut i: usize = 0;
        while i < self.cols
            invariant
                self.wf(),
                i <= self.cols,
                out@.len() == i,
                forall|p: int| 0 <= p < i ==> (#[trigger] out@[p])@.len() == self.rows,
                forall|p: int, q: int|
                    0 <= p < i && 0 <= q < self.rows ==> out@[p]@[q] == self.at(q, p),
            decreases self.cols - i,
        {
            let mut row: Vec<T> = Vec::new();
            let mut j: usize = 0;
            while j < self.rows
                invariant
                    self.wf(),
                    i < self.cols,
                    j <= self.rows,
                    row@.len() == j,
                    forall|q: int| 0 <= q < j ==> row@[q] == self.at(q, i as int),
                decreases self.rows - j,
            {
                row.push(self.data[j][i]);
                j += 1;
            }
            out.push(row);
            i += 1;
        }
        Matrix { data: out, rows: self.cols, cols: self.rows }
    }
}

impl<T: Copy + faer::traits::ComplexField> Matrix<T> {
    /// A matrix of the given dimensions, every entry filled from the
    /// arithmetic library's scalar zero. The contract states the
    /// dimensions; that the entries are zero is a fact about the scalar
    /// type, which no contract here can name.
    pub fn zeros(rows: usize, cols: usize) -> (r: Matrix<T>)
        ensures
            r.wf(),
            r.rows == rows,
            r.cols == cols,
    {
        let mut out: Vec<Vec<T>> = Vec::new();
        let mut i: usize = 0;
        while i < rows
            invariant
                i <= rows,
                out@.len() == i,
                forall|p: int| 0 <= p < i ==> (#[trigger] out@[p])@.len() == cols,
            decreases rows - i,
        {
            let mut row: Vec<T> = Vec::new();
            let mut j: usize = 0;
            while j < cols
                invariant
                    j <= cols,
                    row@.len() == j,
                decreases cols - j,
            {
                row.push(zero_val());
                j += 1;
            }
            out.push(row);
            i += 1;
        }
        Matrix { data: out, rows, cols }
    }

    /// The matrix product `self * other`.
    pub fn mat_mul(&self, other: &Matrix<T>) -> (r: Matrix<T>)
        requires
            self.wf(),
            other.wf(),
            self.cols == other.rows,
        ensures
            r.wf(),
            r.rows == self.rows,
            r.cols == other.cols,
    {
        let entries = mat_mul_data(&self.data, &other.data, self.rows, self.cols, other.cols);
        Matrix { data: entries, rows: self.rows, cols: other.cols }
    }

    /// The entrywise sum `self + other`.
    pub fn mat_add(&self, other: &Matrix<T>) -> (r: Matrix<T>)
        requires
            self.wf(),
            other.wf(),
            self.rows == other.rows,
            self.cols == other.cols,
        ensures
            r.wf(),
            r.rows == self.rows,
            r.cols == self.cols,
    {
        let entries = mat_add_data(&self.data, &other.data, self.rows, self.cols);
        Matrix { data: entries, rows: self.rows, cols: self.cols }
    }
}

impl<T: Copy> Matrix<T> {
    /// A matrix of the given dimensions with every entry drawn at random.
    pub fn random(rows: usize, cols: usize) -> (r: Matrix<T>) where
        rand::distributions::Standard: rand::distributions::Distribution<T>,

        ensures
            r.wf(),
            r.rows == rows,
            r.cols == cols,
    {
        let mut out: Vec<Vec<T>> = Vec::new();
        let mut i: usize = 0;
        while i < rows
            invariant
                i <= rows,
                out@.len() == i,
                forall|p: int| 0 <= p < i ==> (#[trigger] out@[p])@.len() == cols,
            decreases rows - i,
        {
            let mut row: Vec<T> = Vec::new();
            let mut j: usize = 0;
            while j < cols
                invariant
                    j <= cols,
                    row@.len() == j,
                decreases cols - j,
            {
                row.push(random_val());
                j += 1;
            }
            out.push(row);
            i += 1;
        }
        Matrix { data: out, rows, cols }
    }
}

/// Applies a scalar function to every entry, returning a matrix of the same
/// dimensions: every result entry is an output of `f` on the corresponding
/// input entry.
pub fn map_entries<T: Copy, F: Fn(T) -> T + Copy>(m: &Matrix<T>, f: F) -> (r: Matrix<T>)
    requires
        m.wf(),
        forall|x: T| #[trigger] call_requires(f, (x,)),
    ensures
        r.wf(),
        r.rows == m.rows,
        r.cols == m.cols,
        forall|i: int, j: int|
            0 <= i < m.rows && 0 <= j < m.cols ==> call_ensures(
                f,
                (m.at(i, j),),
                #[trigger] r.at(i, j),
            ),
{
    let mut out: Vec<Vec<T>> = Vec::new();
    let mut i: usize = 0;
    while i < m.rows
        invariant
            m.wf(),
            forall|x: T| #[trigger] call_requires(f, (x,)),
            i <= m.rows,
            out@.len() == i,
            forall|p: int| 0 <= p < i ==> (#[trigger] out@[p])@.len() == m.cols,
            forall|p: int, q: int|
                0 <= p < i && 0 <= q < m.cols ==> call_ensures(
                    f,
                    (m.at(p, q),),
                    #[trigger] out@[p]@[q],
                ),
        decreases m.rows - i,
    {
        let mut row: Vec<T> = Vec::new();
        let mut j: usize = 0;
        while j < m.cols
            invariant
                m.wf(),
                forall|x: T| #[trigger] call_requires(f, (x,)),
                i < m.rows,
                j <= m.cols,
                row@.len() == j,
                forall|q: int|
                    0 <= q < j ==> call_ensures(f, (m.at(i as int, q),), #[trigger] row@[q]),
            decreases m.cols - j,
        {
            row.push(f(m.data[i][j]));
            j += 1;
        }
        out.push(row);
        i += 1;
    }
    Matrix { data: out, rows: m.rows, cols: m.cols }
}

/// Relies on the linear-algebra library's matrix product (`faer::Mat`'s `*`
/// operator): the product of an `m`-by-`k` and a `k`-by-`n` matrix is an
/// `m`-by-`n` matrix. Entry values are left unspecified: no claim about
/// floating-point arithmetic is made anywhere in this crate.
#[verifier::external_body]
fn mat_mul_data<T: Copy + faer::traits::ComplexField>(
    a: &Vec<Vec<T>>,
    b: &Vec<Vec<T>>,
    m: usize,
    k: usize,
    n: usize,
) -> (r: Vec<Vec<T>>)
    requires
        a@.len() == m,
        forall|i: int| 0 <= i < m ==> (#[trigger] a@[i])@.len() == k,
        b@.len() == k,
        forall|i: int| 0 <= i < k ==> (#[trigger] b@[i])@.len() == n,
    ensures
        r@.len() == m,
        forall|i: int| 0 <= i < m ==> (#[trigger] r@[i])@.len() == n,
{
    let am = faer::Mat::from_fn(m, k, |i, j| a[i][j]);
    let bm = faer::Mat::from_fn(k, n, |i, j| b[i][j]);
    let p = am * bm;
    (0..m).map(|i| (0..n).map(|j| p[(i, j)]).collect()).collect()
}

/// Relies on the linear-algebra library's matrix sum (`faer::Mat`'s `+`
/// operator): the sum of two `m`-by-`n` matrices is an `m`-by-`n` matrix.
#[verifier::external_body]
fn mat_add_data<T: Copy + faer::traits::ComplexField>(
    a: &Vec<Vec<T>>,
    b: &Vec<Vec<T>>,
    m: usize,
    n: usize,
) -> (r: Vec<Vec<T>>)
    requires
        a@.len() == m,
        forall|i: int| 0 <= i < m ==> (#[trigger] a@[i])@.len() == n,
        b@.len() == m,
        forall|i: int| 0 <= i < m ==> (#[trigger] b@[i])@.len() == n,
    ensures
        r@.len() == m,
        forall|i: int| 0 <= i < m ==> (#[trigger] r@[i])@.len() == n,
{
    let am = faer::Mat::from_fn(m, n, |i, j| a[i][j]);
    let bm = faer::Mat::from_fn(m, n, |i, j| b[i][j]);
    let s = am + bm;
    (0..m).map(|i| (0..n).map(|j| s[(i, j)]).collect()).collect()
}

/// Relies on `faer::traits::ComplexField::zero_impl`: the scalar zero.
#[verifier::external_body]
fn zero_val<T: faer::traits::ComplexField>() -> T {
    T::zero_impl()
}

/// Relies on `rand::random`: one scalar drawn from the generator's uniform
/// distribution. Nothing is assumed about the value.
#[verifier::external_body]
fn random_val<T>() -> T where rand::distributions::Standard: rand::distributions::Distribution<T> {
    rand::random::<T>()
}

/// Relies on `core::ops::Mul` for the scalar type: the product of two scalars.
#[verifier::external_body]
pub(crate) fn mul_val<T: Copy + core::ops::Mul<Output = T>>(a: T, b: T) -> T {
    a * b
}

/// Relies on `core::ops::Sub` for the scalar type: the difference `a - b`.
#[verifier::external_body]
pub(crate) fn sub_val<T: Copy + core::ops::Sub<Output = T>>(a: T, b: T) -> T {
    a - b
}

/// Relies on `core::ops::Div` for the scalar type: the quotient `a / b`.
/// Callers only divide by a scalar obtained from a positive sample count,
/// so the divisor is never the scalar zero.
#[verifier::external_body]
pub(crate) fn div_val<T: Copy + core::ops::Div<Output = T>>(a: T, b: T) -> T {
    a / b
}

/// Relies on `core::ops::Neg` for the scalar type: the negation `-a`.
#[verifier::external_body]
pub(crate) fn neg_val<T: Copy + core::ops::Neg<Output = T>>(a: T) -> T {
    -a
}

/// Relies on `num_traits::NumCast::from`: the sample count converted into the
/// scalar type, or `None` where the type cannot represent it.
#[verifier::external_body]
pub(crate) fn count_scalar<T: num_traits::NumCast>(n: usize) -> Option<T> {
    num_traits::NumCast::from(n)
}

} // verus!
