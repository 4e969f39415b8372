use vstd::prelude::*;

use crate::matrix::{map_entries, mul_val, sub_val, Matrix};

verus! {

impl<T: Copy + core::ops::Mul<Output = T>> Matrix<T> {
    /// Scales every entry by `n`, in place.
    pub fn mult_mat_by_n(&mut self, n: T)
        requires
            old(self).wf(),
        ensures
            final(self).wf(),
            final(self).rows == old(self).rows,
            final(self).cols == old(self).cols,
    {
        let mut out: Vec<Vec<T>> = Vec::new();
        let mut i: usize = 0;
        while i < self.rows
            invariant
                self.wf(),
                i <= self.rows,
                out@.len() == i,
                forall|p: int| 0 <= p < i ==> (#[trigger] out@[p])@.len() == self.cols,
            decreases self.rows - i,
        {
            let mut row: Vec<T> = Vec::new();
            let mut j: usize = 0;
            while j < self.cols
                invariant
                    self.wf(),
                    i < self.rows,
                    j <= self.cols,
                    row@.len() == j,
                decreases self.cols - j,
            {
                row.push(mul_val(self.data[i][j], n));
                j += 1;
            }
            out.push(row);
            i += 1;
        }
        self.data = out;
    }
}

impl<T: Copy> Matrix<T> {
    /// Applies an activation function to every entry, in place: every new
    /// entry is an output of `sigmoid` on the entry it replaces.
    ///
    /// The scalar function itself is the caller's: the engine fixes only
    /// where it is applied, never what it computes.
    pub fn sigmoid_mat<F: Fn(T) -> T + Copy>(&mut self, sigmoid: F)
        requires
            old(self).wf(),
            forall|x: T| #[trigger] call_requires(sigmoid, (x,)),
        ensures
            final(self).wf(),
            final(self).rows == old(self).rows,
            final(self).cols == old(self).cols,
            forall|i: int, j: int|
                0 <= i < old(self).rows && 0 <= j < old(self).cols ==> call_ensures(
                    sigmoid,
                    (old(self).at(i, j),),
                    #[trigger] final(self).at(i, j),
                ),
    {
        let mapped = map_entries(&*self, sigmoid);
        self.data = mapped.data;
    }
}

/// The Hadamard (entrywise) product of two matrices of equal dimensions.
pub fn hadamard<T: Copy + core::ops::Mul<Output = T>>(m1: &Matrix<T>, m2: &Matrix<T>) -> (r:
    Matrix<T>)
    requires
        m1.wf(),
        m2.wf(),
        m1.rows == m2.rows,
        m1.cols == m2.cols,
    ensures
        r.wf(),
        r.rows == m1.rows,
        r.cols == m1.cols,
{
    let mut out: Vec<Vec<T>> = Vec::new();
    let mut i: usize = 0;
    while i < m1.rows
        invariant
            m1.wf(),
            m2.wf(),
            m1.rows == m2.rows,
            m1.cols == m2.cols,
            i <= m1.rows,
            out@.len() == i,
            forall|p: int| 0 <= p < i ==> (#[trigger] out@[p])@.len() == m1.cols,
        decreases m1.rows - i,
    {
        let mut row: Vec<T> = Vec::new();
        let mut j: usize = 0;
        while j < m1.cols
            invariant
                m1.wf(),
                m2.wf(),
                m1.rows == m2.rows,
                m1.cols == m2.cols,
                i < m1.rows,
                j <= m1.cols,
                row@.len() == j,
            decreases m1.cols - j,
        {
            row.push(mul_val(m1.data[i][j], m2.data[i][j]));
            j += 1;
        }
        out.push(row);
        i += 1;
    }
    Matrix { data: out, rows: m1.rows, cols: m1.cols }
}

/// The derivative of the mean-squared-error cost with respect to the output
/// activation: `result - target`, entrywise, for two column vectors of equal
/// length.
pub fn cost_prime<T: Copy + core::ops::Sub<Output = T>>(result: &Matrix<T>, target: &Matrix<T>) -> (r:
    Matrix<T>)
    requires
        result.wf(),
        target.wf(),
        result.cols == 1,
        target.cols == 1,
        result.rows == target.rows,
    ensures
        r.wf(),
        r.rows == result.rows,
        r.cols == 1,
{
    let mut out: Vec<Vec<T>> = Vec::new();
    let mut i: usize = 0;
    while i < result.rows
        invariant
            result.wf(),
            target.wf(),
            result.cols == 1,
            target.cols == 1,
            result.rows == target.rows,
            i <= result.rows,
            out@.len() == i,
            forall|p: int| 0 <= p < i ==> (#[trigger] out@[p])@.len() == 1,
        decreases result.rows - i,
    {
        let mut row: Vec<T> = Vec::new();
        row.push(sub_val(result.data[i][0], target.data[i][0]));
        out.push(row);
        i += 1;
    }
    Matrix { data: out, rows: result.rows, cols: 1 }
}

/// The activation derivative applied to every entry of a matrix: every
/// result entry is an output of `sig_prime` on the corresponding input
/// entry.
///
/// The derivative function itself is the caller's, as in `sigmoid_mat`.
pub fn sig_prime_mat<T: Copy, F: Fn(T) -> T + Copy>(from: &Matrix<T>, sig_prime: F) -> (r: Matrix<
    T,
>)
    requires
        from.wf(),
        forall|x: T| #[trigger] call_requires(sig_prime, (x,)),
    ensures
        r.wf(),
        r.rows == from.rows,
        r.cols == from.cols,
        forall|i: int, j: int|
            0 <= i < from.rows && 0 <= j < from.cols ==> call_ensures(
                sig_prime,
                (from.at(i, j),),
                #[trigger] r.at(i, j),
            ),
{
    map_entries(from, sig_prime)
}

/// Scales every matrix of a sequence by `n`, in place.
pub fn mult_v_mat_by_n<T: Copy + core::ops::Mul<Output = T>>(v: &mut Vec<Matrix<T>>, n: T)
    requires
        forall|k: int| 0 <= k < old(v)@.len() ==> (#[trigger] old(v)@[k]).wf(),
    ensures
        final(v)@.len() == old(v)@.len(),
        forall|k: int|
            0 <= k < old(v)@.len() ==> {
                &&& (#[trigger] final(v)@[k]).wf()
                &&& final(v)@[k].rows == old(v)@[k].rows
                &&& final(v)@[k].cols == old(v)@[k].cols
            },
{
    let mut i: usize = 0;
    while i < v.len()
        invariant
            i <= v@.len(),
            v@.len() == old(v)@.len(),
            forall|k: int| i <= k < v@.len() ==> v@[k] == old(v)@[k],
            forall|k: int| 0 <= k < v@.len() ==> (#[trigger] v@[k]).wf(),
            forall|k: int|
                0 <= k < i ==> {
                    &&& (#[trigger] v@[k]).rows == old(v)@[k].rows
                    &&& v@[k].cols == old(v)@[k].cols
                },
        decreases v@.len() - i,
    {
        let mut m = v.remove(i);
        m.mult_mat_by_n(n);
        v.insert(i, m);
        i += 1;
    }
}

/// Adds `delta` into `v`, pairing matrices by position, in place. The two
/// sequences must have the same length and matching dimensions at every
/// position.
pub fn add_vmat<T: Copy + faer::traits::ComplexField>(v: &mut Vec<Matrix<T>>, delta: &Vec<
    Matrix<T>,
>)
    requires
        old(v)@.len() == delta@.len(),
        forall|k: int| 0 <= k < old(v)@.len() ==> (#[trigger] old(v)@[k]).wf(),
        forall|k: int| 0 <= k < delta@.len() ==> (#[trigger] delta@[k]).wf(),
        forall|k: int|
            0 <= k < old(v)@.len() ==> {
                &&& (#[trigger] old(v)@[k]).rows == delta@[k].rows
                &&& old(v)@[k].cols == delta@[k].cols
            },
    ensures
        final(v)@.len() == old(v)@.len(),
        forall|k: int|
            0 <= k < old(v)@.len() ==> {
                &&& (#[trigger] final(v)@[k]).wf()
                &&& final(v)@[k].rows == old(v)@[k].rows
                &&& final(v)@[k].cols == old(v)@[k].cols
            },
{
    let mut i: usize = 0;
    while i < v.len()
        invariant
            i <= v@.len(),
            v@.len() == old(v)@.len(),
            old(v)@.len() == delta@.len(),
            forall|k: int| i <= k < v@.len() ==> v@[k] == old(v)@[k],
            forall|k: int| 0 <= k < v@.len() ==> (#[trigger] v@[k]).wf(),
            forall|k: int| 0 <= k < delta@.len() ==> (#[trigger] delta@[k]).wf(),
            forall|k: int|
                i <= k < v@.len() ==> {
                    &&& (#[trigger] v@[k]).rows == delta@[k].rows
                    &&& v@[k].cols == delta@[k].cols
                },
            forall|k: int|
                0 <= k < i ==> {
                    &&& (#[trigger] v@[k]).rows == old(v)@[k].rows
                    &&& v@[k].cols == old(v)@[k].cols
                },
        decreases v@.len() - i,
    {
        let m = v.remove(i);
        let summed = m.mat_add(&delta[i]);
        v.insert(i, summed);
        i += 1;
    }
}

} // verus!
