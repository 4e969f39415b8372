use vstd::prelude::*;

use crate::matrix::Matrix;
use crate::TrainError;

verus! {

/// A class label, the digit a sample depicts.
pub type Label = u8;

/// The number of classes a target vector distinguishes by default: the ten
/// digits.
pub const NCLASS: usize = 10;

/// A one-hot column vector of length `size`: the scalar `one` in row `label`,
/// the scalar `zero` in every other row.
///
/// The scalar constants are the caller's, since the engine holds no scalar
/// literals of its own; the placement is fixed and proved here.
pub fn one_hot<T: Copy>(label: Label, size: usize, zero: T, one: T) -> (r: Result<
    Matrix<T>,
    TrainError,
>)
    ensures
        match r {
            Ok(m) => {
                &&& (label as int) < size
                &&& m.wf()
                &&& m.rows == size
                &&& m.cols == 1
                &&& m.at(label as int, 0) == one
                &&& forall|i: int| 0 <= i < size && i != label ==> m.at(i, 0) == zero
            },
            Err(e) => {
                &&& e == TrainError::InvalidConfiguration
                &&& (label as int) >= size
            },
        },
{
    if !((label as usize) < size) {
        return Err(TrainError::InvalidConfiguration);
    }
    let mut out: Vec<Vec<T>> = Vec::new();
    let mut i: usize = 0;
    while i < size
        invariant
            (label as int) < size,
            i <= size,
            out@.len() == i,
            forall|p: int| 0 <= p < i ==> (#[trigger] out@[p])@.len() == 1,
            forall|p: int| 0 <= p < i && p != label ==> out@[p]@[0] == zero,
            (label as int) < i ==> out@[label as int]@[0] == one,
        decreases size - i,
    {
        let mut row: Vec<T> = Vec::new();
        if i == label as usize {
            row.push(one);
        } else {
            row.push(zero);
        }
        out.push(row);
        i += 1;
    }
    Ok(Matrix { data: out, rows: size, cols: 1 })
}

/// The one-hot target vector for a digit label: length `NCLASS`, the scalar
/// `one` at row `label`, the scalar `zero` elsewhere. A label outside the
/// ten digits is an invalid configuration.
pub fn label_to_target<T: Copy>(label: Label, zero: T, one: T) -> (r: Result<
    Matrix<T>,
    TrainError,
>)
    ensures
        match r {
            Ok(m) => {
                &&& label <= 9
                &&& m.wf()
                &&& m.rows == NCLASS
                &&& m.cols == 1
                &&& m.at(label as int, 0) == one
                &&& forall|i: int| 0 <= i < NCLASS && i != label ==> m.at(i, 0) == zero
            },
            Err(e) => {
                &&& e == TrainError::InvalidConfiguration
                &&& label > 9
            },
        },
{
    one_hot(label, NCLASS, zero, one)
}

} // verus!
