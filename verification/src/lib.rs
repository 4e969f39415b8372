use vstd::prelude::*;

pub mod data;
pub mod mat_func;
pub mod matrix;
pub mod network;

verus! {

/// The failure conditions the training engine reports. Every one of them is a
/// contract or configuration violation, never a recoverable runtime state.
#[derive(Clone, Copy, Debug, PartialEq, Eq, Structural)]
pub enum TrainError {
    /// Operand dimensions disagree for an elementwise or matrix operation.
    ShapeMismatch,
    /// A network, target label or scalar count lies outside its allowed range.
    InvalidConfiguration,
    /// A mini-batch update was invoked on an empty batch.
    EmptyBatch,
}

} // verus!
