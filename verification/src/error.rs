//! Error taxonomy of the execution layer.
//!
//! Every recoverable condition is reported as an explicit value; programming
//! errors (an algorithm handle paired with a problem it was not tuned for)
//! are excluded by preconditions instead and never reach a result value.

use vstd::prelude::*;

verus! {

/// The pair of dimensions that disagreed when a problem was composed.
#[derive(Clone, Copy, Debug, PartialEq, Eq, Structural)]
pub enum DimPair {
    /// Column count of operand A versus row count of operand B.
    Inner,
    /// Row count of input C versus row count of operand A.
    OutputRows,
    /// Column count of input C versus column count of operand B.
    OutputCols,
    /// Row count of output D versus row count of input C.
    DestRows,
    /// Column count of output D versus column count of input C.
    DestCols,
    /// Batch counts of the four operands.
    Batch,
}

/// A recoverable failure of the execution layer.
#[derive(Clone, Copy, Debug, PartialEq, Eq, Structural)]
pub enum MatMulError {
    /// Malformed shape, stride or batch parameters at layout construction.
    InvalidLayout,
    /// Incompatible operand dimensions when composing a problem; names the
    /// pair of dimensions that disagreed.
    ShapeMismatch(DimPair),
    /// A data-type and precision combination the vendor library rejected.
    UnsupportedCombination,
    /// A workspace buffer smaller than the chosen algorithm requires.
    InsufficientWorkspace,
    /// A device-level failure during enqueue, carrying the vendor library's
    /// native status code.
    ExecutionFailed(i32),
}

} // verus!
