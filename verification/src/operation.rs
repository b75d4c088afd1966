//! Operation descriptors: the compute precision and scalar type of a
//! multiplication, independent of operand shapes.

use vstd::prelude::*;

use crate::layout::DataType;

verus! {

/// Compute precision the multiplication accumulates in.
#[derive(Clone, Copy, Debug, PartialEq, Eq, Structural)]
pub enum ComputeType {
    F16,
    F32,
    F64,
}

/// Compute precision and the scalar type of the alpha and beta
/// coefficients.  Construction always succeeds at this layer; whether the
/// vendor library supports the combination against concrete operand types
/// is its own decision, surfaced by the tuner as
/// [`crate::error::MatMulError::UnsupportedCombination`].
#[derive(Clone, Copy, Debug, PartialEq, Eq, Structural)]
pub struct MatMulDescriptor {
    pub compute: ComputeType,
    pub scalar_type: DataType,
}

impl MatMulDescriptor {
    /// Builds an operation descriptor from the two tags.
    pub fn new(compute: ComputeType, scalar_type: DataType) -> (r: MatMulDescriptor)
        ensures
            r == (MatMulDescriptor { compute, scalar_type }),
    {
        MatMulDescriptor { compute, scalar_type }
    }
}

} // verus!
