//! Matrix layout descriptors: shape, stride, element type and batching of
//! one operand, validated once at construction.

use vstd::prelude::*;

use crate::error::MatMulError;

verus! {

/// Memory order of a matrix: which index runs contiguously.
#[derive(Clone, Copy, Debug, PartialEq, Eq, Structural)]
pub enum MatrixOrder {
    RowMajor,
    ColMajor,
}

/// Element data type of an operand, as an enumerated tag.
#[derive(Clone, Copy, Debug, PartialEq, Eq, Structural)]
pub enum DataType {
    F16,
    F32,
    F64,
}

/// Shape, stride, order, element type and batch structure of one operand.
///
/// Values are built by [`MatrixLayout::new`], which rejects parameters that
/// break the layout invariants with [`MatMulError::InvalidLayout`].
#[derive(Clone, Copy, Debug, PartialEq, Eq, Structural)]
pub struct MatrixLayout {
    pub rows: usize,
    pub cols: usize,
    /// Elements between consecutive rows (row-major) or columns (col-major).
    pub major_stride: usize,
    pub order: MatrixOrder,
    pub data_type: DataType,
    /// Number of batch slices; 1 for a non-batched operand.
    pub batch: usize,
    /// Element offset between consecutive batch slices; 0 exactly when the
    /// operand is not batched.
    pub batch_stride: usize,
}

/// The extent the leading-dimension stride must cover: the columns of a
/// row-major matrix, the rows of a column-major one.
pub open spec fn stride_extent(rows: usize, cols: usize, order: MatrixOrder) -> usize {
    match order {
        MatrixOrder::RowMajor => cols,
        MatrixOrder::ColMajor => rows,
    }
}

/// The layout invariants: the stride covers the extent it strides over,
/// at least one batch slice exists, and a batch stride is declared exactly
/// for batched use.
pub open spec fn layout_ok(
    rows: usize,
    cols: usize,
    major_stride: usize,
    order: MatrixOrder,
    batch: usize,
    batch_stride: usize,
) -> bool {
    &&& major_stride >= stride_extent(rows, cols, order)
    &&& batch >= 1
    &&& (batch == 1 <==> batch_stride == 0)
}

impl MatrixLayout {
    /// The invariant every constructed layout satisfies.
    pub open spec fn wf(self) -> bool {
        layout_ok(self.rows, self.cols, self.major_stride, self.order, self.batch,
            self.batch_stride)
    }

    /// Builds a layout descriptor, rejecting parameters that break the
    /// layout invariants.
    pub fn new(
        rows: usize,
        cols: usize,
        major_stride: usize,
        order: MatrixOrder,
        data_type: DataType,
        batch: usize,
        batch_stride: usize,
    ) -> (r: Result<MatrixLayout, MatMulError>)
        ensures
            r is Ok <==> layout_ok(rows, cols, major_stride, order, batch, batch_stride),
            r matches Ok(l) ==> l == (MatrixLayout {
                rows,
                cols,
                major_stride,
                order,
                data_type,
                batch,
                batch_stride,
            }) && l.wf(),
            r matches Err(e) ==> e == MatMulError::InvalidLayout,
    {
        let extent = match order {
            MatrixOrder::RowMajor => cols,
            MatrixOrder::ColMajor => rows,
        };
        if major_stride < extent {
            return Err(MatMulError::InvalidLayout);
        }
        if batch < 1 {
            return Err(MatMulError::InvalidLayout);
        }
        if (batch == 1) != (batch_stride == 0) {
            return Err(MatMulError::InvalidLayout);
        }
        Ok(MatrixLayout { rows, cols, major_stride, order, data_type, batch, batch_stride })
    }
}

} // verus!
