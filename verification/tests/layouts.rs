use gemm_tuner::error::MatMulError;
use gemm_tuner::layout::DataType;
use gemm_tuner::layout::MatrixLayout;
use gemm_tuner::layout::MatrixOrder;

#[test]
fn layout_valid_row_major() {
    let l = MatrixLayout::new(4, 3, 3, MatrixOrder::RowMajor, DataType::F32, 1, 0).unwrap();
    assert_eq!(l.rows, 4);
    assert_eq!(l.cols, 3);
    assert_eq!(l.major_stride, 3);
    assert_eq!(l.order, MatrixOrder::RowMajor);
    assert_eq!(l.data_type, DataType::F32);
    assert_eq!(l.batch, 1);
    assert_eq!(l.batch_stride, 0);
}

#[test]
fn layout_row_major_stride_may_exceed_cols() {
    let l = MatrixLayout::new(4, 3, 8, MatrixOrder::RowMajor, DataType::F32, 1, 0);
    assert!(l.is_ok());
}

#[test]
fn layout_stride_below_extent_rejected() {
    let l = MatrixLayout::new(4, 3, 2, MatrixOrder::RowMajor, DataType::F32, 1, 0);
    assert_eq!(l, Err(MatMulError::InvalidLayout));
}

#[test]
fn layout_col_major_stride_covers_rows() {
    let ok = MatrixLayout::new(4, 3, 4, MatrixOrder::ColMajor, DataType::F32, 1, 0);
    assert!(ok.is_ok());
    let bad = MatrixLayout::new(4, 3, 3, MatrixOrder::ColMajor, DataType::F32, 1, 0);
    assert_eq!(bad, Err(MatMulError::InvalidLayout));
}

#[test]
fn layout_batch_zero_rejected() {
    let l = MatrixLayout::new(4, 3, 3, MatrixOrder::RowMajor, DataType::F32, 0, 0);
    assert_eq!(l, Err(MatMulError::InvalidLayout));
}

#[test]
fn layout_batch_stride_on_single_batch_rejected() {
    let l = MatrixLayout::new(4, 3, 3, MatrixOrder::RowMajor, DataType::F32, 1, 12);
    assert_eq!(l, Err(MatMulError::InvalidLayout));
}

#[test]
fn layout_batched_without_stride_rejected() {
    let l = MatrixLayout::new(4, 3, 3, MatrixOrder::RowMajor, DataType::F32, 2, 0);
    assert_eq!(l, Err(MatMulError::InvalidLayout));
}

#[test]
fn layout_batched_valid() {
    let l = MatrixLayout::new(4, 3, 3, MatrixOrder::RowMajor, DataType::F16, 2, 12).unwrap();
    assert_eq!(l.batch, 2);
    assert_eq!(l.batch_stride, 12);
    assert_eq!(l.data_type, DataType::F16);
}
