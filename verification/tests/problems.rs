use gemm_tuner::error::DimPair;
use gemm_tuner::error::MatMulError;
use gemm_tuner::layout::DataType;
use gemm_tuner::layout::MatrixLayout;
use gemm_tuner::layout::MatrixOrder;
use gemm_tuner::operation::ComputeType;
use gemm_tuner::operation::MatMulDescriptor;
use gemm_tuner::problem::MatMulProblem;

fn layout(rows: usize, cols: usize) -> MatrixLayout {
    MatrixLayout::new(rows, cols, cols, MatrixOrder::RowMajor, DataType::F32, 1, 0).unwrap()
}

fn batched_layout(rows: usize, cols: usize, batch: usize) -> MatrixLayout {
    let stride = if batch == 1 { 0 } else { rows * cols };
    MatrixLayout::new(rows, cols, cols, MatrixOrder::RowMajor, DataType::F32, batch, stride)
        .unwrap()
}

#[test]
fn problem_compatible_succeeds() {
    let op = MatMulDescriptor::new(ComputeType::F32, DataType::F32);
    let a = layout(2, 3);
    let b = layout(3, 5);
    let c = layout(2, 5);
    let p = MatMulProblem::new(&op, &a, &b, &c, &c);
    assert!(p.is_ok());
}

#[test]
fn problem_inner_mismatch() {
    let op = MatMulDescriptor::new(ComputeType::F32, DataType::F32);
    let a = layout(2, 4);
    let b = layout(3, 5);
    let c = layout(2, 5);
    let p = MatMulProblem::new(&op, &a, &b, &c, &c);
    assert_eq!(p.err(), Some(MatMulError::ShapeMismatch(DimPair::Inner)));
}

#[test]
fn problem_output_rows_mismatch() {
    let op = MatMulDescriptor::new(ComputeType::F32, DataType::F32);
    let a = layout(2, 3);
    let b = layout(3, 5);
    let c = layout(7, 5);
    let p = MatMulProblem::new(&op, &a, &b, &c, &c);
    assert_eq!(p.err(), Some(MatMulError::ShapeMismatch(DimPair::OutputRows)));
}

#[test]
fn problem_output_cols_mismatch() {
    let op = MatMulDescriptor::new(ComputeType::F32, DataType::F32);
    let a = layout(2, 3);
    let b = layout(3, 5);
    let c = layout(2, 6);
    let p = MatMulProblem::new(&op, &a, &b, &c, &c);
    assert_eq!(p.err(), Some(MatMulError::ShapeMismatch(DimPair::OutputCols)));
}

#[test]
fn problem_dest_rows_mismatch() {
    let op = MatMulDescriptor::new(ComputeType::F32, DataType::F32);
    let a = layout(2, 3);
    let b = layout(3, 5);
    let c = layout(2, 5);
    let d = layout(3, 5);
    let p = MatMulProblem::new(&op, &a, &b, &c, &d);
    assert_eq!(p.err(), Some(MatMulError::ShapeMismatch(DimPair::DestRows)));
}

#[test]
fn problem_dest_cols_mismatch() {
    let op = MatMulDescriptor::new(ComputeType::F32, DataType::F32);
    let a = layout(2, 3);
    let b = layout(3, 5);
    let c = layout(2, 5);
    let d = layout(2, 4);
    let p = MatMulProblem::new(&op, &a, &b, &c, &d);
    assert_eq!(p.err(), Some(MatMulError::ShapeMismatch(DimPair::DestCols)));
}

#[test]
fn problem_batch_mismatch() {
    let op = MatMulDescriptor::new(ComputeType::F32, DataType::F32);
    let a = batched_layout(2, 3, 2);
    let b = layout(3, 5);
    let c = layout(2, 5);
    let p = MatMulProblem::new(&op, &a, &b, &c, &c);
    assert_eq!(p.err(), Some(MatMulError::ShapeMismatch(DimPair::Batch)));
}

#[test]
fn problem_batched_compatible_succeeds() {
    let op = MatMulDescriptor::new(ComputeType::F32, DataType::F32);
    let a = batched_layout(2, 3, 4);
    let b = batched_layout(3, 5, 4);
    let c = batched_layout(2, 5, 4);
    let p = MatMulProblem::new(&op, &a, &b, &c, &c);
    assert!(p.is_ok());
}

#[test]
fn problem_key_copies_shape_and_types() {
    let op = MatMulDescriptor::new(ComputeType::F32, DataType::F32);
    let a = layout(2, 3);
    let b = layout(3, 5);
    let c = layout(2, 5);
    let p = MatMulProblem::new(&op, &a, &b, &c, &c).unwrap();
    let k = p.key();
    assert_eq!(k.op, op);
    assert_eq!(k.a, a);
    assert_eq!(k.b, b);
    assert_eq!(k.c, c);
    assert_eq!(k.d, c);
}

#[test]
fn problem_borrows_its_descriptors() {
    let op = MatMulDescriptor::new(ComputeType::F32, DataType::F32);
    let a = layout(2, 3);
    let b = layout(3, 5);
    let c = layout(2, 5);
    let p = MatMulProblem::new(&op, &a, &b, &c, &c).unwrap();
    assert!(std::ptr::eq(p.op(), &op));
    assert!(std::ptr::eq(p.a(), &a));
    assert!(std::ptr::eq(p.b(), &b));
    assert!(std::ptr::eq(p.c(), &c));
    assert!(std::ptr::eq(p.d(), &c));
}
