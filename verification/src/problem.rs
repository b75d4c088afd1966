//! Composition of one operation descriptor and four matrix layouts into a
//! complete, shape-checked multiplication problem.

use vstd::prelude::*;

use crate::error::DimPair;
use crate::error::MatMulError;
use crate::layout::MatrixLayout;
use crate::operation::MatMulDescriptor;

verus! {

/// An owned copy of everything that identifies a problem's exact shape and
/// types.  Algorithm handles are stamped with the key of the problem they
/// were tuned for, so a handle can only execute that shape.
#[derive(Clone, Copy, Debug, PartialEq, Eq, Structural)]
pub struct ProblemKey {
    pub op: MatMulDescriptor,
    pub a: MatrixLayout,
    pub b: MatrixLayout,
    pub c: MatrixLayout,
    pub d: MatrixLayout,
}

/// The shape-compatibility invariant of a problem `D = alpha*(A@B) + beta*C`:
/// inner dimensions agree, C and D carry the implied output shape, and all
/// four operands share one batch count.
pub open spec fn shapes_compatible(
    a: MatrixLayout,
    b: MatrixLayout,
    c: MatrixLayout,
    d: MatrixLayout,
) -> bool {
    &&& a.cols == b.rows
    &&& c.rows == a.rows
    &&& c.cols == b.cols
    &&& d.rows == c.rows
    &&& d.cols == c.cols
    &&& a.batch == b.batch && a.batch == c.batch && a.batch == d.batch
}

/// A complete multiplication problem: one operation descriptor and the four
/// layouts A, B, C, D, borrowed for the lifetime of one tuning and
/// execution round.  Values are built by [`MatMulProblem::new`], which
/// rejects incompatible shapes, so every problem satisfies
/// [`shapes_compatible`].
pub struct MatMulProblem<'a> {
    op: &'a MatMulDescriptor,
    a: &'a MatrixLayout,
    b: &'a MatrixLayout,
    c: &'a MatrixLayout,
    d: &'a MatrixLayout,
}

impl<'a> MatMulProblem<'a> {
    pub closed spec fn spec_op(self) -> MatMulDescriptor {
        *self.op
    }

    pub closed spec fn spec_a(self) -> MatrixLayout {
        *self.a
    }

    pub closed spec fn spec_b(self) -> MatrixLayout {
        *self.b
    }

    pub closed spec fn spec_c(self) -> MatrixLayout {
        *self.c
    }

    pub closed spec fn spec_d(self) -> MatrixLayout {
        *self.d
    }

    /// The key that identifies this problem's exact shape and types.
    pub open spec fn spec_key(self) -> ProblemKey {
        ProblemKey {
            op: self.spec_op(),
            a: self.spec_a(),
            b: self.spec_b(),
            c: self.spec_c(),
            d: self.spec_d(),
        }
    }

    /// The invariant every constructed problem satisfies.
    pub open spec fn wf(self) -> bool {
        shapes_compatible(self.spec_a(), self.spec_b(), self.spec_c(), self.spec_d())
    }

    /// Composes a problem, rejecting incompatible shapes with the first
    /// disagreeing dimension pair in the order: inner dimensions, output
    /// rows and columns against C, D against C, batch counts.
    pub fn new(
        op: &'a MatMulDescriptor,
        a: &'a MatrixLayout,
        b: &'a MatrixLayout,
        c: &'a MatrixLayout,
        d: &'a MatrixLayout,
    ) -> (r: Result<MatMulProblem<'a>, MatMulError>)
        ensures
            r is Ok <==> shapes_compatible(*a, *b, *c, *d),
            r matches Ok(p) ==> {
                &&& p.spec_op() == *op
                &&& p.spec_a() == *a
                &&& p.spec_b() == *b
                &&& p.spec_c() == *c
                &&& p.spec_d() == *d
                &&& p.wf()
            },
            r == Err::<MatMulProblem<'a>, MatMulError>(MatMulError::ShapeMismatch(DimPair::Inner))
                <==> a.cols != b.rows,
            r == Err::<MatMulProblem<'a>, MatMulError>(
                MatMulError::ShapeMismatch(DimPair::OutputRows),
            ) <==> a.cols == b.rows && c.rows != a.rows,
            r == Err::<MatMulProblem<'a>, MatMulError>(
                MatMulError::ShapeMismatch(DimPair::OutputCols),
            ) <==> a.cols == b.rows && c.rows == a.rows && c.cols != b.cols,
            r == Err::<MatMulProblem<'a>, MatMulError>(
                MatMulError::ShapeMismatch(DimPair::DestRows),
            ) <==> a.cols == b.rows && c.rows == a.rows && c.cols == b.cols && d.rows != c.rows,
            r == Err::<MatMulProblem<'a>, MatMulError>(
                MatMulError::ShapeMismatch(DimPair::DestCols),
            ) <==> a.cols == b.rows && c.rows == a.rows && c.cols == b.cols && d.rows == c.rows
                && d.cols != c.cols,
            r == Err::<MatMulProblem<'a>, MatMulError>(MatMulError::ShapeMismatch(DimPair::Batch))
                <==> a.cols == b.rows && c.rows == a.rows && c.cols == b.cols && d.rows == c.rows
                && d.cols == c.cols && !(a.batch == b.batch && a.batch == c.batch && a.batch
                == d.batch),
    {
        if a.cols != b.rows {
            return Err(MatMulError::ShapeMismatch(DimPair::Inner));
        }
        if c.rows != a.rows {
            return Err(MatMulError::ShapeMismatch(DimPair::OutputRows));
        }
        if c.cols != b.cols {
            return Err(MatMulError::ShapeMismatch(DimPair::OutputCols));
        }
        if d.rows != c.rows {
            return Err(MatMulError::ShapeMismatch(DimPair::DestRows));
        }
        if d.cols != c.cols {
            return Err(MatMulError::ShapeMismatch(DimPair::DestCols));
        }
        if !(a.batch == b.batch && a.batch == c.batch && a.batch == d.batch) {
            return Err(MatMulError::ShapeMismatch(DimPair::Batch));
        }
        Ok(MatMulProblem { op, a, b, c, d })
    }

    /// Copies out the key that identifies this problem's shape and types.
    pub fn key(&self) -> (k: ProblemKey)
        ensures
            k == self.spec_key(),
    {
        ProblemKey { op: *self.op, a: *self.a, b: *self.b, c: *self.c, d: *self.d }
    }

    /// The operation descriptor the problem was composed with.
    pub fn op(&self) -> (r: &'a MatMulDescriptor)
        ensures
            *r == self.spec_op(),
    {
        self.op
    }

    /// The layout of operand A.
    pub fn a(&self) -> (r: &'a MatrixLayout)
        ensures
            *r == self.spec_a(),
    {
        self.a
    }

    /// The layout of operand B.
    pub fn b(&self) -> (r: &'a MatrixLayout)
        ensures
            *r == self.spec_b(),
    {
        self.b
    }

    /// The layout of input C.
    pub fn c(&self) -> (r: &'a MatrixLayout)
        ensures
            *r == self.spec_c(),
    {
        self.c
    }

    /// The layout of output D.
    pub fn d(&self) -> (r: &'a MatrixLayout)
        ensures
            *r == self.spec_d(),
    {
        self.d
    }
}

} // verus!
