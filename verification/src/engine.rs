//! The execution step: checking a chosen candidate against the workspace
//! the caller allocated and assembling the enqueue command.
//!
//! The device itself is an outside collaborator.  [`execute`] validates the
//! call and returns the complete command for the vendor library's enqueue;
//! the caller submits it to an execution stream and reports the native
//! status back through [`enqueue_result`].  No command exists — and so
//! nothing is written to the output region — unless validation succeeded.

use vstd::prelude::*;

use crate::error::MatMulError;
use crate::layout::DataType;
use crate::problem::MatMulProblem;
use crate::tuner::AlgoHandle;
use crate::tuner::Candidate;

verus! {

/// A scalar coefficient carried as the bit pattern of its declared type,
/// so the engine stays free of device float arithmetic.
#[derive(Clone, Copy, Debug, PartialEq, Eq, Structural)]
pub enum ScalarBits {
    F16(u16),
    F32(u32),
    F64(u64),
}

/// Whether a scalar coefficient carries the declared scalar type.
pub open spec fn scalar_matches(s: ScalarBits, t: DataType) -> bool {
    match (s, t) {
        (ScalarBits::F16(_), DataType::F16) => true,
        (ScalarBits::F32(_), DataType::F32) => true,
        (ScalarBits::F64(_), DataType::F64) => true,
        _ => false,
    }
}

/// Everything the vendor library's enqueue call needs, fully validated:
/// the chosen handle, the four device addresses, the coefficients, and the
/// workspace the caller allocated.
#[derive(Clone, Copy, Debug, PartialEq, Eq, Structural)]
pub struct LaunchCommand {
    pub handle: AlgoHandle,
    pub d_ptr: u64,
    pub alpha: ScalarBits,
    pub a_ptr: u64,
    pub b_ptr: u64,
    pub beta: ScalarBits,
    pub c_ptr: u64,
    pub workspace_ptr: u64,
    pub workspace_len: usize,
}

/// Validates one execution of `D = alpha*(A@B) + beta*C` and assembles its
/// enqueue command.
///
/// The candidate must have been tuned for exactly this problem, and the
/// coefficients must carry the declared scalar type: both are caller
/// obligations, demanded as preconditions.  A workspace smaller than the
/// candidate's requirement is rejected with `InsufficientWorkspace` and no
/// command is produced, so nothing reaches the device.
pub fn execute(
    problem: &MatMulProblem,
    algo: &Candidate,
    d_ptr: u64,
    alpha: ScalarBits,
    a_ptr: u64,
    b_ptr: u64,
    beta: ScalarBits,
    c_ptr: u64,
    workspace_ptr: u64,
    workspace_len: usize,
) -> (r: Result<LaunchCommand, MatMulError>)
    requires
        algo.spec_key() == problem.spec_key(),
        scalar_matches(alpha, problem.spec_op().scalar_type),
        scalar_matches(beta, problem.spec_op().scalar_type),
    ensures
        r is Ok <==> workspace_len >= algo.spec_workspace_size(),
        r matches Ok(cmd) ==> cmd == (LaunchCommand {
            handle: algo.spec_handle(),
            d_ptr,
            alpha,
            a_ptr,
            b_ptr,
            beta,
            c_ptr,
            workspace_ptr,
            workspace_len,
        }),
        r matches Err(e) ==> e == MatMulError::InsufficientWorkspace && workspace_len
            < algo.spec_workspace_size(),
{
    if workspace_len < algo.workspace_size() {
        return Err(MatMulError::InsufficientWorkspace);
    }
    Ok(
        LaunchCommand {
            handle: algo.handle(),
            d_ptr,
            alpha,
            a_ptr,
            b_ptr,
            beta,
            c_ptr,
            workspace_ptr,
            workspace_len,
        },
    )
}

/// Interprets the native status the vendor library reported for an
/// enqueue: zero is success, anything else surfaces as `ExecutionFailed`
/// carrying that status.
pub fn enqueue_result(status: i32) -> (r: Result<(), MatMulError>)
    ensures
        r is Ok <==> status == 0,
        r matches Err(e) ==> e == MatMulError::ExecutionFailed(status),
{
    if status == 0 {
        Ok(())
    } else {
        Err(MatMulError::ExecutionFailed(status))
    }
}

} // verus!
