//! Frame synchronization primitives: the decisions around fences.
//!
//! The native fence objects live in the shell; what is decided here is
//! how a fence is created, how its status query is read, and how a wait
//! timeout is bounded.

use vstd::prelude::*;
use crate::errors::{VulkanError, VulkanResult};

verus! {

/// Whether a fence is signaled, as the CPU sees it.
#[derive(Clone, Copy, Debug, PartialEq, Eq, Structural)]
pub enum FenceStatus {
    Ready,
    NotReady,
}

/// The native status code by which a fence-status query reports an
/// unsignaled fence.
pub const FENCE_STATUS_NOT_READY: i32 = 1;

/// A fence asked to start `Ready` is created already signaled, so the
/// first wait on it returns at once.
pub fn fence_creation_signaled(status: FenceStatus) -> (r: bool)
    ensures
        r == (status is Ready),
{
    match status {
        FenceStatus::Ready => true,
        FenceStatus::NotReady => false,
    }
}

/// Read a fence-status query's outcome: success means signaled, the
/// not-ready code means unsignaled, anything else is a failure carrying
/// the native code.
pub fn interpret_fence_status(raw: Result<(), i32>) -> (r: VulkanResult<FenceStatus>)
    ensures
        raw is Ok ==> r == Ok::<FenceStatus, VulkanError>(FenceStatus::Ready),
        raw matches Err(code) ==> {
            &&& code == FENCE_STATUS_NOT_READY ==> r == Ok::<FenceStatus, VulkanError>(
                FenceStatus::NotReady,
            )
            &&& code != FENCE_STATUS_NOT_READY ==> r == Err::<FenceStatus, VulkanError>(
                VulkanError::FenceGetStatusError { result: code },
            )
        },
{
    match raw {
        Ok(_) => Ok(FenceStatus::Ready),
        Err(code) => {
            if code == FENCE_STATUS_NOT_READY {
                Ok(FenceStatus::NotReady)
            } else {
                Err(VulkanError::FenceGetStatusError { result: code })
            }
        },
    }
}

/// Bound a wait timeout to what the native wait call accepts. Fails
/// exactly when the nanosecond count does not fit in 64 bits.
pub fn fence_wait_timeout_nanos(nanos: u128) -> (r: VulkanResult<u64>)
    ensures
        match r {
            Ok(t) => nanos <= u64::MAX && t == nanos,
            Err(e) => nanos > u64::MAX && e == VulkanError::FenceTimeoutTooLargeError,
        },
{
    if nanos <= u64::MAX as u128 {
        Ok(nanos as u64)
    } else {
        Err(VulkanError::FenceTimeoutTooLargeError)
    }
}

} // verus!
