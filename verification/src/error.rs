//! The two families of failure: errors that are returned as typed results, and
//! misuse of a command buffer's lifecycle.

use vstd::prelude::*;

verus! {

/// A failure that the caller can observe and react to.
#[derive(Clone, Copy, Debug, PartialEq, Eq, Structural)]
pub enum Error {
    /// The native layer refused to create the device or its queues.
    OpenFailure,
    /// The native layer ran out of memory or handles.
    AllocationFailure,
    /// The requested combination of format, usage and size is not supported.
    UnsupportedDescriptor,
    /// The queue does not take this work: wrong family, wrong token, or a native refusal.
    SubmissionRejected,
    /// The native device is gone; everything derived from it is invalid.
    DeviceLost,
}

/// A call that the lifecycle of a command buffer forbids. The buffer is left as it was.
#[derive(Clone, Copy, Debug, PartialEq, Eq, Structural)]
pub enum Misuse {
    /// The buffer is not in the recording state, so nothing can be appended or ended.
    NotRecording,
    /// The buffer's last submission has not been observed to complete.
    InFlight,
    /// There is no submission whose completion could be observed.
    NotSubmitted,
    /// The operation may not be recorded inside a render-pass subpass.
    OutsideSubpass,
    /// The device owns no resource with this id: none was created, or it was destroyed.
    NotOwned,
    /// A command buffer that has not completed still names the resource.
    InUse,
}

/// Result code with which a native driver call reports plain success.
pub const NATIVE_SUCCESS: i32 = 0;

/// Result code with which a native driver call reports that a wait ran out of time.
pub const NATIVE_TIMEOUT: i32 = 2;

/// Result code with which a native driver call reports a lost device.
pub const NATIVE_DEVICE_LOST: i32 = -4;

/// What a bounded or unbounded wait on a fence reported.
#[derive(Clone, Copy, Debug, PartialEq, Eq, Structural)]
pub enum FenceStatus {
    /// The work guarded by the fence has finished.
    Signaled,
    /// The wait ended before the fence was signaled.
    TimedOut,
}

impl FenceStatus {
    /// What a native wait's result code means, as a specification.
    pub open spec fn of_native(code: i32) -> Result<FenceStatus, Error> {
        if code == NATIVE_SUCCESS {
            Ok(FenceStatus::Signaled)
        } else if code == NATIVE_TIMEOUT {
            Ok(FenceStatus::TimedOut)
        } else {
            Err(Error::DeviceLost)
        }
    }

    /// Reads the result code of a native fence wait. Success means the fence is
    /// signaled, a timeout is reported as such, and any other code means that the
    /// device can no longer be waited on.
    pub fn from_native(code: i32) -> (r: Result<FenceStatus, Error>)
        ensures
            r == Self::of_native(code),
    {
        if code == NATIVE_SUCCESS {
            Ok(FenceStatus::Signaled)
        } else if code == NATIVE_TIMEOUT {
            Ok(FenceStatus::TimedOut)
        } else {
            Err(Error::DeviceLost)
        }
    }
}

} // verus!
