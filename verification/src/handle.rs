//! Kernel-handle values: standard-handle slots, inheritance flags, and how
//! a raw `WaitFor...` return code reads as a [`WaitResult`].
//!
//! A handle is carried here as the integer value of the `HANDLE`.

use vstd::prelude::*;

verus! {

/// `HANDLE_FLAG_INHERIT`.
pub const HANDLE_FLAG_INHERIT: u32 = 0x0000_0001;

/// `DUPLICATE_SAME_ACCESS`.
pub const DUPLICATE_SAME_ACCESS: u32 = 0x0000_0002;

/// `INFINITE`: a wait with no timeout.
pub const INFINITE: u32 = 0xFFFF_FFFF;

/// `WAIT_OBJECT_0`.
pub const WAIT_OBJECT_0: u32 = 0;

/// `WAIT_ABANDONED_0`.
pub const WAIT_ABANDONED_0: u32 = 0x0000_0080;

/// `WAIT_TIMEOUT`.
pub const WAIT_TIMEOUT: u32 = 258;

/// `WAIT_IO_COMPLETION`.
pub const WAIT_IO_COMPLETION: u32 = 0x0000_00C0;

/// `WAIT_FAILED`.
pub const WAIT_FAILED: u32 = 0xFFFF_FFFF;

/// `STD_INPUT_HANDLE`.
pub const STD_INPUT_HANDLE: u32 = 0xFFFF_FFF6;

/// `STD_OUTPUT_HANDLE`.
pub const STD_OUTPUT_HANDLE: u32 = 0xFFFF_FFF5;

/// `STD_ERROR_HANDLE`.
pub const STD_ERROR_HANDLE: u32 = 0xFFFF_FFF4;

/// `INVALID_HANDLE_VALUE` as a handle's integer value (`-1`).
pub const INVALID_HANDLE_VALUE: usize = usize::MAX;

/// The timeout argument a wait takes: the given milliseconds, or
/// `INFINITE` for none.
pub fn wait_timeout(timeout_ms: Option<u32>) -> (t: u32)
    ensures
        t == (match timeout_ms {
            Some(ms) => ms,
            None => INFINITE,
        }),
{
    match timeout_ms {
        Some(ms) => ms,
        None => INFINITE,
    }
}

/// The `dwFlags` value `SetHandleInformation` is given to make a handle
/// inheritable or not (under the `HANDLE_FLAG_INHERIT` mask).
pub fn inherit_flags(inheritable: bool) -> (f: u32)
    ensures
        f == (if inheritable {
            HANDLE_FLAG_INHERIT
        } else {
            0
        }),
{
    if inheritable {
        HANDLE_FLAG_INHERIT
    } else {
        0
    }
}

/// What `GetStdHandle` reported for a slot.
#[derive(Debug, Clone, Copy, PartialEq, Eq, Structural)]
pub enum StdHandle {
    /// The call failed (`INVALID_HANDLE_VALUE`): the error is the thread's
    /// last error.
    Failed,
    /// The slot has no handle (`NULL`).
    Unassigned,
    /// The slot's handle.
    Handle(usize),
}

/// Reads `GetStdHandle`'s return value: `INVALID_HANDLE_VALUE` is a
/// failure, `NULL` an empty slot, anything else the slot's handle.
pub fn std_handle_outcome(raw: usize) -> (s: StdHandle)
    ensures
        raw == INVALID_HANDLE_VALUE ==> s == StdHandle::Failed,
        raw == 0 ==> s == StdHandle::Unassigned,
        raw != INVALID_HANDLE_VALUE && raw != 0 ==> s == StdHandle::Handle(raw),
{
    if raw == INVALID_HANDLE_VALUE {
        StdHandle::Failed
    } else if raw == 0 {
        StdHandle::Unassigned
    } else {
        StdHandle::Handle(raw)
    }
}

/// The outcome of a wait that did not fail.
#[derive(Debug, Clone, Copy, PartialEq, Eq, Structural)]
pub enum WaitResult {
    /// The handle at this index became signaled normally.
    Signaled(usize),
    /// The handle at this index was a mutex whose owner terminated without
    /// releasing it: still acquired, but what it guarded may be
    /// inconsistent.
    Abandoned(usize),
    /// No handle became signaled before the timeout elapsed.
    TimedOut,
    /// An asynchronous procedure call queued to the thread ended an
    /// alertable wait; no handle was signaled.
    IoCompletion,
}

/// The [`WaitResult`] a single-handle wait's return code stands for
/// (`WaitForSingleObjectEx`, `SignalObjectAndWait`), `None` for a failed
/// wait (whose error is the thread's last error).
pub open spec fn single_wait_result(result: u32) -> Option<WaitResult> {
    if result == WAIT_OBJECT_0 {
        Some(WaitResult::Signaled(0))
    } else if result == WAIT_ABANDONED_0 {
        Some(WaitResult::Abandoned(0))
    } else if result == WAIT_TIMEOUT {
        Some(WaitResult::TimedOut)
    } else if result == WAIT_IO_COMPLETION {
        Some(WaitResult::IoCompletion)
    } else {
        None
    }
}

/// The [`WaitResult`] a wait on `count` handles returned `result` for
/// (`WaitForMultipleObjectsEx`): an index below `count` is that handle
/// signaled, `WAIT_ABANDONED_0` plus an index below `count` that handle
/// abandoned; `None` for a failed wait or any other code.
pub open spec fn multiple_wait_result(result: u32, count: nat) -> Option<WaitResult> {
    if result == WAIT_TIMEOUT {
        Some(WaitResult::TimedOut)
    } else if result == WAIT_IO_COMPLETION {
        Some(WaitResult::IoCompletion)
    } else if result == WAIT_FAILED {
        None
    } else if result < count {
        Some(WaitResult::Signaled(result as usize))
    } else if result >= WAIT_ABANDONED_0 && result - WAIT_ABANDONED_0 < count {
        Some(WaitResult::Abandoned((result - WAIT_ABANDONED_0) as usize))
    } else {
        None
    }
}

/// Reads a single-handle wait's return code.
pub fn single_wait_outcome(result: u32) -> (r: Option<WaitResult>)
    ensures
        r == single_wait_result(result),
{
    if result == WAIT_OBJECT_0 {
        Some(WaitResult::Signaled(0))
    } else if result == WAIT_ABANDONED_0 {
        Some(WaitResult::Abandoned(0))
    } else if result == WAIT_TIMEOUT {
        Some(WaitResult::TimedOut)
    } else if result == WAIT_IO_COMPLETION {
        Some(WaitResult::IoCompletion)
    } else {
        None
    }
}

/// Reads the return code of a wait on `count` handles.
pub fn multiple_wait_outcome(result: u32, count: usize) -> (r: Option<WaitResult>)
    ensures
        r == multiple_wait_result(result, count as nat),
{
    if result == WAIT_TIMEOUT {
        Some(WaitResult::TimedOut)
    } else if result == WAIT_IO_COMPLETION {
        Some(WaitResult::IoCompletion)
    } else if result == WAIT_FAILED {
        None
    } else if (result as usize) < count {
        Some(WaitResult::Signaled(result as usize))
    } else if result >= WAIT_ABANDONED_0 && ((result - WAIT_ABANDONED_0) as usize) < count {
        Some(WaitResult::Abandoned((result - WAIT_ABANDONED_0) as usize))
    } else {
        None
    }
}

} // verus!
