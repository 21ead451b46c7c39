//! Native status codes and the typed errors built from them.
//!
//! Every native entry point reports a signed 32-bit status: non-negative
//! values are success codes (some carry extra information), negative values
//! are failures whose code the caller must be able to read back unchanged.

use vstd::prelude::*;

verus! {

/// Status code a runtime returns when a bounded image wait ran out of time;
/// it is a non-negative (non-fatal) code.
pub const TIMEOUT_EXPIRED: i32 = 1;

/// Status code a runtime returns from a two-call buffer protocol when the
/// supplied buffer capacity was too small for the full result.
pub const ERROR_SIZE_INSUFFICIENT: i32 = -11;

/// Typed error surfaced by the frame synchronizer and its callers.
#[derive(Clone, Copy, Debug, PartialEq, Eq, Structural)]
pub enum OxrError {
    /// A native entry point returned a negative status; the raw code is
    /// carried unchanged for the caller to interpret or propagate.
    NativeCallFailed(i32),
    /// A frame operation was requested in a phase that does not admit it.
    CallOutOfOrder,
    /// A bounded wait for the acquired swapchain image ran out of time; the
    /// caller may retry or abandon the frame.
    ImageTimeout,
    /// The runtime handed back a swapchain image index outside the image
    /// set; no image may be written this frame.
    HandleExhausted,
}

/// Splits a raw status code: non-negative codes succeed and are passed
/// through, negative codes fail carrying the same value.
pub fn cvt(code: i32) -> (r: Result<i32, i32>)
    ensures
        code >= 0 ==> r == Ok::<i32, i32>(code),
        code < 0 ==> r == Err::<i32, i32>(code),
{
    if code >= 0 {
        Ok(code)
    } else {
        Err(code)
    }
}

/// Next move in the two-call buffer protocol: finished with a final element
/// count, grow the buffer to a reported count and retry, or give up on a
/// fatal code.
#[derive(Clone, Copy, Debug, PartialEq, Eq, Structural)]
pub enum BufferStep {
    /// The call succeeded; the buffer holds this many valid elements.
    Complete(u32),
    /// The buffer was too small; resize it to this many elements and retry.
    Grow(u32),
    /// The call failed fatally with this code.
    Fail(i32),
}

/// Decides the next move of the two-call buffer protocol from the status
/// code of the last attempt and the element count it reported.
pub fn get_arr_step(code: i32, reported_count: u32) -> (step: BufferStep)
    ensures
        code >= 0 ==> step == BufferStep::Complete(reported_count),
        code == ERROR_SIZE_INSUFFICIENT ==> step == BufferStep::Grow(reported_count),
        code < 0 && code != ERROR_SIZE_INSUFFICIENT ==> step == BufferStep::Fail(code),
{
    if code >= 0 {
        BufferStep::Complete(reported_count)
    } else if code == ERROR_SIZE_INSUFFICIENT {
        BufferStep::Grow(reported_count)
    } else {
        BufferStep::Fail(code)
    }
}

} // verus!
