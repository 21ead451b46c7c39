//! The per-frame synchronization state machine.
//!
//! A rendered frame must observe the strict order wait, begin, acquire,
//! wait-image, release, end. The runtime performs each native step and the
//! embedding hands its outcome here; the machine decides what the outcome
//! means, records the frame timing and the acquired image index, and
//! rejects any operation requested out of order while leaving its state
//! untouched. A fatal native failure aborts the frame and resets the
//! machine to idle so the next frame can be attempted; an image-wait
//! timeout is recoverable and keeps the image acquired so the caller may
//! retry or abandon the frame by its own policy.

use vstd::prelude::*;

use crate::status::OxrError;

verus! {

/// Timing the runtime predicts when a frame wait completes, in
/// nanoseconds: when the frame will be displayed and how long a display
/// period lasts. Created fresh by the wait step and read-only for the
/// rest of that frame.
#[derive(Clone, Copy, Debug, PartialEq, Eq, Structural)]
pub struct OxrFrameState {
    pub predicted_display_time: i64,
    pub predicted_display_period: i64,
}

impl OxrFrameState {
    /// The timing a machine starts from before its first frame wait.
    pub open spec fn default_spec() -> Self {
        OxrFrameState { predicted_display_time: 0, predicted_display_period: 0 }
    }
}

impl Default for OxrFrameState {
    fn default() -> (r: Self)
        ensures
            r == Self::default_spec(),
    {
        OxrFrameState { predicted_display_time: 0, predicted_display_period: 0 }
    }
}

/// Where a frame stands between two idle points.
#[derive(Clone, Copy, Debug, PartialEq, Eq, Structural)]
pub enum FramePhase {
    /// No frame in flight.
    Idle,
    /// The runtime signalled readiness and produced the frame timing.
    Waited,
    /// The render frame is open.
    Began,
    /// A swapchain image index is held exclusively for this frame.
    Acquired,
    /// The acquired image is safe to write and is being rendered into.
    Rendering,
    /// The image was handed back for compositing; only ending remains.
    Released,
}

/// The six per-frame operations, in the one order a cycle accepts them.
#[derive(Clone, Copy, Debug, PartialEq, Eq, Structural)]
pub enum FrameOp {
    Wait,
    Begin,
    Acquire,
    WaitImage,
    Release,
    End,
}

/// The phase an operation is accepted in.
pub open spec fn op_source(op: FrameOp) -> FramePhase {
    match op {
        FrameOp::Wait => FramePhase::Idle,
        FrameOp::Begin => FramePhase::Waited,
        FrameOp::Acquire => FramePhase::Began,
        FrameOp::WaitImage => FramePhase::Acquired,
        FrameOp::Release => FramePhase::Rendering,
        FrameOp::End => FramePhase::Released,
    }
}

/// The phase an accepted operation moves to when its native step succeeds.
pub open spec fn op_target(op: FrameOp) -> FramePhase {
    match op {
        FrameOp::Wait => FramePhase::Waited,
        FrameOp::Begin => FramePhase::Began,
        FrameOp::Acquire => FramePhase::Acquired,
        FrameOp::WaitImage => FramePhase::Rendering,
        FrameOp::Release => FramePhase::Released,
        FrameOp::End => FramePhase::Idle,
    }
}

/// Whether a phase admits an operation at all.
pub open spec fn step_allowed(phase: FramePhase, op: FrameOp) -> bool {
    phase == op_source(op)
}

/// The phase reached by accepting the operations of a sequence from
/// position `i` on, with each native step succeeding; rejection anywhere
/// yields nothing.
pub open spec fn phase_after_from(phase: FramePhase, ops: Seq<FrameOp>, i: int) -> Option<
    FramePhase,
>
    decreases ops.len() - i
        when 0 <= i
{
    if i >= ops.len() {
        Some(phase)
    } else if step_allowed(phase, ops[i]) {
        phase_after_from(op_target(ops[i]), ops, i + 1)
    } else {
        None
    }
}

/// The phase reached by accepting every operation of a sequence in turn,
/// with each native step succeeding; rejection anywhere yields nothing.
pub open spec fn phase_after(phase: FramePhase, ops: Seq<FrameOp>) -> Option<FramePhase> {
    phase_after_from(phase, ops, 0)
}

/// The one frame cycle: wait, begin, acquire, wait-image, release, end.
pub open spec fn canonical_cycle() -> Seq<FrameOp> {
    seq![
        FrameOp::Wait,
        FrameOp::Begin,
        FrameOp::Acquire,
        FrameOp::WaitImage,
        FrameOp::Release,
        FrameOp::End,
    ]
}

/// Law: every phase admits exactly one operation, so the accepted call
/// order within a frame cycle is fixed and every permutation of it is
/// rejected at its first out-of-order operation.
pub proof fn lemma_each_phase_admits_one_op(phase: FramePhase, a: FrameOp, b: FrameOp)
    requires
        step_allowed(phase, a),
        step_allowed(phase, b),
    ensures
        a == b,
{
}

/// Law: a six-operation sequence that a machine accepts from idle back to
/// idle is exactly the canonical cycle.
pub proof fn lemma_cycle_order_is_canonical(ops: Seq<FrameOp>)
    requires
        ops.len() == 6,
        phase_after(FramePhase::Idle, ops) == Some(FramePhase::Idle),
    ensures
        ops == canonical_cycle(),
{
    assert(step_allowed(FramePhase::Idle, ops[0]));
    assert(ops[0] == FrameOp::Wait);
    assert(phase_after_from(FramePhase::Waited, ops, 1) == Some(FramePhase::Idle));
    assert(step_allowed(FramePhase::Waited, ops[1]));
    assert(ops[1] == FrameOp::Begin);
    assert(phase_after_from(FramePhase::Began, ops, 2) == Some(FramePhase::Idle));
    assert(step_allowed(FramePhase::Began, ops[2]));
    assert(ops[2] == FrameOp::Acquire);
    assert(phase_after_from(FramePhase::Acquired, ops, 3) == Some(FramePhase::Idle));
    assert(step_allowed(FramePhase::Acquired, ops[3]));
    assert(ops[3] == FrameOp::WaitImage);
    assert(phase_after_from(FramePhase::Rendering, ops, 4) == Some(FramePhase::Idle));
    assert(step_allowed(FramePhase::Rendering, ops[4]));
    assert(ops[4] == FrameOp::Release);
    assert(phase_after_from(FramePhase::Released, ops, 5) == Some(FramePhase::Idle));
    assert(step_allowed(FramePhase::Released, ops[5]));
    assert(ops[5] == FrameOp::End);
    assert(ops =~= canonical_cycle());
}

/// Outcome of the native image wait, as the embedding observed it.
#[derive(Clone, Copy, Debug, PartialEq, Eq, Structural)]
pub enum ImageWaitOutcome {
    /// The acquired image is safe to write.
    Ready,
    /// The bounded wait ran out of time before the image was ready.
    TimedOut,
    /// The native call failed with this code.
    Failed(i32),
}

/// Drives one frame at a time through the fixed cycle, holding the frame
/// timing produced by the wait step and the image index held between
/// acquire and release.
pub struct FrameSynchronizer {
    phase: FramePhase,
    frame_state: OxrFrameState,
    image_count: u32,
    acquired_index: u32,
}

impl FrameSynchronizer {
    /// The phase the machine is in.
    pub closed spec fn phase(&self) -> FramePhase {
        self.phase
    }

    /// The timing produced by the latest accepted, successful frame wait.
    pub closed spec fn frame_state(&self) -> OxrFrameState {
        self.frame_state
    }

    /// How many images the swapchain ring holds.
    pub closed spec fn image_count(&self) -> u32 {
        self.image_count
    }

    /// The image index held by the frame in flight.
    pub closed spec fn acquired_index(&self) -> u32 {
        self.acquired_index
    }

    /// An image index is held exactly while the frame is between acquire
    /// and release (or awaiting the frame end).
    pub open spec fn holds_image(&self) -> bool {
        self.phase() == FramePhase::Acquired || self.phase() == FramePhase::Rendering
            || self.phase() == FramePhase::Released
    }

    /// A held image index always lies inside the swapchain image set.
    pub open spec fn wf(&self) -> bool {
        self.holds_image() ==> (self.acquired_index() as int) < (self.image_count() as int)
    }

    /// A fresh machine for a swapchain ring of `image_count` images,
    /// idle and with zeroed timing.
    pub fn new(image_count: u32) -> (s: Self)
        ensures
            s.phase() == FramePhase::Idle,
            s.image_count() == image_count,
            s.frame_state() == OxrFrameState::default_spec(),
            s.wf(),
    {
        FrameSynchronizer {
            phase: FramePhase::Idle,
            frame_state: OxrFrameState::default(),
            image_count,
            acquired_index: 0,
        }
    }

    /// Runtime view of the phase.
    pub fn current_phase(&self) -> (p: FramePhase)
        ensures
            p == self.phase(),
    {
        self.phase
    }

    /// Runtime view of the latest frame timing.
    pub fn current_frame_state(&self) -> (fs: OxrFrameState)
        ensures
            fs == self.frame_state(),
    {
        self.frame_state
    }

    /// The image index held by the frame in flight, while one is held.
    pub fn held_image(&self) -> (r: Option<u32>)
        ensures
            self.holds_image() ==> r == Some(self.acquired_index()),
            !self.holds_image() ==> r == None::<u32>,
    {
        match self.phase {
            FramePhase::Acquired => Some(self.acquired_index),
            FramePhase::Rendering => Some(self.acquired_index),
            FramePhase::Released => Some(self.acquired_index),
            _ => None,
        }
    }

    /// Accepts the outcome of the native frame wait. Out of order it
    /// rejects and changes nothing; a failure is fatal for this frame and
    /// the machine stays idle; success records the fresh timing and opens
    /// the cycle.
    pub fn wait_frame(&mut self, outcome: Result<OxrFrameState, i32>) -> (r: Result<
        OxrFrameState,
        OxrError,
    >)
        requires
            old(self).wf(),
        ensures
            final(self).wf(),
            final(self).image_count() == old(self).image_count(),
            (r == Err::<OxrFrameState, OxrError>(OxrError::CallOutOfOrder)) <==> !step_allowed(
                old(self).phase(),
                FrameOp::Wait,
            ),
            old(self).phase() != FramePhase::Idle ==> *final(self) == *old(self),
            old(self).phase() == FramePhase::Idle ==> match outcome {
                Ok(fs) => {
                    &&& r == Ok::<OxrFrameState, OxrError>(fs)
                    &&& final(self).phase() == FramePhase::Waited
                    &&& final(self).frame_state() == fs
                },
                Err(code) => {
                    &&& r == Err::<OxrFrameState, OxrError>(OxrError::NativeCallFailed(code))
                    &&& *final(self) == *old(self)
                },
            },
    {
        if !matches!(self.phase, FramePhase::Idle) {
            return Err(OxrError::CallOutOfOrder);
        }
        match outcome {
            Ok(fs) => {
                self.phase = FramePhase::Waited;
                self.frame_state = fs;
                Ok(fs)
            },
            Err(code) => Err(OxrError::NativeCallFailed(code)),
        }
    }

    /// Accepts the outcome of the native frame begin. Must follow a
    /// successful wait; a native failure aborts the frame and resets the
    /// machine to idle.
    pub fn begin_frame(&mut self, outcome: Result<(), i32>) -> (r: Result<(), OxrError>)
        requires
            old(self).wf(),
        ensures
            final(self).wf(),
            final(self).image_count() == old(self).image_count(),
            final(self).frame_state() == old(self).frame_state(),
            (r == Err::<(), OxrError>(OxrError::CallOutOfOrder)) <==> !step_allowed(
                old(self).phase(),
                FrameOp::Begin,
            ),
            old(self).phase() != FramePhase::Waited ==> *final(self) == *old(self),
            old(self).phase() == FramePhase::Waited ==> match outcome {
                Ok(()) => r == Ok::<(), OxrError>(()) && final(self).phase() == FramePhase::Began,
                Err(code) => {
                    &&& r == Err::<(), OxrError>(OxrError::NativeCallFailed(code))
                    &&& final(self).phase() == FramePhase::Idle
                },
            },
    {
        if !matches!(self.phase, FramePhase::Waited) {
            return Err(OxrError::CallOutOfOrder);
        }
        match outcome {
            Ok(()) => {
                self.phase = FramePhase::Began;
                Ok(())
            },
            Err(code) => {
                self.phase = FramePhase::Idle;
                Err(OxrError::NativeCallFailed(code))
            },
        }
    }

    /// Accepts the swapchain index the native acquire returned. An index
    /// outside the image set means the swapchain cannot serve this frame:
    /// the frame is abandoned and no image is held. On success the index
    /// is held exclusively until release.
    pub fn acquire_image(&mut self, outcome: Result<u32, i32>) -> (r: Result<u32, OxrError>)
        requires
            old(self).wf(),
        ensures
            final(self).wf(),
            final(self).image_count() == old(self).image_count(),
            final(self).frame_state() == old(self).frame_state(),
            (r == Err::<u32, OxrError>(OxrError::CallOutOfOrder)) <==> !step_allowed(
                old(self).phase(),
                FrameOp::Acquire,
            ),
            old(self).phase() != FramePhase::Began ==> *final(self) == *old(self),
            old(self).phase() == FramePhase::Began ==> match outcome {
                Ok(index) => {
                    if (index as int) < (old(self).image_count() as int) {
                        &&& r == Ok::<u32, OxrError>(index)
                        &&& final(self).phase() == FramePhase::Acquired
                        &&& final(self).acquired_index() == index
                    } else {
                        &&& r == Err::<u32, OxrError>(OxrError::HandleExhausted)
                        &&& final(self).phase() == FramePhase::Idle
                    }
                },
                Err(code) => {
                    &&& r == Err::<u32, OxrError>(OxrError::NativeCallFailed(code))
                    &&& final(self).phase() == FramePhase::Idle
                },
            },
    {
        if !matches!(self.phase, FramePhase::Began) {
            return Err(OxrError::CallOutOfOrder);
        }
        match outcome {
            Ok(index) => {
                if index < self.image_count {
                    self.phase = FramePhase::Acquired;
                    self.acquired_index = index;
                    Ok(index)
                } else {
                    self.phase = FramePhase::Idle;
                    Err(OxrError::HandleExhausted)
                }
            },
            Err(code) => {
                self.phase = FramePhase::Idle;
                Err(OxrError::NativeCallFailed(code))
            },
        }
    }

    /// Accepts the outcome of the (possibly bounded) native image wait. A
    /// timeout is recoverable: the image stays acquired and the caller
    /// chooses between retrying and abandoning the frame. Readiness makes
    /// the image writable for rendering.
    pub fn wait_image(&mut self, outcome: ImageWaitOutcome) -> (r: Result<(), OxrError>)
        requires
            old(self).wf(),
        ensures
            final(self).wf(),
            final(self).image_count() == old(self).image_count(),
            final(self).frame_state() == old(self).frame_state(),
            (r == Err::<(), OxrError>(OxrError::CallOutOfOrder)) <==> !step_allowed(
                old(self).phase(),
                FrameOp::WaitImage,
            ),
            old(self).phase() != FramePhase::Acquired ==> *final(self) == *old(self),
            old(self).phase() == FramePhase::Acquired ==> match outcome {
                ImageWaitOutcome::Ready => {
                    &&& r == Ok::<(), OxrError>(())
                    &&& final(self).phase() == FramePhase::Rendering
                    &&& final(self).acquired_index() == old(self).acquired_index()
                },
                ImageWaitOutcome::TimedOut => {
                    &&& r == Err::<(), OxrError>(OxrError::ImageTimeout)
                    &&& *final(self) == *old(self)
                },
                ImageWaitOutcome::Failed(code) => {
                    &&& r == Err::<(), OxrError>(OxrError::NativeCallFailed(code))
                    &&& final(self).phase() == FramePhase::Idle
                },
            },
    {
        if !matches!(self.phase, FramePhase::Acquired) {
            return Err(OxrError::CallOutOfOrder);
        }
        match outcome {
            ImageWaitOutcome::Ready => {
                self.phase = FramePhase::Rendering;
                Ok(())
            },
            ImageWaitOutcome::TimedOut => Err(OxrError::ImageTimeout),
            ImageWaitOutcome::Failed(code) => {
                self.phase = FramePhase::Idle;
                Err(OxrError::NativeCallFailed(code))
            },
        }
    }

    /// Accepts the outcome of the native image release, which must come
    /// after rendering and before the frame end.
    pub fn release_image(&mut self, outcome: Result<(), i32>) -> (r: Result<(), OxrError>)
        requires
            old(self).wf(),
        ensures
            final(self).wf(),
            final(self).image_count() == old(self).image_count(),
            final(self).frame_state() == old(self).frame_state(),
            (r == Err::<(), OxrError>(OxrError::CallOutOfOrder)) <==> !step_allowed(
                old(self).phase(),
                FrameOp::Release,
            ),
            old(self).phase() != FramePhase::Rendering ==> *final(self) == *old(self),
            old(self).phase() == FramePhase::Rendering ==> match outcome {
                Ok(()) => {
                    &&& r == Ok::<(), OxrError>(())
                    &&& final(self).phase() == FramePhase::Released
                    &&& final(self).acquired_index() == old(self).acquired_index()
                },
                Err(code) => {
                    &&& r == Err::<(), OxrError>(OxrError::NativeCallFailed(code))
                    &&& final(self).phase() == FramePhase::Idle
                },
            },
    {
        if !matches!(self.phase, FramePhase::Rendering) {
            return Err(OxrError::CallOutOfOrder);
        }
        match outcome {
            Ok(()) => {
                self.phase = FramePhase::Released;
                Ok(())
            },
            Err(code) => {
                self.phase = FramePhase::Idle;
                Err(OxrError::NativeCallFailed(code))
            },
        }
    }

    /// Accepts the outcome of the native frame end, which submits the
    /// composition layers. Whether the submission succeeded or failed, the
    /// machine resets to idle so the next frame can be attempted; a
    /// failure is still reported with its code.
    pub fn end_frame(&mut self, outcome: Result<(), i32>) -> (r: Result<(), OxrError>)
        requires
            old(self).wf(),
        ensures
            final(self).wf(),
            final(self).image_count() == old(self).image_count(),
            final(self).frame_state() == old(self).frame_state(),
            (r == Err::<(), OxrError>(OxrError::CallOutOfOrder)) <==> !step_allowed(
                old(self).phase(),
                FrameOp::End,
            ),
            old(self).phase() != FramePhase::Released ==> *final(self) == *old(self),
            old(self).phase() == FramePhase::Released ==> final(self).phase() == FramePhase::Idle
                && match outcome {
                Ok(()) => r == Ok::<(), OxrError>(()),
                Err(code) => r == Err::<(), OxrError>(OxrError::NativeCallFailed(code)),
            },
    {
        if !matches!(self.phase, FramePhase::Released) {
            return Err(OxrError::CallOutOfOrder);
        }
        self.phase = FramePhase::Idle;
        match outcome {
            Ok(()) => Ok(()),
            Err(code) => Err(OxrError::NativeCallFailed(code)),
        }
    }
}

} // verus!
