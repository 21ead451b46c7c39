//! Spatial handles, the ownership registry that guards their destruction,
//! and the per-frame spatial updates.
//!
//! A space handle is a 64-bit native identifier. Some handles are adopted
//! from a collaborator that keeps ownership (an action or hand-tracking
//! system): destroying such a foreign-owned handle through the normal
//! native path would double-free it, so the destroy hook consults the
//! registry and skips the native call for handles marked foreign.
//!
//! Each frame a tracked entity is located against its own reference space
//! if it has one, else the process-wide default, at the predicted display
//! time — advanced by one predicted display period when pipelined
//! rendering is active. The located pose updates an entity's transform
//! component-wise: position only when the position bit is valid,
//! rotation only when the orientation bit is valid, and an invalid
//! component retains the previous value rather than snapping to origin.

use vstd::prelude::*;

use crate::frame::OxrFrameState;
use crate::pose::{
    has_orientation_valid, has_position_valid, orientation_valid, position_valid, PoseBits,
    QuaternionBits, Vector3Bits, ANGULAR_VALID_BIT, LINEAR_VALID_BIT,
};

verus! {

/// Number of joints a hand tracker reports, fixed by the runtime
/// interface.
pub const HAND_JOINT_COUNT: usize = 26;

/// A spatial handle: the raw 64-bit native identifier.
#[derive(Clone, Copy, Debug, PartialEq, Eq, Structural)]
pub struct XrSpace {
    raw: u64,
}

impl XrSpace {
    /// The native identifier this handle wraps.
    pub closed spec fn raw_spec(&self) -> u64 {
        self.raw
    }

    /// Wraps a raw native identifier.
    pub fn from_raw(raw: u64) -> (s: Self)
        ensures
            s.raw_spec() == raw,
    {
        XrSpace { raw }
    }

    /// Reads the raw native identifier back, unchanged.
    pub fn as_raw(&self) -> (raw: u64)
        ensures
            raw == self.raw_spec(),
    {
        self.raw
    }
}

/// What the destroy hook decides for a handle.
#[derive(Clone, Copy, Debug, PartialEq, Eq, Structural)]
pub enum DestroyAction {
    /// The handle is owned here: issue the native destroy call.
    CallNative,
    /// The handle is foreign-owned: skip the native call so the owner can
    /// destroy it exactly once.
    Skip,
}

/// Registry of foreign-owned handles: those whose destruction belongs to
/// a collaborator and must not be issued natively from here.
pub struct SpaceRegistry {
    foreign: Vec<u64>,
}

impl SpaceRegistry {
    /// Whether a raw handle is marked foreign-owned.
    pub closed spec fn is_foreign_spec(&self, raw: u64) -> bool {
        self.foreign@.contains(raw)
    }

    /// An empty registry: every handle is destroyed natively.
    pub fn new() -> (r: Self)
        ensures
            forall|raw: u64| !r.is_foreign_spec(raw),
    {
        SpaceRegistry { foreign: Vec::new() }
    }

    /// Runtime check of [`Self::is_foreign_spec`].
    pub fn is_foreign(&self, raw: u64) -> (r: bool)
        ensures
            r == self.is_foreign_spec(raw),
    {
        let mut i: usize = 0;
        while i < self.foreign.len()
            invariant
                i <= self.foreign@.len(),
                forall|j: int| 0 <= j < i ==> self.foreign@[j] != raw,
            decreases self.foreign@.len() - i,
        {
            if self.foreign[i] == raw {
                return true;
            }
            i = i + 1;
        }
        false
    }

    /// Marks a raw handle foreign-owned; every other handle keeps its
    /// previous standing.
    pub fn mark_foreign(&mut self, raw: u64)
        ensures
            final(self).is_foreign_spec(raw),
            forall|other: u64|
                other != raw ==> final(self).is_foreign_spec(other) == old(self).is_foreign_spec(
                    other,
                ),
    {
        let present = self.is_foreign(raw);
        if !present {
            let ghost pre = self.foreign@;
            self.foreign.push(raw);
            proof {
                assert(self.foreign@[pre.len() as int] == raw);
                assert(self.foreign@.contains(raw));
                assert forall|other: u64| other != raw implies self.foreign@.contains(other)
                    == pre.contains(other) by {
                    if pre.contains(other) {
                        let k = choose|k: int| 0 <= k < pre.len() && pre[k] == other;
                        assert(self.foreign@[k] == other);
                    }
                    if self.foreign@.contains(other) {
                        let k = choose|k: int|
                            0 <= k < self.foreign@.len() && self.foreign@[k] == other;
                        assert(k < pre.len());
                        assert(pre[k] == other);
                    }
                }
            }
        }
    }

    /// Adopts a space handle a collaborator retains ownership of: the
    /// wrapper is usable like any other space, but its destruction is
    /// intercepted from now on.
    pub fn adopt_foreign_space(&mut self, raw: u64) -> (s: XrSpace)
        ensures
            s.raw_spec() == raw,
            final(self).is_foreign_spec(raw),
            forall|other: u64|
                other != raw ==> final(self).is_foreign_spec(other) == old(self).is_foreign_spec(
                    other,
                ),
    {
        self.mark_foreign(raw);
        XrSpace::from_raw(raw)
    }

    /// The destroy hook's decision: a handle in the foreign-owned set is
    /// never destroyed natively, every other handle is.
    pub fn destroy_space_action(&self, raw: u64) -> (a: DestroyAction)
        ensures
            a == DestroyAction::Skip <==> self.is_foreign_spec(raw),
            a == DestroyAction::CallNative <==> !self.is_foreign_spec(raw),
    {
        if self.is_foreign(raw) {
            DestroyAction::Skip
        } else {
            DestroyAction::CallNative
        }
    }
}

/// Chooses the reference space a tracked entity is located against: its
/// own, if it set one, else the process-wide default.
pub fn resolve_reference_space(own: Option<XrSpace>, default_space: XrSpace) -> (s: XrSpace)
    ensures
        own matches Some(r) ==> s == r,
        own is None ==> s == default_space,
{
    match own {
        Some(r) => r,
        None => default_space,
    }
}

/// The time a frame's spatial queries are made for: the predicted display
/// time, advanced by one predicted display period when pipelined
/// rendering is active, compensating the extra frame of latency.
pub open spec fn query_time_spec(frame_state: OxrFrameState, pipelined: bool) -> int {
    if pipelined {
        frame_state.predicted_display_time + frame_state.predicted_display_period
    } else {
        frame_state.predicted_display_time as int
    }
}

/// Computes the spatial query time for this frame under the chosen
/// pipelining policy; the caller guarantees the advanced time stays
/// representable.
pub fn predicted_query_time(frame_state: &OxrFrameState, pipelined: bool) -> (t: i64)
    requires
        i64::MIN <= query_time_spec(*frame_state, pipelined) <= i64::MAX,
    ensures
        t == query_time_spec(*frame_state, pipelined),
{
    if pipelined {
        frame_state.predicted_display_time + frame_state.predicted_display_period
    } else {
        frame_state.predicted_display_time
    }
}

/// Computes the spatial query time for this frame, reporting an advanced
/// time that would not be representable instead of producing one.
pub fn try_predicted_query_time(frame_state: &OxrFrameState, pipelined: bool) -> (t: Option<i64>)
    ensures
        i64::MIN <= query_time_spec(*frame_state, pipelined) <= i64::MAX ==> t == Some(
            query_time_spec(*frame_state, pipelined) as i64,
        ),
        !(i64::MIN <= query_time_spec(*frame_state, pipelined) <= i64::MAX) ==> t == None::<i64>,
{
    if pipelined {
        let wide: i128 = frame_state.predicted_display_time as i128
            + frame_state.predicted_display_period as i128;
        if i64::MIN as i128 <= wide && wide <= i64::MAX as i128 {
            Some(wide as i64)
        } else {
            None
        }
    } else {
        Some(frame_state.predicted_display_time)
    }
}

/// A located pose as the runtime reported it: the flag word plus the
/// pose, with components not marked valid zeroed at the native boundary.
#[derive(Clone, Copy, Debug, PartialEq, Eq, Structural)]
pub struct SpaceLocationData {
    pub location_flags: u64,
    pub pose: PoseBits,
}

/// A location record as it leaves the native boundary: a component whose
/// validity bit is unset is replaced by the default value, never read out
/// of the raw report.
pub open spec fn location_sanitized(flags: u64, raw_pose: PoseBits) -> SpaceLocationData {
    SpaceLocationData {
        location_flags: flags,
        pose: PoseBits {
            orientation: if orientation_valid(flags) {
                raw_pose.orientation
            } else {
                QuaternionBits::default_spec()
            },
            position: if position_valid(flags) {
                raw_pose.position
            } else {
                Vector3Bits::default_spec()
            },
        },
    }
}

/// Builds the safe location record from the raw flag word and pose.
pub fn create_space_location(flags: u64, raw_pose: PoseBits) -> (loc: SpaceLocationData)
    ensures
        loc == location_sanitized(flags, raw_pose),
{
    SpaceLocationData {
        location_flags: flags,
        pose: PoseBits {
            orientation: if has_orientation_valid(flags) {
                raw_pose.orientation
            } else {
                QuaternionBits::default()
            },
            position: if has_position_valid(flags) {
                raw_pose.position
            } else {
                Vector3Bits::default()
            },
        },
    }
}

/// A reported velocity: the flag word plus linear and angular components,
/// with components not marked valid zeroed at the native boundary.
#[derive(Clone, Copy, Debug, PartialEq, Eq, Structural)]
pub struct SpaceVelocityData {
    pub velocity_flags: u64,
    pub linear_velocity: Vector3Bits,
    pub angular_velocity: Vector3Bits,
}

/// True when a velocity flag word marks the linear component valid.
pub open spec fn linear_valid(flags: u64) -> bool {
    flags & LINEAR_VALID_BIT == LINEAR_VALID_BIT
}

/// True when a velocity flag word marks the angular component valid.
pub open spec fn angular_valid(flags: u64) -> bool {
    flags & ANGULAR_VALID_BIT == ANGULAR_VALID_BIT
}

/// A velocity record as it leaves the native boundary: a component whose
/// validity bit is unset is replaced by the default value.
pub open spec fn velocity_sanitized(
    flags: u64,
    raw_linear: Vector3Bits,
    raw_angular: Vector3Bits,
) -> SpaceVelocityData {
    SpaceVelocityData {
        velocity_flags: flags,
        linear_velocity: if linear_valid(flags) {
            raw_linear
        } else {
            Vector3Bits::default_spec()
        },
        angular_velocity: if angular_valid(flags) {
            raw_angular
        } else {
            Vector3Bits::default_spec()
        },
    }
}

/// Builds the safe velocity record from the raw flag word and components.
pub fn create_space_velocity(
    flags: u64,
    raw_linear: Vector3Bits,
    raw_angular: Vector3Bits,
) -> (vel: SpaceVelocityData)
    ensures
        vel == velocity_sanitized(flags, raw_linear, raw_angular),
{
    SpaceVelocityData {
        velocity_flags: flags,
        linear_velocity: if flags & LINEAR_VALID_BIT == LINEAR_VALID_BIT {
            raw_linear
        } else {
            Vector3Bits::default()
        },
        angular_velocity: if flags & ANGULAR_VALID_BIT == ANGULAR_VALID_BIT {
            raw_angular
        } else {
            Vector3Bits::default()
        },
    }
}

/// Merges a located pose into a tracked entity's transform. The
/// candidates are the located components already composed with the
/// entity's offset by the embedding; a component is written only when its
/// validity bit is set, and an invalid component retains the previous
/// value rather than resetting.
pub fn update_spatial_transform(
    transform: &mut PoseBits,
    location_flags: u64,
    candidate_position: Vector3Bits,
    candidate_rotation: QuaternionBits,
)
    ensures
        position_valid(location_flags) ==> final(transform).position == candidate_position,
        !position_valid(location_flags) ==> final(transform).position == old(transform).position,
        orientation_valid(location_flags) ==> final(transform).orientation == candidate_rotation,
        !orientation_valid(location_flags) ==> final(transform).orientation == old(
            transform,
        ).orientation,
{
    if has_position_valid(location_flags) {
        transform.position = candidate_position;
    }
    if has_orientation_valid(location_flags) {
        transform.orientation = candidate_rotation;
    }
}

/// One hand joint as reported: its own location flag word, pose and a
/// radius scalar carried as an opaque 32-bit word.
#[derive(Clone, Copy, Debug, PartialEq, Eq, Structural)]
pub struct HandJointData {
    pub location_flags: u64,
    pub pose: PoseBits,
    pub radius: u32,
}

/// Decides what a hand-joint query produced: a negative status is the
/// error it carried; success with an inactive tracker yields no joints
/// (the reported array may be uninitialized and must not be read);
/// success with an active tracker yields the full joint array.
pub fn hand_joints_result(code: i32, is_active: bool, joints: Vec<HandJointData>) -> (r: Result<
    Option<Vec<HandJointData>>,
    i32,
>)
    ensures
        code < 0 ==> r == Err::<Option<Vec<HandJointData>>, i32>(code),
        code >= 0 && !is_active ==> (r matches Ok(j) && j is None),
        code >= 0 && is_active ==> (r matches Ok(j) && j matches Some(v) && v@ == joints@),
{
    if code < 0 {
        Err(code)
    } else if is_active {
        Ok(Some(joints))
    } else {
        Ok(None)
    }
}

/// Decides what a hand-joint query with velocities produced, under the
/// same rule as [`hand_joints_result`]: both arrays are surfaced only
/// when the call succeeded and the tracker was active.
pub fn hand_joints_with_velocities_result(
    code: i32,
    is_active: bool,
    joints: Vec<HandJointData>,
    velocities: Vec<SpaceVelocityData>,
) -> (r: Result<Option<(Vec<HandJointData>, Vec<SpaceVelocityData>)>, i32>)
    ensures
        code < 0 ==> r == Err::<Option<(Vec<HandJointData>, Vec<SpaceVelocityData>)>, i32>(code),
        code >= 0 && !is_active ==> (r matches Ok(j) && j is None),
        code >= 0 && is_active ==> (r matches Ok(j) && j matches Some(v) && v.0@ == joints@
            && v.1@ == velocities@),
{
    if code < 0 {
        Err(code)
    } else if is_active {
        Ok(Some((joints, velocities)))
    } else {
        Ok(None)
    }
}

} // verus!
