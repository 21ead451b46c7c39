//! Spatial records as the tracker carries them.
//!
//! Positions, rotations and field-of-view angles are produced by the native
//! runtime as 32-bit scalar encodings. The tracking logic never computes
//! with a scalar: it copies a component whole when the runtime marks it
//! valid and retains the previous one otherwise. Each scalar is therefore
//! held as an opaque 32-bit word, and the zeroed word stands for the
//! default scalar the runtime reports for an invalid component.

use vstd::prelude::*;

verus! {

/// Bit set in a location or view-state flag word when the orientation
/// component of the reported pose holds valid data.
pub const ORIENTATION_VALID_BIT: u64 = 1;

/// Bit set in a location or view-state flag word when the position
/// component of the reported pose holds valid data.
pub const POSITION_VALID_BIT: u64 = 2;

/// Bit set in a velocity flag word when the linear velocity holds valid
/// data.
pub const LINEAR_VALID_BIT: u64 = 1;

/// Bit set in a velocity flag word when the angular velocity holds valid
/// data.
pub const ANGULAR_VALID_BIT: u64 = 2;

/// True when a flag word marks the orientation component valid.
pub open spec fn orientation_valid(flags: u64) -> bool {
    flags & ORIENTATION_VALID_BIT == ORIENTATION_VALID_BIT
}

/// True when a flag word marks the position component valid.
pub open spec fn position_valid(flags: u64) -> bool {
    flags & POSITION_VALID_BIT == POSITION_VALID_BIT
}

/// Runtime check of [`orientation_valid`].
pub fn has_orientation_valid(flags: u64) -> (r: bool)
    ensures
        r == orientation_valid(flags),
{
    flags & ORIENTATION_VALID_BIT == ORIENTATION_VALID_BIT
}

/// Runtime check of [`position_valid`].
pub fn has_position_valid(flags: u64) -> (r: bool)
    ensures
        r == position_valid(flags),
{
    flags & POSITION_VALID_BIT == POSITION_VALID_BIT
}

/// A translation: three scalar components as opaque 32-bit words.
#[derive(Clone, Copy, Debug, PartialEq, Eq, Structural)]
pub struct Vector3Bits {
    pub x: u32,
    pub y: u32,
    pub z: u32,
}

impl Vector3Bits {
    /// The zeroed vector the runtime reports for an invalid position.
    pub open spec fn default_spec() -> Self {
        Vector3Bits { x: 0, y: 0, z: 0 }
    }
}

impl Default for Vector3Bits {
    fn default() -> (r: Self)
        ensures
            r == Self::default_spec(),
    {
        Vector3Bits { x: 0, y: 0, z: 0 }
    }
}

/// A rotation: four scalar components as opaque 32-bit words.
#[derive(Clone, Copy, Debug, PartialEq, Eq, Structural)]
pub struct QuaternionBits {
    pub x: u32,
    pub y: u32,
    pub z: u32,
    pub w: u32,
}

impl QuaternionBits {
    /// The zeroed rotation the runtime reports for an invalid orientation.
    pub open spec fn default_spec() -> Self {
        QuaternionBits { x: 0, y: 0, z: 0, w: 0 }
    }
}

impl Default for QuaternionBits {
    fn default() -> (r: Self)
        ensures
            r == Self::default_spec(),
    {
        QuaternionBits { x: 0, y: 0, z: 0, w: 0 }
    }
}

/// A pose: orientation and position, each independently valid or stale.
#[derive(Clone, Copy, Debug, PartialEq, Eq, Structural)]
pub struct PoseBits {
    pub orientation: QuaternionBits,
    pub position: Vector3Bits,
}

impl PoseBits {
    /// The zeroed pose new records start from.
    pub open spec fn default_spec() -> Self {
        PoseBits {
            orientation: QuaternionBits::default_spec(),
            position: Vector3Bits::default_spec(),
        }
    }
}

impl Default for PoseBits {
    fn default() -> (r: Self)
        ensures
            r == Self::default_spec(),
    {
        PoseBits { orientation: QuaternionBits::default(), position: Vector3Bits::default() }
    }
}

/// Four field-of-view angles (left, right, up, down) as opaque 32-bit
/// words; the projection is computed from them by the embedding.
#[derive(Clone, Copy, Debug, PartialEq, Eq, Structural)]
pub struct FovBits {
    pub angle_left: u32,
    pub angle_right: u32,
    pub angle_up: u32,
    pub angle_down: u32,
}

impl FovBits {
    /// The zeroed field of view new records start from.
    pub open spec fn default_spec() -> Self {
        FovBits { angle_left: 0, angle_right: 0, angle_up: 0, angle_down: 0 }
    }
}

impl Default for FovBits {
    fn default() -> (r: Self)
        ensures
            r == Self::default_spec(),
    {
        FovBits { angle_left: 0, angle_right: 0, angle_up: 0, angle_down: 0 }
    }
}

} // verus!
