//! Integer vectors and quaternions in milli-units.
//!
//! One world unit is `MILLIS_PER_UNIT` milli-units. Velocities,
//! positions and collider extents are all stored this way, so every
//! operation of the control core is exact.

use vstd::prelude::*;

verus! {

/// Milli-units per world unit: the fixed-point scale of the library.
pub const MILLIS_PER_UNIT: i64 = 1000;

/// A three-component vector in milli-units (position or velocity).
#[derive(Clone, Copy, Debug, PartialEq, Eq, Structural)]
pub struct Vec3 {
    pub x: i64,
    pub y: i64,
    pub z: i64,
}

/// The mathematical value of a `Vec3`: the same components as
/// unbounded integers.
pub struct Vec3Model {
    pub x: int,
    pub y: int,
    pub z: int,
}

impl View for Vec3 {
    type V = Vec3Model;

    open spec fn view(&self) -> Vec3Model {
        Vec3Model { x: self.x as int, y: self.y as int, z: self.z as int }
    }
}

impl Vec3 {
    /// The zero vector.
    pub fn zero() -> (r: Vec3)
        ensures
            r@ == (Vec3Model { x: 0, y: 0, z: 0 }),
    {
        Vec3 { x: 0, y: 0, z: 0 }
    }
}

/// An orientation, as a quaternion in milli-units. The control core
/// never rotates anything: it only records orientations and compares
/// them, so no quaternion arithmetic is defined.
#[derive(Clone, Copy, Debug, PartialEq, Eq, Structural)]
pub struct Quat {
    pub x: i64,
    pub y: i64,
    pub z: i64,
    pub w: i64,
}

/// The identity orientation (no rotation).
pub open spec fn identity_quat() -> Quat {
    Quat { x: 0, y: 0, z: 0, w: MILLIS_PER_UNIT }
}

impl Quat {
    /// The identity orientation, as a value.
    pub fn identity() -> (r: Quat)
        ensures
            r == identity_quat(),
    {
        Quat { x: 0, y: 0, z: 0, w: MILLIS_PER_UNIT }
    }
}

} // verus!
