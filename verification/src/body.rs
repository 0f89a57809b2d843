//! Rigid-body and collider records, and the engine-step contract.
//!
//! The physics engine owns the actual body store; the library keeps
//! plain-value records of what each body was configured with and of
//! the state the engine reports (position, orientation, linear
//! velocity). [`step_ok`] writes down what the engine is relied on to
//! do in one integration tick; the simulation lemmas are proved from
//! it.

use vstd::prelude::*;

use crate::math::{Quat, Vec3, Vec3Model};

verus! {

/// Whether a body is integrated and pushed by collisions, or is an
/// immovable obstacle.
#[derive(Clone, Copy, Debug, PartialEq, Eq, Structural)]
pub enum BodyType {
    Dynamic,
    Static,
}

/// How a rigid body was configured at creation. Immutable afterwards.
#[derive(Clone, Copy, Debug, PartialEq, Eq, Structural)]
pub struct BodyConfig {
    pub body_type: BodyType,
    /// Orientation never changes, whatever torque or collision response
    /// the engine computes.
    pub rotation_locked: bool,
    /// Continuous collision detection: the body must not tunnel through
    /// a thin collider between two ticks, however fast it moves.
    pub ccd_enabled: bool,
    /// Whether the engine may deactivate the body when it comes to
    /// rest. The scene's bodies never sleep, so input always acts
    /// immediately.
    pub can_sleep: bool,
}

/// A cuboid collider: half-extents in milli-units, and whether contact
/// events are emitted for it.
#[derive(Clone, Copy, Debug, PartialEq, Eq, Structural)]
pub struct ColliderConfig {
    pub half_x: i64,
    pub half_y: i64,
    pub half_z: i64,
    pub contact_events: bool,
}

impl ColliderConfig {
    /// Half-extents are lengths: never negative.
    pub open spec fn wf(self) -> bool {
        0 <= self.half_x && 0 <= self.half_y && 0 <= self.half_z
    }
}

/// The state of one rigid body as the engine reports it between ticks.
#[derive(Clone, Copy, Debug, PartialEq, Eq, Structural)]
pub struct BodyState {
    pub pos: Vec3,
    pub orient: Quat,
    pub linvel: Vec3,
}

/// The mathematical value of a [`BodyState`]: position and velocity as
/// unbounded integers, orientation as it stands.
pub struct BodyStateModel {
    pub pos: Vec3Model,
    pub orient: Quat,
    pub linvel: Vec3Model,
}

impl View for BodyState {
    type V = BodyStateModel;

    open spec fn view(&self) -> BodyStateModel {
        BodyStateModel { pos: self.pos@, orient: self.orient, linvel: self.linvel@ }
    }
}

/// The height of a body's lowest point: its centre less the collider's
/// vertical half-extent.
pub open spec fn bottom_y(s: BodyStateModel, coll: ColliderConfig) -> int {
    s.pos.y - coll.half_y
}

/// What one engine tick is relied on to do to a body configured with
/// `cfg` and `coll`, above a floor whose top surface lies at
/// `floor_top`: a rotation-locked body keeps its orientation exactly; a
/// static body does not move at all; and a dynamic body with continuous
/// collision detection that starts on or above the floor ends the tick
/// on or above it, whatever its velocity. Nothing else is assumed — in
/// particular the velocity after the tick is arbitrary (gravity and
/// collision response act freely).
pub open spec fn step_ok(
    cfg: BodyConfig,
    coll: ColliderConfig,
    floor_top: int,
    pre: BodyStateModel,
    post: BodyStateModel,
) -> bool {
    &&& cfg.rotation_locked ==> post.orient == pre.orient
    &&& cfg.body_type == BodyType::Static ==> post == pre
    &&& (cfg.body_type == BodyType::Dynamic && cfg.ccd_enabled && bottom_y(pre, coll)
        >= floor_top) ==> bottom_y(post, coll) >= floor_top
}

} // verus!
