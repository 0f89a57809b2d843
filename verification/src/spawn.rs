//! Bootstrap: the records the scene's two physics entities are created
//! from.
//!
//! The player is a unit cube spawned at (0, 0.5, 20) world units with
//! speed 3.5 and jump impulse 5; the floor is a flat static slab at
//! height -2. Meshes, materials, lights and the camera are rendering
//! configuration and live with the host, not here.

use vstd::prelude::*;

use crate::body::{BodyConfig, BodyState, BodyType, ColliderConfig};
use crate::math::{identity_quat, Quat, Vec3};
use crate::player::{Jumper, Player};

verus! {

/// The player's commanded speed: 3.5 world units per second.
pub const PLAYER_SPEED: i64 = 3500;

/// The player's jump impulse: 5 world units per second.
pub const PLAYER_JUMP_IMPULSE: i64 = 5000;

/// The player cube's half-extent: half of a unit cube.
pub const PLAYER_HALF_EXTENT: i64 = 500;

/// The player's starting height: 0.5 world units.
pub const PLAYER_START_Y: i64 = 500;

/// The player's starting depth: 20 world units.
pub const PLAYER_START_Z: i64 = 20000;

/// The floor's centre height: -2 world units.
pub const FLOOR_Y: i64 = -2000;

/// The floor slab's half-extent on the horizontal and depth axes: half
/// of a 5-unit plane.
pub const FLOOR_HALF_XZ: i64 = 2500;

/// Everything the player entity is created with.
#[derive(Clone, Copy, Debug, PartialEq, Eq, Structural)]
pub struct PlayerBundle {
    pub player: Player,
    pub jumper: Jumper,
    pub body: BodyConfig,
    pub collider: ColliderConfig,
    pub state: BodyState,
}

/// Everything the floor entity is created with.
#[derive(Clone, Copy, Debug, PartialEq, Eq, Structural)]
pub struct FloorBundle {
    pub body: BodyConfig,
    pub collider: ColliderConfig,
    pub state: BodyState,
}

/// The height of the floor's top surface: its centre plus the vertical
/// half-extent of its collider.
pub open spec fn floor_top(f: FloorBundle) -> int {
    f.state.pos.y + f.collider.half_y
}

/// Build the player: a dynamic, rotation-locked, never-sleeping unit
/// cube with continuous collision detection, a contact-event-emitting
/// collider, speed 3.5 and jump impulse 5, at rest at (0, 0.5, 20) in
/// the identity orientation.
pub fn spawn_player() -> (b: PlayerBundle)
    ensures
        b.player.speed == PLAYER_SPEED,
        b.player.wf(),
        b.jumper.jump_impulse == PLAYER_JUMP_IMPULSE,
        b.body == (BodyConfig {
            body_type: BodyType::Dynamic,
            rotation_locked: true,
            ccd_enabled: true,
            can_sleep: false,
        }),
        b.collider == (ColliderConfig {
            half_x: PLAYER_HALF_EXTENT,
            half_y: PLAYER_HALF_EXTENT,
            half_z: PLAYER_HALF_EXTENT,
            contact_events: true,
        }),
        b.collider.wf(),
        b.state.pos == (Vec3 { x: 0, y: PLAYER_START_Y, z: PLAYER_START_Z }),
        b.state.orient == identity_quat(),
        b.state.linvel == (Vec3 { x: 0, y: 0, z: 0 }),
{
    PlayerBundle {
        player: Player { speed: PLAYER_SPEED },
        jumper: Jumper { jump_impulse: PLAYER_JUMP_IMPULSE },
        body: BodyConfig {
            body_type: BodyType::Dynamic,
            rotation_locked: true,
            ccd_enabled: true,
            can_sleep: false,
        },
        collider: ColliderConfig {
            half_x: PLAYER_HALF_EXTENT,
            half_y: PLAYER_HALF_EXTENT,
            half_z: PLAYER_HALF_EXTENT,
            contact_events: true,
        },
        state: BodyState {
            pos: Vec3 { x: 0, y: PLAYER_START_Y, z: PLAYER_START_Z },
            orient: Quat::identity(),
            linvel: Vec3::zero(),
        },
    }
}

/// Build the floor: a static, flat slab at height -2 whose collider is
/// 2.5 units around the origin on the horizontal and depth axes and
/// has no thickness; it emits no contact events, and its top surface
/// lies at its centre height. Rotation lock, continuous collision
/// detection and the no-sleep policy are set as on the player.
pub fn spawn_floor() -> (b: FloorBundle)
    ensures
        b.body == (BodyConfig {
            body_type: BodyType::Static,
            rotation_locked: true,
            ccd_enabled: true,
            can_sleep: false,
        }),
        b.collider == (ColliderConfig {
            half_x: FLOOR_HALF_XZ,
            half_y: 0,
            half_z: FLOOR_HALF_XZ,
            contact_events: false,
        }),
        b.collider.wf(),
        b.state.pos == (Vec3 { x: 0, y: FLOOR_Y, z: 0 }),
        b.state.orient == identity_quat(),
        b.state.linvel == (Vec3 { x: 0, y: 0, z: 0 }),
        floor_top(b) == FLOOR_Y,
{
    FloorBundle {
        body: BodyConfig {
            body_type: BodyType::Static,
            rotation_locked: true,
            ccd_enabled: true,
            can_sleep: false,
        },
        collider: ColliderConfig {
            half_x: FLOOR_HALF_XZ,
            half_y: 0,
            half_z: FLOOR_HALF_XZ,
            contact_events: false,
        },
        state: BodyState {
            pos: Vec3 { x: 0, y: FLOOR_Y, z: 0 },
            orient: Quat::identity(),
            linvel: Vec3::zero(),
        },
    }
}

} // verus!
