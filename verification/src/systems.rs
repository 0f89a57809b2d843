//! The per-frame systems: movement and jump.
//!
//! Each frame the window layer captures an [`InputState`] and both
//! systems rewrite chosen axes of the player's linear velocity. The
//! vertical axis belongs to the jump system, the horizontal and depth
//! axes to the movement system, so their order does not matter
//! ([`lemma_system_order_irrelevant`]). The physics engine integrates
//! afterwards, seeing the commands of the same frame.

use vstd::prelude::*;

use crate::input::InputState;
use crate::math::{Vec3, Vec3Model};
use crate::player::{Jumper, Player};

verus! {

/// The velocity the movement system leaves behind, given the held keys,
/// the player's speed, and the velocity it found.
///
/// On each of the two axes it owns, the key pair is checked in a fixed
/// order (negative key first, positive key second), and the later write
/// wins: holding both keys of one axis commands the positive direction.
/// With neither key held the axis keeps its previous value — the body
/// coasts; no deceleration is modelled. The vertical axis is never
/// touched.
pub open spec fn movement_velocity(input: InputState, speed: int, v: Vec3Model) -> Vec3Model {
    Vec3Model {
        x: if input.right {
            speed
        } else if input.left {
            -speed
        } else {
            v.x
        },
        y: v.y,
        z: if input.down {
            speed
        } else if input.up {
            -speed
        } else {
            v.z
        },
    }
}

/// The velocity the jump system leaves behind: while the jump key is
/// held the vertical component is forced to exactly `jump_impulse` — a
/// hard clamp, not an additive impulse — and the other axes are
/// untouched. With the key released the velocity passes through
/// unchanged, left to gravity.
///
/// There is deliberately no ground-contact check and no cooldown:
/// holding the key indefinitely keeps the body rising at constant
/// speed.
pub open spec fn jump_velocity(input: InputState, jump_impulse: int, v: Vec3Model) -> Vec3Model {
    if input.jump {
        Vec3Model { x: v.x, y: jump_impulse, z: v.z }
    } else {
        v
    }
}

/// The velocity after both systems of one frame have run (jump first,
/// then movement; the order is immaterial since they own disjoint
/// axes).
pub open spec fn frame_velocity(
    input: InputState,
    speed: int,
    jump_impulse: int,
    v: Vec3Model,
) -> Vec3Model {
    movement_velocity(input, speed, jump_velocity(input, jump_impulse, v))
}

/// The movement system: overwrite the horizontal and depth axes of
/// `vel` as the held keys command, leaving the vertical axis alone.
pub fn player_movement(input: &InputState, player: &Player, vel: &mut Vec3)
    requires
        player.wf(),
    ensures
        final(vel)@ == movement_velocity(*input, player.speed as int, old(vel)@),
{
    if input.left {
        vel.x = -player.speed;
    }
    if input.right {
        vel.x = player.speed;
    }
    if input.up {
        vel.z = -player.speed;
    }
    if input.down {
        vel.z = player.speed;
    }
}

/// The jump system: while the jump key is held, force the vertical
/// axis of `vel` to the jumper's impulse; otherwise leave `vel` as it
/// is.
pub fn player_jumps(input: &InputState, jumper: &Jumper, vel: &mut Vec3)
    ensures
        final(vel)@ == jump_velocity(*input, jumper.jump_impulse as int, old(vel)@),
{
    if input.jump {
        vel.y = jumper.jump_impulse;
    }
}

/// Run both systems of one frame on the player's velocity.
pub fn run_frame_systems(input: &InputState, player: &Player, jumper: &Jumper, vel: &mut Vec3)
    requires
        player.wf(),
    ensures
        final(vel)@ == frame_velocity(
            *input,
            player.speed as int,
            jumper.jump_impulse as int,
            old(vel)@,
        ),
{
    player_jumps(input, jumper, vel);
    player_movement(input, player, vel);
}

/// With a positive speed, a lone directional key commands exactly that
/// speed in its direction, an axis with no key held keeps its previous
/// velocity, and the vertical axis is never touched by movement.
pub proof fn lemma_movement_axis_commands(input: InputState, speed: int, v: Vec3Model)
    requires
        speed > 0,
    ensures
        input.right && !input.left ==> movement_velocity(input, speed, v).x == speed,
        input.left && !input.right ==> movement_velocity(input, speed, v).x == -speed,
        !input.left && !input.right ==> movement_velocity(input, speed, v).x == v.x,
        input.down && !input.up ==> movement_velocity(input, speed, v).z == speed,
        input.up && !input.down ==> movement_velocity(input, speed, v).z == -speed,
        !input.up && !input.down ==> movement_velocity(input, speed, v).z == v.z,
        movement_velocity(input, speed, v).y == v.y,
{
}

/// Holding both keys of one axis commands the positive direction: the
/// negative key is checked first and the positive key's write wins.
pub proof fn lemma_opposed_keys_positive_wins(input: InputState, speed: int, v: Vec3Model)
    ensures
        input.left && input.right ==> movement_velocity(input, speed, v).x == speed,
        input.up && input.down ==> movement_velocity(input, speed, v).z == speed,
{
}

/// With the jump key released, the systems of a frame leave the
/// vertical velocity exactly as they found it: nothing re-asserts the
/// held value, and the next integration step evolves it under gravity
/// alone.
pub proof fn lemma_jump_released_vertical_untouched(
    input: InputState,
    speed: int,
    jump_impulse: int,
    v: Vec3Model,
)
    requires
        !input.jump,
    ensures
        frame_velocity(input, speed, jump_impulse, v).y == v.y,
{
}

/// The jump and movement systems own disjoint axes, so running them in
/// either order leaves the same velocity.
pub proof fn lemma_system_order_irrelevant(
    input: InputState,
    speed: int,
    jump_impulse: int,
    v: Vec3Model,
)
    ensures
        movement_velocity(input, speed, jump_velocity(input, jump_impulse, v))
            == jump_velocity(input, jump_impulse, movement_velocity(input, speed, v)),
{
}

} // verus!
