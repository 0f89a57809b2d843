//! The per-frame control policy on concrete values.

use cube_player::input::InputState;
use cube_player::math::Vec3;
use cube_player::player::{Jumper, Player};
use cube_player::systems::{player_jumps, player_movement, run_frame_systems};

fn held(left: bool, right: bool, up: bool, down: bool, jump: bool) -> InputState {
    InputState { left, right, up, down, jump }
}

#[test]
fn move_positive_horizontal_sets_speed() {
    let p = Player { speed: 3500 };
    let mut v = Vec3 { x: 100, y: 200, z: 300 };
    player_movement(&held(false, true, false, false, false), &p, &mut v);
    assert_eq!(v, Vec3 { x: 3500, y: 200, z: 300 });
}

#[test]
fn move_negative_horizontal_sets_negative_speed() {
    let p = Player { speed: 3500 };
    let mut v = Vec3 { x: 100, y: 200, z: 300 };
    player_movement(&held(true, false, false, false, false), &p, &mut v);
    assert_eq!(v, Vec3 { x: -3500, y: 200, z: 300 });
}

#[test]
fn depth_axis_commands_both_directions() {
    let p = Player { speed: 2000 };
    let mut v = Vec3 { x: 1, y: 2, z: 3 };
    player_movement(&held(false, false, true, false, false), &p, &mut v);
    assert_eq!(v, Vec3 { x: 1, y: 2, z: -2000 });
    player_movement(&held(false, false, false, true, false), &p, &mut v);
    assert_eq!(v, Vec3 { x: 1, y: 2, z: 2000 });
}

#[test]
fn no_key_keeps_prior_velocity() {
    let p = Player { speed: 3500 };
    let mut v = Vec3 { x: -42, y: 17, z: 99 };
    player_movement(&InputState::none(), &p, &mut v);
    assert_eq!(v, Vec3 { x: -42, y: 17, z: 99 });
}

#[test]
fn opposed_horizontal_keys_prefer_positive() {
    let p = Player { speed: 3500 };
    let mut v = Vec3 { x: 0, y: 0, z: 0 };
    player_movement(&held(true, true, false, false, false), &p, &mut v);
    assert_eq!(v.x, 3500);
}

#[test]
fn opposed_depth_keys_prefer_positive() {
    let p = Player { speed: 3500 };
    let mut v = Vec3 { x: 0, y: 0, z: 0 };
    player_movement(&held(false, false, true, true, false), &p, &mut v);
    assert_eq!(v.z, 3500);
}

#[test]
fn movement_leaves_vertical_alone() {
    let p = Player { speed: 3500 };
    let mut v = Vec3 { x: 0, y: 1234, z: 0 };
    player_movement(&held(true, true, true, true, false), &p, &mut v);
    assert_eq!(v.y, 1234);
}

#[test]
fn jump_sets_vertical_exactly() {
    let j = Jumper { jump_impulse: 5000 };
    let mut v = Vec3 { x: 70, y: -900, z: 80 };
    player_jumps(&held(false, false, false, false, true), &j, &mut v);
    assert_eq!(v, Vec3 { x: 70, y: 5000, z: 80 });
}

#[test]
fn jump_not_held_changes_nothing() {
    let j = Jumper { jump_impulse: 5000 };
    let mut v = Vec3 { x: 70, y: -900, z: 80 };
    player_jumps(&InputState::none(), &j, &mut v);
    assert_eq!(v, Vec3 { x: 70, y: -900, z: 80 });
}

#[test]
fn jump_held_three_frames_reasserts_impulse() {
    let p = Player { speed: 3500 };
    let j = Jumper { jump_impulse: 5000 };
    let jump = held(false, false, false, false, true);
    let mut v = Vec3 { x: 0, y: 0, z: 0 };
    for _ in 0..3 {
        run_frame_systems(&jump, &p, &j, &mut v);
        // The commanded vertical velocity is the impulse at the start
        // of each held frame, whatever gravity did meanwhile.
        assert_eq!(v.y, 5000);
        // One engine tick of gravity between frames.
        v.y -= 160;
    }
}

#[test]
fn jump_release_leaves_vertical_to_gravity() {
    let p = Player { speed: 3500 };
    let j = Jumper { jump_impulse: 5000 };
    let mut v = Vec3 { x: 0, y: 0, z: 0 };
    run_frame_systems(&held(false, false, false, false, true), &p, &j, &mut v);
    assert_eq!(v.y, 5000);
    // Gravity acts during the tick; the next frame, with the key
    // released, must not re-assert the held value.
    v.y -= 160;
    run_frame_systems(&held(false, false, false, false, false), &p, &j, &mut v);
    assert_eq!(v.y, 4840);
}

#[test]
fn systems_commute_on_concrete_frame() {
    let p = Player { speed: 3500 };
    let j = Jumper { jump_impulse: 5000 };
    let input = held(true, false, false, true, true);
    let mut a = Vec3 { x: 1, y: 2, z: 3 };
    player_jumps(&input, &j, &mut a);
    player_movement(&input, &p, &mut a);
    let mut b = Vec3 { x: 1, y: 2, z: 3 };
    player_movement(&input, &p, &mut b);
    player_jumps(&input, &j, &mut b);
    assert_eq!(a, b);
    assert_eq!(a, Vec3 { x: -3500, y: 5000, z: 3500 });
}
