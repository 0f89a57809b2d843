//! The scene's creation records, and one whole simulated frame.

use cube_player::body::BodyType;
use cube_player::input::InputState;
use cube_player::math::{Quat, Vec3};
use cube_player::spawn::{spawn_floor, spawn_player};
use cube_player::systems::run_frame_systems;

#[test]
fn player_bundle_matches_scene() {
    let b = spawn_player();
    assert_eq!(b.player.speed, 3500);
    assert_eq!(b.jumper.jump_impulse, 5000);
    assert_eq!(b.body.body_type, BodyType::Dynamic);
    assert!(b.body.rotation_locked);
    assert!(b.body.ccd_enabled);
    assert!(!b.body.can_sleep);
    assert_eq!(b.collider.half_x, 500);
    assert_eq!(b.collider.half_y, 500);
    assert_eq!(b.collider.half_z, 500);
    assert!(b.collider.contact_events);
    assert_eq!(b.state.pos, Vec3 { x: 0, y: 500, z: 20000 });
    assert_eq!(b.state.orient, Quat::identity());
    assert_eq!(b.state.linvel, Vec3 { x: 0, y: 0, z: 0 });
}

#[test]
fn floor_bundle_matches_scene() {
    let b = spawn_floor();
    assert_eq!(b.body.body_type, BodyType::Static);
    assert!(b.body.rotation_locked);
    assert!(b.body.ccd_enabled);
    assert!(!b.body.can_sleep);
    assert_eq!(b.collider.half_x, 2500);
    assert_eq!(b.collider.half_y, 0);
    assert_eq!(b.collider.half_z, 2500);
    assert!(!b.collider.contact_events);
    assert_eq!(b.state.pos, Vec3 { x: 0, y: -2000, z: 0 });
    assert_eq!(b.state.orient, Quat::identity());
    assert_eq!(b.state.linvel, Vec3 { x: 0, y: 0, z: 0 });
}

#[test]
fn one_frame_with_positive_horizontal_held() {
    // The player as created, one frame with the positive-horizontal
    // key held: horizontal velocity becomes the configured speed and
    // the other axes keep their values.
    let b = spawn_player();
    let input = InputState { left: false, right: true, up: false, down: false, jump: false };
    let mut v = b.state.linvel;
    run_frame_systems(&input, &b.player, &b.jumper, &mut v);
    assert_eq!(v, Vec3 { x: 3500, y: 0, z: 0 });
    // The systems never move the body directly; position is the
    // engine's to integrate.
    assert_eq!(b.state.pos, Vec3 { x: 0, y: 500, z: 20000 });
}

#[test]
fn frame_commands_touch_only_velocity() {
    let b = spawn_player();
    let input = InputState { left: true, right: false, up: false, down: false, jump: true };
    let mut state = b.state;
    cube_player::sim::apply_frame_commands(&input, &b.player, &b.jumper, &mut state);
    assert_eq!(state.linvel, Vec3 { x: -3500, y: 5000, z: 0 });
    assert_eq!(state.pos, b.state.pos);
    assert_eq!(state.orient, b.state.orient);
}

#[test]
fn spawned_jumper_three_held_frames() {
    let b = spawn_player();
    let jump = InputState { left: false, right: false, up: false, down: false, jump: true };
    let mut v = b.state.linvel;
    for _ in 0..3 {
        run_frame_systems(&jump, &b.player, &b.jumper, &mut v);
        assert_eq!(v.y, 5000);
        v.y -= 160;
    }
}
