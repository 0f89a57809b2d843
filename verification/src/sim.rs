//! Frames and traces: what the simulation loop guarantees over time.
//!
//! A frame is: the input snapshot is captured, the jump and movement
//! systems rewrite the player's velocity, and the engine integrates one
//! tick under the contract of [`step_ok`]. A trace records the body
//! state the engine reports between frames; the lemmas here state what
//! any such trace satisfies.

use vstd::prelude::*;

use crate::body::{bottom_y, step_ok, BodyConfig, BodyState, BodyStateModel, BodyType, ColliderConfig};
use crate::input::InputState;
use crate::player::{Jumper, Player};
use crate::systems::{frame_velocity, run_frame_systems};

verus! {

/// The body state the systems of one frame hand to the engine: the
/// velocity is rewritten as the held keys command; position and
/// orientation are left exactly as found — no system moves or rotates
/// anything directly.
pub open spec fn commanded(
    p: Player,
    j: Jumper,
    input: InputState,
    s: BodyStateModel,
) -> BodyStateModel {
    BodyStateModel {
        pos: s.pos,
        orient: s.orient,
        linvel: frame_velocity(input, p.speed as int, j.jump_impulse as int, s.linvel),
    }
}

/// Run the systems of one frame on a body's state: exactly the
/// commanded state of the trace model — the velocity is rewritten as
/// the keys command, position and orientation stay untouched.
pub fn apply_frame_commands(
    input: &InputState,
    player: &Player,
    jumper: &Jumper,
    state: &mut BodyState,
)
    requires
        player.wf(),
    ensures
        final(state)@ == commanded(*player, *jumper, *input, old(state)@),
{
    let mut v = state.linvel;
    run_frame_systems(input, player, jumper, &mut v);
    state.linvel = v;
}

/// One whole frame: the systems command a velocity, then the engine
/// takes one tick from the commanded state to `post` under its
/// contract.
pub open spec fn frame_ok(
    p: Player,
    j: Jumper,
    cfg: BodyConfig,
    coll: ColliderConfig,
    floor_top: int,
    input: InputState,
    pre: BodyStateModel,
    post: BodyStateModel,
) -> bool {
    step_ok(cfg, coll, floor_top, commanded(p, j, input, pre), post)
}

/// A run of the loop: `states` holds the engine-reported state at each
/// frame boundary (one more entry than there are frames), and each
/// consecutive pair is related by one whole frame on the matching
/// input.
pub open spec fn trace_ok(
    p: Player,
    j: Jumper,
    cfg: BodyConfig,
    coll: ColliderConfig,
    floor_top: int,
    inputs: Seq<InputState>,
    states: Seq<BodyStateModel>,
) -> bool {
    &&& states.len() == inputs.len() + 1
    &&& forall|i: int|
        0 <= i < inputs.len() ==> frame_ok(
            p,
            j,
            cfg,
            coll,
            floor_top,
            #[trigger] inputs[i],
            states[i],
            states[i + 1],
        )
}

/// While the jump key is held, every frame of a run commands the
/// vertical velocity to exactly the jump impulse before its engine
/// tick — whatever gravity did to the velocity during the preceding
/// ticks, the clamp re-asserts it.
pub proof fn lemma_jump_held_commands_impulse(
    p: Player,
    j: Jumper,
    cfg: BodyConfig,
    coll: ColliderConfig,
    floor_top: int,
    inputs: Seq<InputState>,
    states: Seq<BodyStateModel>,
)
    requires
        trace_ok(p, j, cfg, coll, floor_top, inputs, states),
        forall|i: int| 0 <= i < inputs.len() ==> (#[trigger] inputs[i]).jump,
    ensures
        forall|i: int|
            0 <= i < inputs.len() ==> commanded(p, j, #[trigger] inputs[i], states[i]).linvel.y
                == j.jump_impulse,
{
}

/// A rotation-locked body never reports a changed orientation: after
/// any run of the loop — any key sequence, any gravity, any collision
/// response the engine resolves — every state of the trace carries the
/// orientation the body started with.
pub proof fn lemma_rotation_locked_orientation(
    p: Player,
    j: Jumper,
    cfg: BodyConfig,
    coll: ColliderConfig,
    floor_top: int,
    inputs: Seq<InputState>,
    states: Seq<BodyStateModel>,
)
    requires
        cfg.rotation_locked,
        trace_ok(p, j, cfg, coll, floor_top, inputs, states),
    ensures
        forall|i: int|
            0 <= i < states.len() ==> (#[trigger] states[i]).orient == states[0].orient,
{
    assert forall|i: int|
        0 <= i < states.len() implies (#[trigger] states[i]).orient == states[0].orient by {
        lemma_orientation_constant_upto(p, j, cfg, coll, floor_top, inputs, states, i);
    }
}

/// Induction step for [`lemma_rotation_locked_orientation`]: the
/// orientation at frame boundary `i` equals the initial one.
proof fn lemma_orientation_constant_upto(
    p: Player,
    j: Jumper,
    cfg: BodyConfig,
    coll: ColliderConfig,
    floor_top: int,
    inputs: Seq<InputState>,
    states: Seq<BodyStateModel>,
    i: int,
)
    requires
        cfg.rotation_locked,
        trace_ok(p, j, cfg, coll, floor_top, inputs, states),
        0 <= i < states.len(),
    ensures
        states[i].orient == states[0].orient,
    decreases i,
{
    if i > 0 {
        lemma_orientation_constant_upto(p, j, cfg, coll, floor_top, inputs, states, i - 1);
        assert(frame_ok(p, j, cfg, coll, floor_top, inputs[i - 1], states[i - 1], states[i]));
    }
}

/// A dynamic body with continuous collision detection that begins a
/// frame on or above the floor ends that frame on or above it — for
/// every commanded velocity, including one whose single-tick travel
/// exceeds the floor collider's thickness.
pub proof fn lemma_ccd_keeps_body_above_floor(
    p: Player,
    j: Jumper,
    cfg: BodyConfig,
    coll: ColliderConfig,
    floor_top: int,
    input: InputState,
    pre: BodyStateModel,
    post: BodyStateModel,
)
    requires
        cfg.body_type == BodyType::Dynamic,
        cfg.ccd_enabled,
        bottom_y(pre, coll) >= floor_top,
        frame_ok(p, j, cfg, coll, floor_top, input, pre, post),
    ensures
        bottom_y(post, coll) >= floor_top,
{
}

/// A run of the engine alone, for a body no system writes to (the
/// floor carries neither movement nor jump attributes): consecutive
/// states are related by the engine's tick contract directly.
pub open spec fn engine_trace_ok(
    cfg: BodyConfig,
    coll: ColliderConfig,
    floor_top: int,
    states: Seq<BodyStateModel>,
) -> bool {
    &&& states.len() >= 1
    &&& forall|i: int|
        0 <= i < states.len() - 1 ==> step_ok(
            cfg,
            coll,
            floor_top,
            #[trigger] states[i],
            states[i + 1],
        )
}

/// A static body never moves: over any run of the engine it reports
/// the state it was created with, unaffected by forces and collisions.
pub proof fn lemma_static_body_immovable(
    cfg: BodyConfig,
    coll: ColliderConfig,
    floor_top: int,
    states: Seq<BodyStateModel>,
)
    requires
        cfg.body_type == BodyType::Static,
        engine_trace_ok(cfg, coll, floor_top, states),
    ensures
        forall|i: int| 0 <= i < states.len() ==> #[trigger] states[i] == states[0],
{
    assert forall|i: int| 0 <= i < states.len() implies #[trigger] states[i] == states[0] by {
        lemma_static_constant_upto(cfg, coll, floor_top, states, i);
    }
}

/// Induction step for [`lemma_static_body_immovable`].
proof fn lemma_static_constant_upto(
    cfg: BodyConfig,
    coll: ColliderConfig,
    floor_top: int,
    states: Seq<BodyStateModel>,
    i: int,
)
    requires
        cfg.body_type == BodyType::Static,
        engine_trace_ok(cfg, coll, floor_top, states),
        0 <= i < states.len(),
    ensures
        states[i] == states[0],
    decreases i,
{
    if i > 0 {
        lemma_static_constant_upto(cfg, coll, floor_top, states, i - 1);
        assert(step_ok(cfg, coll, floor_top, states[i - 1], states[i]));
    }
}

} // verus!
