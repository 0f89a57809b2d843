//! The player's movement and jump attributes.
//!
//! Both records are attached to the player entity at bootstrap and are
//! immutable afterwards.

use vstd::prelude::*;

verus! {

/// Movement attributes: the horizontal/depth speed commanded while a
/// directional key is held, in milli-units per second.
#[derive(Clone, Copy, Debug, PartialEq, Eq, Structural)]
pub struct Player {
    pub speed: i64,
}

impl Player {
    /// A speed is a magnitude: it is never negative.
    pub open spec fn wf(self) -> bool {
        0 <= self.speed
    }
}

/// Jump attributes: the vertical velocity forced while the jump key is
/// held, in milli-units per second.
#[derive(Clone, Copy, Debug, PartialEq, Eq, Structural)]
pub struct Jumper {
    pub jump_impulse: i64,
}

} // verus!
