//! The per-frame input snapshot.
//!
//! A read-only record of which keys are held this frame. The window
//! layer fills one in each frame; the systems only read it. An absent
//! key is "no command", never a fault.

use vstd::prelude::*;

verus! {

/// Which keys are held during one frame.
///
/// `left`/`right` command the horizontal axis (negative/positive),
/// `up`/`down` command the depth axis (negative/positive), and `jump`
/// commands the vertical axis.
#[derive(Clone, Copy, Debug, PartialEq, Eq, Structural)]
pub struct InputState {
    pub left: bool,
    pub right: bool,
    pub up: bool,
    pub down: bool,
    pub jump: bool,
}

impl InputState {
    /// A frame in which no key is held.
    pub fn none() -> (r: InputState)
        ensures
            !r.left,
            !r.right,
            !r.up,
            !r.down,
            !r.jump,
    {
        InputState { left: false, right: false, up: false, down: false, jump: false }
    }
}

} // verus!
