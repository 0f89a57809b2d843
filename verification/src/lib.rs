//! A minimal controllable-cube scene: the per-frame control core.
//!
//! The library holds the part of the game with design substance: the
//! per-frame systems that turn held keys into velocity commands for the
//! player's rigid body, the configuration records the scene is built
//! from, and a model of what the physics engine is relied on to do each
//! tick (keep a rotation-locked body's orientation, keep a
//! continuous-collision body above the floor, leave static bodies
//! alone).
//!
//! All lengths and velocities are carried in thousandths of a world
//! unit, so that the control policy is exact integer arithmetic.
//! Windowing, rendering and the physics engine itself live outside the
//! library; a host converts at that boundary.

pub mod body;
pub mod input;
pub mod math;
pub mod player;
pub mod sim;
pub mod spawn;
pub mod systems;
