//! A fixed-point character controller for a small 2D platformer: gravity and
//! ground contact, horizontal movement, multi-jump, position integration and
//! the walk animation cycle, each with a machine-checked contract.

pub mod fixed;
pub mod geometry;
pub mod input;
pub mod player;
pub mod systems;
pub mod timer;
pub mod trajectory;
pub mod walk;
pub mod world;
