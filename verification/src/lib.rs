//! The simulation core of a two-player Pong game.
//!
//! All lengths are whole numbers of *steps*, sixty to a length unit, and the
//! simulation advances in ticks, sixty to a second. A speed of `v` units per
//! second therefore moves a body exactly `v` steps in one tick, and every
//! quantity of the game is an exact integer.

pub mod arena;
pub mod geometry;
pub mod input;
pub mod entity;
pub mod score;
pub mod world;
pub mod laws;
pub mod play;
