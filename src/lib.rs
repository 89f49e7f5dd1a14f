//! Verified core of a small 2D platformer: the level and its bodies, the
//! player's movement rules, the held-key state, and the aim overlay.
//!
//! All quantities are in whole rendering-space pixels, with y growing
//! downwards; times are seconds and velocities pixels per second.

pub mod geometry;
pub mod input;
pub mod ray;
pub mod world;
pub mod player;
pub mod physics;
