//! The ball game: a player confined to the viewport, enemies that bounce off
//! its edges, stars to collect, and the state machines that gate each frame.
//!
//! Lengths and positions are integers in sub-pixel units, directions are
//! fixed-point unit vectors and time is counted in nanoseconds, so every
//! rule of the game is exact.

pub mod boundary;
pub mod collision;
pub mod direction;
pub mod entity;
pub mod movement;
pub mod score;
pub mod sim;
pub mod spawn;
pub mod state;
pub mod timer;
