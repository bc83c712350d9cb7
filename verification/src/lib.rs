//! A ball-and-paddle arena simulated on a lattice.
//!
//! The crate holds the per-tick rules of the game: paddle steering, position
//! integration, box collision and the reflection of the ball. Drawing,
//! windowing and key sampling are left to the caller, who hands in key
//! states and the window's size and reads positions back.
//!
//! Every position, size and velocity is a whole number of lattice steps,
//! and one step is half a unit of length. With that, the places that depend
//! on half of a window's size are exact for every whole size, and each rule
//! is stated and proved over the integers. The constants below and the
//! window's size are in units.

use vstd::prelude::*;

pub mod collision;
pub mod entity;
pub mod laws;
pub mod rules;
pub mod vector;
pub mod world;

verus! {

/// Lattice steps in one unit of length.
pub const STEPS: i64 = 2;

/// Side length of the square ball.
pub const BALL_WIDTH: i64 = 10;

/// Factor by which the ball's velocity is scaled in one tick.
pub const BALL_SPEED: i64 = 5;

/// Speed that a pressed key gives the player's paddle, and the factor by
/// which a paddle's velocity is scaled in one tick.
pub const PADDLE_SPEED: i64 = 1;

/// Width of a paddle.
pub const PADDLE_WIDTH: i64 = 10;

/// Height of a paddle.
pub const PADDLE_HEIGHT: i64 = 50;

/// Thickness of the gutters at the top and the bottom of the arena.
pub const GUTTER_HEIGHT: i64 = 20;

/// Distance of each paddle's centre from its side of the arena.
pub const PADDLE_INSET: i64 = 50;

} // verus!
