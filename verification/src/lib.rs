//! The simulation core of a side-scrolling obstacle-avoidance game: an
//! entity falls under gravity and must pass through gaps in a stream of
//! obstacles, scoring one point per obstacle cleared. This crate holds the
//! per-frame simulation, the collision judgment and the mode state machine,
//! all verified; drawing cells and reading raw key events belong to an
//! outside driver that calls [`game::State::tick`] once per frame.

use vstd::prelude::*;

pub mod game;
pub mod obstacle;
pub mod player;
pub mod rng;

pub use game::{Key, Mode, State};
pub use obstacle::Obstacle;
pub use player::Player;

verus! {

/// Width of the visible playfield in cells.
pub const SCREEN_WIDTH: i32 = 80;

/// Height of the visible playfield in cells.
pub const SCREEN_HEIGHT: i32 = 50;

/// Sub-frame time budget: once strictly more than this many milliseconds
/// accumulate, one simulation step runs and the budget resets.
pub const FRAME_DURATION_MS: i32 = 50;

} // verus!
