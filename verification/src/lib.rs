//! Simulation core of a side-scrolling reflex game: a player avatar falls
//! under gravity and must pass through gaps in procedurally generated
//! obstacles while collecting bonus items, accumulating a score until a
//! collision or boundary violation ends the run.
//!
//! The library holds the whole game model — physics, obstacle and powerup
//! generation, collision and scoring rules, and the mode state machine —
//! and proves its contracts. Rendering and input live outside: each tick
//! the shell hands in an optional key and the elapsed time, and receives
//! a list of draw commands back.
use vstd::prelude::*;

pub mod draw;
pub mod obstacle;
pub mod player;
pub mod powerup;
pub mod random;
pub mod state;

verus! {

/// Width of the playfield in cells; new obstacles and powerups spawn this
/// far ahead of the player.
pub const SCREEN_WIDTH: i32 = 80;

/// Height of the playfield in cells; a player below this line (larger `y`)
/// has fallen off screen.
pub const SCREEN_HEIGHT: i32 = 50;

/// Length of one physics step in time units: the accumulator must exceed
/// this before gravity and movement are integrated once.
pub const FRAME_DURATION: u32 = 75;

/// Horizontal screen cell at which the player is drawn; also the trailing
/// margin behind the player beyond which powerups are pruned.
pub const PLAYER_OFFSET: i32 = 10;

} // verus!
