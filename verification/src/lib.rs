//! The gameplay core of a two-player Pong game: ball and paddle physics,
//! collision resolution, scoring, and the game-phase state machine.
//!
//! Everything is simulated in fixed-point integer units so that every step is
//! exact: positions and lengths are in milliunits (thousandths of a pixel),
//! durations are in milliseconds, and velocities are in milliunits per
//! millisecond (numerically equal to pixels per second).  Rendering, input
//! polling and timing belong to the frame driver around this crate.

use vstd::prelude::*;

pub mod ball;
pub mod game_state;
pub mod paddle;

verus! {

/// Largest velocity component, in milliunits per millisecond, that one frame
/// step accepts; together with `DT_LIMIT` it keeps a step's displacement well
/// inside the 64-bit range.
pub const VEL_LIMIT: i64 = 1_000_000_000;

/// Longest frame duration, in milliseconds, that one frame step accepts.
pub const DT_LIMIT: i64 = 1_000_000_000;

/// Largest coordinate magnitude, in milliunits, of a well-formed game's
/// geometry (two to the sixtieth power).
pub const COORD_LIMIT: i64 = 0x1000_0000_0000_0000;

} // verus!
