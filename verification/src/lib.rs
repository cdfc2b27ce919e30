//! A verified Pong simulation core.
//!
//! The library models the per-frame pipeline of a two-paddle Pong game over
//! exact integer coordinates: motion integration, paddle clamping,
//! circle-versus-box collision detection and response, boundary scoring,
//! randomized serves, score counting and scoreboard text. The host engine
//! (window, rendering, keyboard polling) stays outside; it hands the library
//! plain values and takes plain values back.

use vstd::prelude::*;

pub mod collision;
pub mod entities;
pub mod frame;
pub mod geom;
pub mod input;
pub mod motion;
pub mod scoreboard;
pub mod scoring;

verus! {

/// Largest coordinate magnitude the simulation admits. Keeping every
/// position, velocity and extent within this bound lets all the arithmetic
/// below (sums, squared distances) stay inside `i64`.
pub const COORD_LIMIT: i64 = 100_000_000;

/// A coordinate small enough for the simulation's arithmetic.
pub open spec fn in_range(v: int) -> bool {
    -(COORD_LIMIT as int) <= v <= COORD_LIMIT as int
}

} // verus!
