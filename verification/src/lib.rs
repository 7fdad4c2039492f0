//! Simulation core of a two-paddle ball game.
//!
//! The court is the square `[-1, 1] x [-1, 1]` of normalized device
//! coordinates, held here in exact fixed-point form: one unit is `1e-7` of a
//! coordinate, so `COURT_EDGE` (`10_000_000`) stands for `1.0`. Every constant
//! of the game is a whole number of these units, so all of the arithmetic is
//! exact integer arithmetic.
//!
//! One simulation tick is one call of `update_position` on each entity. The
//! driver must update the `Player` and the `Opponent` before the `Ball`: the
//! ball's collision check reads the paddles' already-updated positions, and a
//! stale order silently shifts the check by one tick.

pub mod ball;
pub mod geometry;
pub mod laws;
pub mod opponent;
pub mod paddle;
pub mod player;
pub mod rng;
