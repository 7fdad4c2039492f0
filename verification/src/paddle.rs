//! The vertical movement shared by both paddles: a per-tick step, clamped at
//! the top and bottom court edges.

use vstd::prelude::*;

use crate::geometry::COURT_EDGE;
use crate::geometry::PADDLE_HALF_HEIGHT;
use crate::geometry::PADDLE_STEP;

verus! {

/// The movement a paddle at centre `y` actually makes when asked to move by
/// `movement`: the request is zeroed when the paddle's top edge is at or past
/// the top court edge and the request points up, or its bottom edge is at or
/// past the bottom court edge and the request points down. The clamp only
/// stops further movement off-screen; it never pulls a paddle back in.
pub open spec fn clamped_movement(y: int, movement: int) -> int {
    if y - PADDLE_HALF_HEIGHT <= -COURT_EDGE && movement < 0 {
        0
    } else if y + PADDLE_HALF_HEIGHT >= COURT_EDGE && movement > 0 {
        0
    } else {
        movement
    }
}

/// Applies one clamped vertical step to a paddle centre and returns the new
/// centre. Both paddles move through this one function.
pub(crate) fn apply_paddle_movement(y: i64, movement: i64) -> (r: i64)
    requires
        -COURT_EDGE <= y <= COURT_EDGE,
        -PADDLE_STEP <= movement <= PADDLE_STEP,
    ensures
        r == y + clamped_movement(y as int, movement as int),
        -COURT_EDGE <= r <= COURT_EDGE,
{
    let mut m: i64 = movement;
    let top_edge: i64 = y - PADDLE_HALF_HEIGHT;
    let bottom_edge: i64 = y + PADDLE_HALF_HEIGHT;
    if top_edge <= -COURT_EDGE && m < 0 {
        m = 0;
    } else if bottom_edge >= COURT_EDGE && m > 0 {
        m = 0;
    }
    y + m
}

} // verus!
