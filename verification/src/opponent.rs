//! The paddle driven by a simple tracking AI.

use vstd::prelude::*;

use crate::ball::Ball;
use crate::geometry::COURT_EDGE;
use crate::geometry::OPPONENT_START_X;
use crate::geometry::PADDLE_STEP;
use crate::geometry::Vec2;
use crate::geometry::Vertex;
use crate::geometry::get_player;
use crate::geometry::paddle_shape;
use crate::paddle::apply_paddle_movement;
use crate::paddle::clamped_movement;

verus! {

/// The movement the tracking AI asks for, before any boundary clamp: one
/// step toward the ball's centre, and none when the two are exactly level.
/// There is no deadband, so the paddle oscillates when it is within one step
/// of the ball — expected behaviour, not a defect.
pub open spec fn tracking_movement(opponent_y: int, ball_y: int) -> int {
    if opponent_y > ball_y {
        -(PADDLE_STEP as int)
    } else if opponent_y < ball_y {
        PADDLE_STEP as int
    } else {
        0
    }
}

/// The opponent paddle: a position and an immutable rectangular footprint.
pub struct Opponent {
    pub position: Vec2,
    pub shape: Vec<Vertex>,
}

impl Opponent {
    /// The paddle's footprint is the fixed one and its centre is on the
    /// court. Established at construction and preserved by every update.
    pub open spec fn wf(self) -> bool {
        &&& paddle_shape(self.shape@)
        &&& -COURT_EDGE <= self.position.x <= COURT_EDGE
        &&& -COURT_EDGE <= self.position.y <= COURT_EDGE
    }

    /// A new opponent paddle at the right of the court, vertically centred.
    pub fn new() -> (r: Self)
        ensures
            r.wf(),
            r.position.x == OPPONENT_START_X,
            r.position.y == 0,
    {
        Opponent { position: Vec2 { x: OPPONENT_START_X, y: 0 }, shape: get_player() }
    }

    /// One tick of AI movement: a step toward the ball's centre, clamped at
    /// the court edges. `x` and the footprint never change.
    pub fn update_position(&mut self, ball: &Ball)
        requires
            old(self).wf(),
        ensures
            final(self).wf(),
            final(self).position.x == old(self).position.x,
            final(self).shape@ == old(self).shape@,
            final(self).position.y == old(self).position.y + clamped_movement(
                old(self).position.y as int,
                tracking_movement(old(self).position.y as int, ball.position.y as int),
            ),
    {
        let mut movement: i64 = 0;
        if self.position.y > ball.position.y {
            movement = movement - PADDLE_STEP;
        } else if self.position.y < ball.position.y {
            movement = movement + PADDLE_STEP;
        }
        self.position.y = apply_paddle_movement(self.position.y, movement);
    }
}

} // verus!
