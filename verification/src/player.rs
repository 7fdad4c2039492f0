//! The paddle driven by the user's input flags.

use vstd::prelude::*;

use crate::geometry::COURT_EDGE;
use crate::geometry::PADDLE_STEP;
use crate::geometry::PLAYER_START_X;
use crate::geometry::Vec2;
use crate::geometry::Vertex;
use crate::geometry::get_player;
use crate::geometry::paddle_shape;
use crate::paddle::apply_paddle_movement;
use crate::paddle::clamped_movement;

verus! {

/// The movement one tick of input asks for, before any boundary clamp:
/// `clicked_up` pulls the paddle up (negative `y`), `clicked_down` pushes it
/// down, and both at once cancel out.
pub open spec fn requested_movement(clicked_up: bool, clicked_down: bool) -> int {
    (if clicked_up {
        -(PADDLE_STEP as int)
    } else {
        0
    }) + (if clicked_down {
        PADDLE_STEP as int
    } else {
        0
    })
}

/// The player paddle: a position and an immutable rectangular footprint.
pub struct Player {
    pub position: Vec2,
    pub shape: Vec<Vertex>,
}

impl Player {
    /// The paddle's footprint is the fixed one and its centre is on the
    /// court. Established at construction and preserved by every update.
    pub open spec fn wf(self) -> bool {
        &&& paddle_shape(self.shape@)
        &&& -COURT_EDGE <= self.position.x <= COURT_EDGE
        &&& -COURT_EDGE <= self.position.y <= COURT_EDGE
    }

    /// A new player paddle at the left of the court, vertically centred.
    pub fn new() -> (r: Self)
        ensures
            r.wf(),
            r.position.x == PLAYER_START_X,
            r.position.y == 0,
    {
        Player { position: Vec2 { x: PLAYER_START_X, y: 0 }, shape: get_player() }
    }

    /// One tick of player movement: the input flags ask for a step, the court
    /// edges clamp it, and the paddle's `y` moves by the rest. `x` and the
    /// footprint never change.
    pub fn update_position(&mut self, clicked_up: bool, clicked_down: bool)
        requires
            old(self).wf(),
        ensures
            final(self).wf(),
            final(self).position.x == old(self).position.x,
            final(self).shape@ == old(self).shape@,
            final(self).position.y == old(self).position.y + clamped_movement(
                old(self).position.y as int,
                requested_movement(clicked_up, clicked_down),
            ),
    {
        let mut movement: i64 = 0;
        if clicked_up {
            movement = movement - PADDLE_STEP;
        }
        if clicked_down {
            movement = movement + PADDLE_STEP;
        }
        self.position.y = apply_paddle_movement(self.position.y, movement);
    }
}

} // verus!
