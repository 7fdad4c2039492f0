//! The general laws of the simulation, stated over the same spec functions
//! that the entities' contracts use and proved for all inputs.

use vstd::prelude::*;

use crate::ball::Ball;
use crate::ball::reflect_x;
use crate::ball::reflect_y;
use crate::ball::tick_bounces;
use crate::ball::tick_dir_x;
use crate::ball::tick_dir_y;
use crate::ball::tick_dir_y_pre_bounce;
use crate::ball::tick_hits_opponent;
use crate::ball::tick_hits_player;
use crate::ball::tick_pos_x;
use crate::ball::tick_pos_y;
use crate::ball::tick_resets;
use crate::geometry::BALL_HALF_HEIGHT;
use crate::geometry::BALL_HALF_WIDTH;
use crate::geometry::COURT_EDGE;
use crate::geometry::PADDLE_HALF_HEIGHT;
use crate::geometry::PADDLE_STEP;
use crate::geometry::REFLECT_SPEEDUP;
use crate::geometry::magnitude;
use crate::opponent::Opponent;
use crate::opponent::tracking_movement;
use crate::paddle::clamped_movement;
use crate::player::Player;
use crate::player::requested_movement;

verus! {

/// Over all four input flag pairs, the movement a tick of player input asks
/// for, before any boundary clamp, is: up alone, one step up; down alone,
/// one step down; neither or both, nothing.
pub proof fn lemma_requested_movement(clicked_up: bool, clicked_down: bool)
    ensures
        clicked_up == clicked_down ==> requested_movement(clicked_up, clicked_down) == 0,
        clicked_up && !clicked_down ==> requested_movement(clicked_up, clicked_down) == -(
        PADDLE_STEP as int),
        !clicked_up && clicked_down ==> requested_movement(clicked_up, clicked_down)
            == PADDLE_STEP as int,
{
}

/// When a paddle's top edge is at or past the top court edge, an upward
/// request moves the paddle by nothing that tick.
pub proof fn lemma_top_edge_clamp(y: int)
    requires
        y - PADDLE_HALF_HEIGHT <= -COURT_EDGE,
    ensures
        clamped_movement(y, requested_movement(true, false)) == 0,
{
}

/// The opponent never moves while its centre is exactly level with the
/// ball's.
pub proof fn lemma_opponent_holds_when_level(opponent_y: int, ball_y: int)
    requires
        opponent_y == ball_y,
    ensures
        clamped_movement(opponent_y, tracking_movement(opponent_y, ball_y)) == 0,
{
}

/// A reflect doubles neither component: it adds exactly `REFLECT_SPEEDUP` to
/// the magnitude of each, flips the sign of the horizontal component, and
/// keeps the sign of the vertical one.
pub proof fn lemma_reflect_speedup(dx: int, dy: int)
    ensures
        magnitude(reflect_x(dx)) == magnitude(dx) + REFLECT_SPEEDUP,
        dx >= 0 ==> reflect_x(dx) < 0,
        dx < 0 ==> reflect_x(dx) > 0,
        dy >= 0 ==> reflect_y(dy) == dy + REFLECT_SPEEDUP,
        dy < 0 ==> reflect_y(dy) == dy - REFLECT_SPEEDUP,
        magnitude(reflect_y(dy)) == magnitude(dy) + REFLECT_SPEEDUP,
{
}

/// The ceiling/floor bounce flips the sign of the vertical direction exactly
/// when the moved ball's top or bottom edge reaches the court's top or
/// bottom edge; it changes neither the vertical magnitude nor the horizontal
/// component.
pub proof fn lemma_ceiling_bounce(b: Ball, player: Player, opponent: Opponent)
    ensures
        tick_bounces(b) <==> (tick_pos_y(b) - BALL_HALF_HEIGHT <= -COURT_EDGE || tick_pos_y(b)
            + BALL_HALF_HEIGHT >= COURT_EDGE),
        tick_bounces(b) ==> tick_dir_y(b, player, opponent) == -tick_dir_y_pre_bounce(
            b,
            player,
            opponent,
        ),
        !tick_bounces(b) ==> tick_dir_y(b, player, opponent) == tick_dir_y_pre_bounce(
            b,
            player,
            opponent,
        ),
        magnitude(tick_dir_y(b, player, opponent)) == magnitude(
            tick_dir_y_pre_bounce(b, player, opponent),
        ),
        !tick_hits_player(b, player) && !tick_hits_opponent(b, opponent) ==> tick_dir_x(
            b,
            player,
            opponent,
        ) == b.direction.x,
{
}

/// The ball resets exactly when its moved left edge is at or past the left
/// court edge, or its moved right edge at or past the right one.
pub proof fn lemma_reset_condition(b: Ball)
    ensures
        tick_resets(b) <==> (tick_pos_x(b) - BALL_HALF_WIDTH <= -COURT_EDGE || tick_pos_x(b)
            + BALL_HALF_WIDTH >= COURT_EDGE),
{
}

} // verus!
