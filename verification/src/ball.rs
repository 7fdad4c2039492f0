//! The moving ball: per-tick advance, paddle collisions, ceiling/floor
//! bounces, and the reset after it leaves the court to one side.

use vstd::prelude::*;

use crate::geometry::BALL_HALF_HEIGHT;
use crate::geometry::BALL_HALF_WIDTH;
use crate::geometry::BALL_SERVE_MAX_SPEED_Y;
use crate::geometry::BALL_SERVE_SPEED_X;
use crate::geometry::COURT_EDGE;
use crate::geometry::DIR_LIMIT;
use crate::geometry::PADDLE_HALF_HEIGHT;
use crate::geometry::PADDLE_HALF_WIDTH;
use crate::geometry::POS_LIMIT;
use crate::geometry::REFLECT_SPEEDUP;
use crate::geometry::Vec2;
use crate::geometry::Vertex;
use crate::geometry::ball_shape;
use crate::geometry::get_ball;
use crate::opponent::Opponent;
use crate::player::Player;
use crate::rng::coin_flip;
use crate::rng::random_in_range;

verus! {

/// The ball: a position, a per-tick displacement (its direction; the
/// magnitude is the speed), and an immutable rectangular footprint.
pub struct Ball {
    pub position: Vec2,
    pub direction: Vec2,
    pub shape: Vec<Vertex>,
}

/// The horizontal direction component after a paddle bounce: the magnitude
/// grows by `REFLECT_SPEEDUP`, then the sign flips, so the ball leaves toward
/// the other side faster than it came.
pub open spec fn reflect_x(dx: int) -> int {
    if dx < 0 {
        -(dx - REFLECT_SPEEDUP)
    } else {
        -(dx + REFLECT_SPEEDUP)
    }
}

/// The vertical direction component after a paddle bounce: the magnitude
/// grows by `REFLECT_SPEEDUP` and the sign stays, so vertical drift speeds up
/// on every bounce without bound.
pub open spec fn reflect_y(dy: int) -> int {
    if dy < 0 {
        dy - REFLECT_SPEEDUP
    } else {
        dy + REFLECT_SPEEDUP
    }
}

/// Whether a paddle centred at `paddle_y` and a ball centred at `ball_y`
/// overlap vertically: the paddle's bottom edge is strictly below the ball's
/// top edge and its top edge strictly above the ball's bottom edge.
pub open spec fn y_ranges_overlap(paddle_y: int, ball_y: int) -> bool {
    &&& paddle_y + PADDLE_HALF_HEIGHT > ball_y - BALL_HALF_HEIGHT
    &&& paddle_y - PADDLE_HALF_HEIGHT < ball_y + BALL_HALF_HEIGHT
}

/// The player-side collision test on a ball centred at `(bx, by)`: the
/// player's right edge is strictly past the ball's left edge and the vertical
/// ranges overlap.
pub open spec fn player_hit(player_pos: Vec2, bx: int, by: int) -> bool {
    &&& player_pos.x + PADDLE_HALF_WIDTH > bx - BALL_HALF_WIDTH
    &&& y_ranges_overlap(player_pos.y as int, by)
}

/// The opponent-side collision test on a ball centred at `(bx, by)`: the
/// opponent's horizontal span touches the ball's (both comparisons are
/// non-strict) and the vertical ranges overlap.
pub open spec fn opponent_hit(opponent_pos: Vec2, bx: int, by: int) -> bool {
    &&& opponent_pos.x - PADDLE_HALF_WIDTH <= bx + BALL_HALF_WIDTH
    &&& opponent_pos.x + PADDLE_HALF_WIDTH >= bx - BALL_HALF_WIDTH
    &&& y_ranges_overlap(opponent_pos.y as int, by)
}

/// Where the ball's centre lands this tick, horizontally.
pub open spec fn tick_pos_x(b: Ball) -> int {
    b.position.x + b.direction.x
}

/// Where the ball's centre lands this tick, vertically.
pub open spec fn tick_pos_y(b: Ball) -> int {
    b.position.y + b.direction.y
}

/// Whether the moved ball collides with the player this tick.
pub open spec fn tick_hits_player(b: Ball, player: Player) -> bool {
    player_hit(player.position, tick_pos_x(b), tick_pos_y(b))
}

/// Whether the moved ball collides with the opponent this tick.
pub open spec fn tick_hits_opponent(b: Ball, opponent: Opponent) -> bool {
    opponent_hit(opponent.position, tick_pos_x(b), tick_pos_y(b))
}

/// The horizontal direction after this tick's paddle collisions: the player's
/// bounce is applied first, the opponent's after it. The ceiling/floor bounce
/// never touches this component.
pub open spec fn tick_dir_x(b: Ball, player: Player, opponent: Opponent) -> int {
    let after_player = if tick_hits_player(b, player) {
        reflect_x(b.direction.x as int)
    } else {
        b.direction.x as int
    };
    if tick_hits_opponent(b, opponent) {
        reflect_x(after_player)
    } else {
        after_player
    }
}

/// The vertical direction after this tick's paddle collisions, before the
/// ceiling/floor bounce.
pub open spec fn tick_dir_y_pre_bounce(b: Ball, player: Player, opponent: Opponent) -> int {
    let after_player = if tick_hits_player(b, player) {
        reflect_y(b.direction.y as int)
    } else {
        b.direction.y as int
    };
    if tick_hits_opponent(b, opponent) {
        reflect_y(after_player)
    } else {
        after_player
    }
}

/// Whether the moved ball's top or bottom edge is at or past the court's top
/// or bottom edge this tick, which flips the vertical direction. The ball is
/// not moved back inside, so it may keep flipping across ticks while it
/// lingers at the edge.
pub open spec fn tick_bounces(b: Ball) -> bool {
    ||| tick_pos_y(b) - BALL_HALF_HEIGHT <= -COURT_EDGE
    ||| tick_pos_y(b) + BALL_HALF_HEIGHT >= COURT_EDGE
}

/// The vertical direction at the end of this tick.
pub open spec fn tick_dir_y(b: Ball, player: Player, opponent: Opponent) -> int {
    if tick_bounces(b) {
        -tick_dir_y_pre_bounce(b, player, opponent)
    } else {
        tick_dir_y_pre_bounce(b, player, opponent)
    }
}

/// Whether the moved ball's left or right edge is at or past the court's left
/// or right edge this tick, which scores a point for one side and resets the
/// ball.
pub open spec fn tick_resets(b: Ball) -> bool {
    ||| tick_pos_x(b) - BALL_HALF_WIDTH <= -COURT_EDGE
    ||| tick_pos_x(b) + BALL_HALF_WIDTH >= COURT_EDGE
}

impl Ball {
    /// The ball's footprint is the fixed one. Established at construction and
    /// preserved by every update, reset included.
    pub open spec fn wf(self) -> bool {
        ball_shape(self.shape@)
    }

    /// A machine limit, far beyond any reachable game state: with the
    /// position and direction under these bounds, every sum in one tick fits
    /// in an `i64`.
    pub open spec fn in_range(self) -> bool {
        &&& -POS_LIMIT <= self.position.x <= POS_LIMIT
        &&& -POS_LIMIT <= self.position.y <= POS_LIMIT
        &&& -DIR_LIMIT <= self.direction.x <= DIR_LIMIT
        &&& -DIR_LIMIT <= self.direction.y <= DIR_LIMIT
    }

    /// A ball served from the centre of the court with the given vertical
    /// speed, toward the player's side when `toward_player` holds. This is
    /// the deterministic part of a reset: `new` draws the two arguments at
    /// random, and a test may pass any values it likes.
    pub fn serve(toward_player: bool, vertical: i64) -> (r: Self)
        requires
            -BALL_SERVE_MAX_SPEED_Y <= vertical <= BALL_SERVE_MAX_SPEED_Y,
        ensures
            r.wf(),
            r.in_range(),
            r.position.x == 0 && r.position.y == 0,
            r.direction.x == if toward_player {
                -BALL_SERVE_SPEED_X as int
            } else {
                BALL_SERVE_SPEED_X as int
            },
            r.direction.y == vertical,
    {
        let dx: i64 = if toward_player {
            -BALL_SERVE_SPEED_X
        } else {
            BALL_SERVE_SPEED_X
        };
        Ball {
            position: Vec2 { x: 0, y: 0 },
            direction: Vec2 { x: dx, y: vertical },
            shape: get_ball(),
        }
    }

    /// A freshly served ball: centred, moving toward a side chosen by a fair
    /// coin flip at the fixed serve speed, with a vertical speed drawn
    /// uniformly from the serve range. The draws are the core's only
    /// randomness, so no more than their ranges is promised.
    pub fn new() -> (r: Self)
        ensures
            r.wf(),
            r.in_range(),
            r.position.x == 0 && r.position.y == 0,
            r.direction.x == BALL_SERVE_SPEED_X || r.direction.x == -BALL_SERVE_SPEED_X,
            -BALL_SERVE_MAX_SPEED_Y <= r.direction.y < BALL_SERVE_MAX_SPEED_Y,
    {
        let toward_player: bool = coin_flip();
        let vertical: i64 = random_in_range(-BALL_SERVE_MAX_SPEED_Y, BALL_SERVE_MAX_SPEED_Y);
        Ball::serve(toward_player, vertical)
    }

    /// The collision response to a paddle hit: the horizontal component gains
    /// `REFLECT_SPEEDUP` in magnitude and flips sign; the vertical component
    /// gains `REFLECT_SPEEDUP` in magnitude and keeps its sign. The position
    /// and footprint stay put.
    pub fn reflect(&mut self)
        requires
            -2 * DIR_LIMIT <= old(self).direction.x <= 2 * DIR_LIMIT,
            -2 * DIR_LIMIT <= old(self).direction.y <= 2 * DIR_LIMIT,
        ensures
            final(self).direction.x == reflect_x(old(self).direction.x as int),
            final(self).direction.y == reflect_y(old(self).direction.y as int),
            final(self).position == old(self).position,
            final(self).shape@ == old(self).shape@,
    {
        if self.direction.x < 0 {
            self.direction.x = self.direction.x - REFLECT_SPEEDUP;
        } else {
            self.direction.x = self.direction.x + REFLECT_SPEEDUP;
        }
        self.direction.x = -self.direction.x;
        if self.direction.y < 0 {
            self.direction.y = self.direction.y - REFLECT_SPEEDUP;
        } else {
            self.direction.y = self.direction.y + REFLECT_SPEEDUP;
        }
    }

    /// One tick of ball movement. The ball advances by its direction; the
    /// collision tests then read the moved position. A player hit and an
    /// opponent hit each reflect the direction; reaching the top or bottom
    /// court edge flips the vertical direction; and leaving the court to the
    /// left or right replaces the ball with a freshly served one, discarding
    /// whatever the earlier steps did to the direction.
    ///
    /// The paddles must have been updated for this tick already: this check
    /// reads their current positions, and calling it first hands it stale
    /// ones.
    pub fn update_position(&mut self, player: &Player, opponent: &Opponent)
        requires
            old(self).wf(),
            old(self).in_range(),
            player.wf(),
            opponent.wf(),
        ensures
            final(self).wf(),
            tick_resets(*old(self)) ==> final(self).position.x == 0,
            tick_resets(*old(self)) ==> final(self).position.y == 0,
            tick_resets(*old(self)) ==> final(self).direction.x == BALL_SERVE_SPEED_X
                || final(self).direction.x == -BALL_SERVE_SPEED_X,
            tick_resets(*old(self)) ==> -BALL_SERVE_MAX_SPEED_Y <= final(self).direction.y
                < BALL_SERVE_MAX_SPEED_Y,
            !tick_resets(*old(self)) ==> final(self).position.x == tick_pos_x(*old(self)),
            !tick_resets(*old(self)) ==> final(self).position.y == tick_pos_y(*old(self)),
            !tick_resets(*old(self)) ==> final(self).direction.x == tick_dir_x(
                *old(self),
                *player,
                *opponent,
            ),
            !tick_resets(*old(self)) ==> final(self).direction.y == tick_dir_y(
                *old(self),
                *player,
                *opponent,
            ),
            !tick_resets(*old(self)) ==> final(self).shape@ == old(self).shape@,
    {
        self.position.x = self.position.x + self.direction.x;
        self.position.y = self.position.y + self.direction.y;

        let ball_left: i64 = self.position.x - BALL_HALF_WIDTH;
        let ball_right: i64 = self.position.x + BALL_HALF_WIDTH;
        let ball_top: i64 = self.position.y - BALL_HALF_HEIGHT;
        let ball_bottom: i64 = self.position.y + BALL_HALF_HEIGHT;

        // collision with the player
        let player_right: i64 = player.position.x + PADDLE_HALF_WIDTH;
        let player_bottom: i64 = player.position.y + PADDLE_HALF_HEIGHT;
        let player_top: i64 = player.position.y - PADDLE_HALF_HEIGHT;
        if player_right > ball_left {
            if player_bottom > ball_top && player_top < ball_bottom {
                self.reflect();
            }
        }

        // collision with the opponent
        let opponent_left: i64 = opponent.position.x - PADDLE_HALF_WIDTH;
        let opponent_right: i64 = opponent.position.x + PADDLE_HALF_WIDTH;
        let opponent_bottom: i64 = opponent.position.y + PADDLE_HALF_HEIGHT;
        let opponent_top: i64 = opponent.position.y - PADDLE_HALF_HEIGHT;
        if opponent_left <= ball_right && opponent_right >= ball_left {
            if opponent_bottom > ball_top && opponent_top < ball_bottom {
                self.reflect();
            }
        }

        // collision with the ceiling or the floor
        if ball_top <= -COURT_EDGE || ball_bottom >= COURT_EDGE {
            self.direction.y = -self.direction.y;
        }

        // out to the left or the right: a point is scored and the ball resets
        if ball_left <= -COURT_EDGE || ball_right >= COURT_EDGE {
            let fresh: Ball = Ball::new();
            self.direction = fresh.direction;
            self.position = fresh.position;
            self.shape = fresh.shape;
        }
    }
}

} // verus!
