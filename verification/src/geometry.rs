//! Fixed-point coordinates, the game's constants, and the entity footprints.

use vstd::prelude::*;

verus! {

/// One normalized device coordinate (`1.0`) in fixed-point units.
pub const COURT_EDGE: i64 = 10_000_000;

/// How far a paddle moves in one tick (`0.01`).
pub const PADDLE_STEP: i64 = 100_000;

/// Half the width of a paddle (`0.01`).
pub const PADDLE_HALF_WIDTH: i64 = 100_000;

/// Half the height of a paddle (`0.2`).
pub const PADDLE_HALF_HEIGHT: i64 = 2_000_000;

/// Half the width of the ball (`0.0084375`). The width is narrower than the
/// height so that the ball renders square on a 16:9 display; the collision
/// geometry uses the same footprint.
pub const BALL_HALF_WIDTH: i64 = 84_375;

/// Half the height of the ball (`0.015`).
pub const BALL_HALF_HEIGHT: i64 = 150_000;

/// The horizontal speed of a freshly served ball (`0.003`).
pub const BALL_SERVE_SPEED_X: i64 = 30_000;

/// The bound on the vertical speed of a freshly served ball (`0.01`).
pub const BALL_SERVE_MAX_SPEED_Y: i64 = 100_000;

/// How much a paddle bounce adds to the magnitude of each direction
/// component (`0.002`).
pub const REFLECT_SPEEDUP: i64 = 20_000;

/// Where the player paddle starts (`-0.95`).
pub const PLAYER_START_X: i64 = -9_500_000;

/// Where the opponent paddle starts (`0.95`).
pub const OPPONENT_START_X: i64 = 9_500_000;

/// A machine limit on ball positions, far beyond any reachable game state:
/// with positions and directions under these limits every sum in a tick fits
/// in an `i64`.
pub const POS_LIMIT: i64 = 2_000_000_000_000;

/// A machine limit on ball directions; see `POS_LIMIT`.
pub const DIR_LIMIT: i64 = 1_000_000_000_000;

/// A 2D point or displacement in fixed-point units.
#[derive(Clone, Copy, PartialEq, Eq, Structural, Debug)]
pub struct Vec2 {
    pub x: i64,
    pub y: i64,
}

/// One corner offset of an entity's footprint, relative to its position.
#[derive(Clone, Copy, PartialEq, Eq, Structural, Debug)]
pub struct Vertex {
    pub x: i64,
    pub y: i64,
}

/// The fixed paddle footprint: an axis-aligned rectangle given as two
/// triangles. Vertex 0 is the top-left corner (the court's top is `y == -1`),
/// vertex 1 the bottom-left, vertex 2 the top-right: the paddle's top, bottom
/// and right edges are read off these three fixed indices.
pub open spec fn paddle_shape(s: Seq<Vertex>) -> bool {
    &&& s.len() == 6
    &&& s[0].x == -PADDLE_HALF_WIDTH && s[0].y == -PADDLE_HALF_HEIGHT
    &&& s[1].x == -PADDLE_HALF_WIDTH && s[1].y == PADDLE_HALF_HEIGHT
    &&& s[2].x == PADDLE_HALF_WIDTH && s[2].y == -PADDLE_HALF_HEIGHT
    &&& s[3].x == -PADDLE_HALF_WIDTH && s[3].y == PADDLE_HALF_HEIGHT
    &&& s[4].x == PADDLE_HALF_WIDTH && s[4].y == -PADDLE_HALF_HEIGHT
    &&& s[5].x == PADDLE_HALF_WIDTH && s[5].y == PADDLE_HALF_HEIGHT
}

/// The fixed ball footprint, laid out like `paddle_shape`.
pub open spec fn ball_shape(s: Seq<Vertex>) -> bool {
    &&& s.len() == 6
    &&& s[0].x == -BALL_HALF_WIDTH && s[0].y == -BALL_HALF_HEIGHT
    &&& s[1].x == -BALL_HALF_WIDTH && s[1].y == BALL_HALF_HEIGHT
    &&& s[2].x == BALL_HALF_WIDTH && s[2].y == -BALL_HALF_HEIGHT
    &&& s[3].x == -BALL_HALF_WIDTH && s[3].y == BALL_HALF_HEIGHT
    &&& s[4].x == BALL_HALF_WIDTH && s[4].y == -BALL_HALF_HEIGHT
    &&& s[5].x == BALL_HALF_WIDTH && s[5].y == BALL_HALF_HEIGHT
}

/// The paddle footprint as vertex data, for a renderer.
pub fn get_player() -> (r: Vec<Vertex>)
    ensures
        paddle_shape(r@),
{
    let mut r: Vec<Vertex> = Vec::new();
    r.push(Vertex { x: -PADDLE_HALF_WIDTH, y: -PADDLE_HALF_HEIGHT });
    r.push(Vertex { x: -PADDLE_HALF_WIDTH, y: PADDLE_HALF_HEIGHT });
    r.push(Vertex { x: PADDLE_HALF_WIDTH, y: -PADDLE_HALF_HEIGHT });
    r.push(Vertex { x: -PADDLE_HALF_WIDTH, y: PADDLE_HALF_HEIGHT });
    r.push(Vertex { x: PADDLE_HALF_WIDTH, y: -PADDLE_HALF_HEIGHT });
    r.push(Vertex { x: PADDLE_HALF_WIDTH, y: PADDLE_HALF_HEIGHT });
    r
}

/// The ball footprint as vertex data, for a renderer.
pub fn get_ball() -> (r: Vec<Vertex>)
    ensures
        ball_shape(r@),
{
    let mut r: Vec<Vertex> = Vec::new();
    r.push(Vertex { x: -BALL_HALF_WIDTH, y: -BALL_HALF_HEIGHT });
    r.push(Vertex { x: -BALL_HALF_WIDTH, y: BALL_HALF_HEIGHT });
    r.push(Vertex { x: BALL_HALF_WIDTH, y: -BALL_HALF_HEIGHT });
    r.push(Vertex { x: -BALL_HALF_WIDTH, y: BALL_HALF_HEIGHT });
    r.push(Vertex { x: BALL_HALF_WIDTH, y: -BALL_HALF_HEIGHT });
    r.push(Vertex { x: BALL_HALF_WIDTH, y: BALL_HALF_HEIGHT });
    r
}

/// The magnitude of a fixed-point quantity.
pub open spec fn magnitude(v: int) -> int {
    if v < 0 {
        -v
    } else {
        v
    }
}

} // verus!
