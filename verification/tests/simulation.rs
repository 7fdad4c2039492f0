use pong_core::ball::Ball;
use pong_core::geometry::get_ball;
use pong_core::geometry::get_player;
use pong_core::geometry::BALL_SERVE_MAX_SPEED_Y;
use pong_core::opponent::Opponent;
use pong_core::player::Player;

#[test]
fn player_starts_at_left_centre() {
    let p = Player::new();
    assert_eq!(p.position.x, -9_500_000);
    assert_eq!(p.position.y, 0);
}

#[test]
fn opponent_starts_at_right_centre() {
    let o = Opponent::new();
    assert_eq!(o.position.x, 9_500_000);
    assert_eq!(o.position.y, 0);
}

#[test]
fn paddle_footprint_vertices() {
    let s = get_player();
    assert_eq!(s.len(), 6);
    assert_eq!((s[0].x, s[0].y), (-100_000, -2_000_000));
    assert_eq!((s[1].x, s[1].y), (-100_000, 2_000_000));
    assert_eq!((s[2].x, s[2].y), (100_000, -2_000_000));
    assert_eq!((s[3].x, s[3].y), (-100_000, 2_000_000));
    assert_eq!((s[4].x, s[4].y), (100_000, -2_000_000));
    assert_eq!((s[5].x, s[5].y), (100_000, 2_000_000));
}

#[test]
fn ball_footprint_vertices() {
    let s = get_ball();
    assert_eq!(s.len(), 6);
    assert_eq!((s[0].x, s[0].y), (-84_375, -150_000));
    assert_eq!((s[1].x, s[1].y), (-84_375, 150_000));
    assert_eq!((s[2].x, s[2].y), (84_375, -150_000));
    assert_eq!((s[3].x, s[3].y), (-84_375, 150_000));
    assert_eq!((s[4].x, s[4].y), (84_375, -150_000));
    assert_eq!((s[5].x, s[5].y), (84_375, 150_000));
}

#[test]
fn player_input_combinations() {
    let mut p = Player::new();
    p.update_position(false, false);
    assert_eq!(p.position.y, 0);
    p.update_position(true, false);
    assert_eq!(p.position.y, -100_000);
    p.update_position(false, true);
    assert_eq!(p.position.y, 0);
    p.update_position(true, true);
    assert_eq!(p.position.y, 0);
    assert_eq!(p.position.x, -9_500_000);
}

#[test]
fn player_clamped_at_top_edge() {
    let mut p = Player::new();
    // top edge exactly at the top court edge: -8_000_000 - 2_000_000 == -10_000_000
    p.position.y = -8_000_000;
    p.update_position(true, false);
    assert_eq!(p.position.y, -8_000_000);
    // the clamp does not pull an out-of-bounds paddle back in
    p.position.y = -8_500_000;
    p.update_position(true, false);
    assert_eq!(p.position.y, -8_500_000);
    // moving away from the edge is still allowed
    p.update_position(false, true);
    assert_eq!(p.position.y, -8_400_000);
}

#[test]
fn player_clamped_at_bottom_edge() {
    let mut p = Player::new();
    p.position.y = 8_000_000;
    p.update_position(false, true);
    assert_eq!(p.position.y, 8_000_000);
    p.update_position(true, false);
    assert_eq!(p.position.y, 7_900_000);
}

#[test]
fn player_one_step_short_of_the_edge_still_moves() {
    let mut p = Player::new();
    p.position.y = -7_990_000;
    p.update_position(true, false);
    assert_eq!(p.position.y, -8_090_000);
}

#[test]
fn opponent_holds_when_level_with_ball() {
    let mut o = Opponent::new();
    let b = Ball::serve(false, 0);
    assert_eq!(o.position.y, b.position.y);
    o.update_position(&b);
    assert_eq!(o.position.y, 0);
}

#[test]
fn opponent_tracks_the_ball() {
    let mut o = Opponent::new();
    let mut b = Ball::serve(false, 0);
    b.position.y = 500_000;
    o.update_position(&b);
    assert_eq!(o.position.y, 100_000);
    b.position.y = -500_000;
    o.update_position(&b);
    assert_eq!(o.position.y, 0);
    o.update_position(&b);
    assert_eq!(o.position.y, -100_000);
}

#[test]
fn opponent_clamped_at_bottom_edge() {
    let mut o = Opponent::new();
    o.position.y = 8_000_000;
    let mut b = Ball::serve(false, 0);
    b.position.y = 9_000_000;
    o.update_position(&b);
    assert_eq!(o.position.y, 8_000_000);
}

#[test]
fn reflect_adds_fixed_speedup_and_flips_x() {
    // (0.003, 0.005) becomes (-0.005, 0.007)
    let mut b = Ball::serve(false, 50_000);
    assert_eq!((b.direction.x, b.direction.y), (30_000, 50_000));
    b.reflect();
    assert_eq!((b.direction.x, b.direction.y), (-50_000, 70_000));
    // (-0.003, -0.005) becomes (0.005, -0.007)
    let mut c = Ball::serve(true, -50_000);
    assert_eq!((c.direction.x, c.direction.y), (-30_000, -50_000));
    c.reflect();
    assert_eq!((c.direction.x, c.direction.y), (50_000, -70_000));
}

#[test]
fn reflect_treats_zero_vertical_speed_as_non_negative() {
    // a flat ball gains downward-positive drift: 0 takes the non-negative branch
    let mut b = Ball::serve(false, 0);
    b.reflect();
    assert_eq!((b.direction.x, b.direction.y), (-50_000, 20_000));
}

#[test]
fn serve_is_deterministic_given_its_arguments() {
    let b = Ball::serve(true, 42);
    assert_eq!((b.position.x, b.position.y), (0, 0));
    assert_eq!((b.direction.x, b.direction.y), (-30_000, 42));
    let c = Ball::serve(false, -42);
    assert_eq!((c.direction.x, c.direction.y), (30_000, -42));
}

#[test]
fn new_ball_is_centred_with_serve_speeds() {
    for _ in 0..64 {
        let b = Ball::new();
        assert_eq!((b.position.x, b.position.y), (0, 0));
        assert!(b.direction.x == 30_000 || b.direction.x == -30_000);
        assert!(-BALL_SERVE_MAX_SPEED_Y <= b.direction.y);
        assert!(b.direction.y < BALL_SERVE_MAX_SPEED_Y);
    }
}

#[test]
fn ball_advances_by_its_direction() {
    let p = Player::new();
    let o = Opponent::new();
    let mut b = Ball::serve(false, 40_000);
    b.update_position(&p, &o);
    assert_eq!((b.position.x, b.position.y), (30_000, 40_000));
    assert_eq!((b.direction.x, b.direction.y), (30_000, 40_000));
}

#[test]
fn ceiling_bounce_flips_vertical_direction_only() {
    let p = Player::new();
    let o = Opponent::new();
    let mut b = Ball::serve(false, -60_000);
    b.position.y = -9_800_000;
    b.update_position(&p, &o);
    // moved to -9_860_000; its top edge -10_010_000 is past the court edge
    assert_eq!((b.position.x, b.position.y), (30_000, -9_860_000));
    assert_eq!((b.direction.x, b.direction.y), (30_000, 60_000));
}

#[test]
fn ceiling_bounce_triggers_exactly_at_the_edge() {
    let p = Player::new();
    let o = Opponent::new();
    // moved top edge lands exactly on the court edge: flips
    let mut b = Ball::serve(false, -50_000);
    b.position.y = -9_800_000;
    b.update_position(&p, &o);
    assert_eq!(b.position.y, -9_850_000);
    assert_eq!(b.direction.y, 50_000);
    // one unit short of the edge: no flip
    let mut c = Ball::serve(false, -49_999);
    c.position.y = -9_800_000;
    c.update_position(&p, &o);
    assert_eq!(c.position.y, -9_849_999);
    assert_eq!(c.direction.y, -49_999);
}

#[test]
fn floor_bounce_flips_vertical_direction() {
    let p = Player::new();
    let o = Opponent::new();
    let mut b = Ball::serve(false, 60_000);
    b.position.y = 9_800_000;
    b.update_position(&p, &o);
    assert_eq!(b.position.y, 9_860_000);
    assert_eq!(b.direction.y, -60_000);
}

#[test]
fn ball_hits_opponent_and_reflects() {
    let p = Player::new();
    let o = Opponent::new();
    let mut b = Ball::serve(false, 0);
    b.position.x = 9_300_000;
    b.update_position(&p, &o);
    // moved to 9_330_000: its right edge 9_414_375 reaches the opponent's
    // left edge 9_400_000 and the vertical ranges overlap
    assert_eq!((b.position.x, b.position.y), (9_330_000, 0));
    assert_eq!((b.direction.x, b.direction.y), (-50_000, 20_000));
}

#[test]
fn ball_hits_player_and_reflects() {
    let p = Player::new();
    let o = Opponent::new();
    let mut b = Ball::serve(true, 0);
    b.position.x = -9_330_000;
    b.update_position(&p, &o);
    // moved to -9_360_000: its left edge -9_444_375 is behind the player's
    // right edge -9_400_000 and the vertical ranges overlap
    assert_eq!((b.position.x, b.position.y), (-9_360_000, 0));
    assert_eq!((b.direction.x, b.direction.y), (50_000, 20_000));
}

#[test]
fn player_collision_inequality_is_strict() {
    let o = Opponent::new();
    let p = Player::new();
    // the moved left edge lands exactly on the player's right edge: the
    // strict comparison sees no hit
    let mut b = Ball::serve(true, 0);
    b.position.x = -9_285_625;
    b.update_position(&p, &o);
    assert_eq!(b.position.x, -9_315_625);
    assert_eq!((b.direction.x, b.direction.y), (-30_000, 0));
    // one unit further and the hit registers
    let mut c = Ball::serve(true, 0);
    c.position.x = -9_285_626;
    c.update_position(&p, &o);
    assert_eq!((c.direction.x, c.direction.y), (50_000, 20_000));
}

#[test]
fn paddle_above_or_below_the_ball_is_missed() {
    let p = Player::new();
    let mut o = Opponent::new();
    // the opponent sits low enough that the vertical ranges do not overlap
    o.position.y = 2_200_000;
    let mut b = Ball::serve(false, 0);
    b.position.x = 9_300_000;
    b.update_position(&p, &o);
    assert_eq!((b.direction.x, b.direction.y), (30_000, 0));
    // at the strict boundary the opponent's top edge equals the ball's
    // bottom edge: still no hit
    let mut o2 = Opponent::new();
    o2.position.y = 2_150_000;
    let mut c = Ball::serve(false, 0);
    c.position.x = 9_300_000;
    c.update_position(&p, &o2);
    assert_eq!((c.direction.x, c.direction.y), (30_000, 0));
    // one unit higher and it connects
    let mut o3 = Opponent::new();
    o3.position.y = 2_149_999;
    let mut d = Ball::serve(false, 0);
    d.position.x = 9_300_000;
    d.update_position(&p, &o3);
    assert_eq!((d.direction.x, d.direction.y), (-50_000, 20_000));
}

#[test]
fn both_paddles_can_reflect_in_one_tick() {
    // artificial overlap of both paddles on a resting ball: the player's
    // reflect applies first, the opponent's on top of it
    let mut p = Player::new();
    p.position.x = 0;
    let mut o = Opponent::new();
    o.position.x = 0;
    let mut b = Ball::serve(false, 0);
    b.direction.x = 0;
    b.update_position(&p, &o);
    assert_eq!((b.direction.x, b.direction.y), (40_000, 40_000));
}

#[test]
fn ball_crosses_the_right_edge_and_resets() {
    let p = Player::new();
    let mut o = Opponent::new();
    // keep the opponent far below the ball's path so nothing reflects
    o.position.y = -9_000_000;
    let mut b = Ball::serve(false, 0);
    b.position.x = 9_000_000;
    b.position.y = 500_000;

    // first tick: 9_030_000, right edge 9_114_375, still inside
    b.update_position(&p, &o);
    assert_eq!((b.position.x, b.position.y), (9_030_000, 500_000));

    // 29 more ticks: 9_900_000, right edge 9_984_375, still inside
    for _ in 0..29 {
        b.update_position(&p, &o);
    }
    assert_eq!(b.position.x, 9_900_000);

    // the next tick moves the right edge past the court edge: reset
    b.update_position(&p, &o);
    assert_eq!((b.position.x, b.position.y), (0, 0));
    assert!(b.direction.x == 30_000 || b.direction.x == -30_000);
    assert!(-BALL_SERVE_MAX_SPEED_Y <= b.direction.y);
    assert!(b.direction.y < BALL_SERVE_MAX_SPEED_Y);
}

#[test]
fn ball_crosses_the_left_edge_and_resets() {
    let mut p = Player::new();
    // move the player out of the ball's path so nothing reflects
    p.position.y = 9_000_000;
    let o = Opponent::new();
    let mut b = Ball::serve(true, 0);
    b.position.x = -9_900_000;
    b.update_position(&p, &o);
    // moved to -9_930_000, left edge -10_014_375: reset
    assert_eq!((b.position.x, b.position.y), (0, 0));
    assert!(b.direction.x == 30_000 || b.direction.x == -30_000);
}
