//! Collision predicates on a 64 by 64 field, exercising the closed-rectangle
//! overlap rule (touching edges collide) and the direction-aware border test.
//! Ball coordinates are in tenths of a field unit; the helpers take whole
//! field units, as the scenarios are stated in them.

use pong::ball::Ball;
use pong::player::Player;
use pong::RandomSource;

struct FixedRng(i32);

impl RandomSource for FixedRng {
    fn next(&mut self) -> i32 {
        self.0
    }
}

fn new_ball(x: i32, y: i32) -> Ball {
    let mut ball = Ball::with_x_spd(64, 64, 0);
    ball.x = x * 10;
    ball.y = y * 10;
    ball
}

fn new_player(x: i32, y: i32) -> Player {
    let mut player = Player::player1(64, 64);
    player.x = x;
    player.y = y;
    player
}

fn check_player_collision(bx: i32, by: i32, px: i32, py: i32, expect: bool) {
    let ball = new_ball(bx, by);
    let player = new_player(px, py);
    assert_eq!(ball.player_collision(&player), expect);
}

/// Nudges the ball vertically (a draw of 5 gives a small upward speed), then
/// checks the border test in that direction and, after a border bounce, in
/// the opposite one.
fn check_border_collision(bx: i32, by: i32, top_border: u32, bottom_border: u32, expect: bool) {
    let mut ball1 = new_ball(bx, by);
    ball1.add_rand_y_spd(&mut FixedRng(5));
    let ball1 = ball1;

    let mut ball2 = ball1;
    ball2.bounce_off_border();
    let ball2 = ball2;

    assert_eq!(
        ball1.border_collision(top_border, bottom_border)
            || ball2.border_collision(top_border, bottom_border),
        expect
    );
}

#[test]
fn player_collision_same() {
    check_player_collision(0, 0, 0, 0, true);
}

#[test]
fn player_collision_far_top() {
    check_player_collision(0, 0, 0, 50, false);
}

#[test]
fn player_collision_far_bottom() {
    check_player_collision(0, 50, 0, 0, false);
}

#[test]
fn player_collision_far_left() {
    check_player_collision(0, 0, 50, 0, false);
}

#[test]
fn player_collision_far_right() {
    check_player_collision(50, 0, 0, 0, false);
}

#[test]
fn player_collision_closed_top() {
    check_player_collision(0, 0, 0, 4, false);
}

#[test]
fn player_collision_closed_bottom() {
    check_player_collision(0, 20, 0, 0, false);
}

#[test]
fn player_collision_closed_left() {
    check_player_collision(0, 0, 4, 0, false);
}

#[test]
fn player_collision_closed_right() {
    check_player_collision(6, 0, 0, 0, false);
}

#[test]
fn player_collision_collision_top() {
    check_player_collision(0, 0, 0, 3, true);
}

#[test]
fn player_collision_collision_bottom() {
    check_player_collision(0, 19, 0, 0, true);
}

#[test]
fn player_collision_collision_left() {
    check_player_collision(0, 0, 3, 0, true);
}

#[test]
fn player_collision_collision_right() {
    check_player_collision(5, 0, 0, 0, true);
}

#[test]
fn border_collision_far() {
    check_border_collision(32, 32, 0, 64, false);
}

#[test]
fn border_collision_closed_top() {
    check_border_collision(0, 4, 0, 64, false);
}

#[test]
fn border_collision_closed_bottom() {
    check_border_collision(0, 60, 0, 64, false);
}

#[test]
fn border_collision_collision_top() {
    check_border_collision(0, 3, 0, 64, true);
}

#[test]
fn border_collision_collision_bottom() {
    check_border_collision(0, 61, 0, 64, true);
}

/// A ball on the top border only collides while it moves toward it.
#[test]
fn border_collision_is_directional() {
    let mut ball = new_ball(10, 3);
    // A draw of 5 turns into a small upward (negative) vertical speed.
    ball.add_rand_y_spd(&mut FixedRng(5));
    assert!(ball.border_collision(0, 64));
    // The same ball deflected downward no longer reports the top border.
    ball.bounce_off_border();
    assert!(!ball.border_collision(0, 64));
}
