//! Paddle geometry and clamped movement on a 64 by 64 field: the start
//! position is three eighths of the field height, the paddle is a quarter of
//! the field tall, and no sequence of deltas moves it outside `[0, 48]`.

use pong::player::Player;

#[test]
fn player1_start_geometry() {
    let p = Player::player1(64, 64);
    assert_eq!(p.x, 0);
    assert_eq!(p.y, 24);
    assert_eq!(p.width, 2);
    assert_eq!(p.height, 16);
}

#[test]
fn player2_start_geometry() {
    let p = Player::player2(64, 64);
    assert_eq!(p.x, 62);
    assert_eq!(p.y, 24);
    assert_eq!(p.width, 2);
    assert_eq!(p.height, 16);
}

#[test]
fn move_up_plain() {
    let mut p = Player::player1(64, 64);
    p.move_up(5, 0);
    assert_eq!(p.y, 19);
}

#[test]
fn move_up_clamps_at_top() {
    let mut p = Player::player1(64, 64);
    p.move_up(100, 0);
    assert_eq!(p.y, 0);
    p.move_up(1, 0);
    assert_eq!(p.y, 0);
}

#[test]
fn move_down_plain() {
    let mut p = Player::player1(64, 64);
    p.move_down(-3, 64);
    assert_eq!(p.y, 27);
}

#[test]
fn move_down_clamps_at_bottom() {
    let mut p = Player::player1(64, 64);
    p.move_down(-100, 64);
    assert_eq!(p.y, 48);
    p.move_down(-1, 64);
    assert_eq!(p.y, 48);
}

/// Paddle clamping: the engine's delta dispatch (up for positive, down for
/// negative) keeps `y` within `[0, height - paddle height]` for any deltas,
/// here including extreme ones.
#[test]
fn delta_sequences_stay_in_field() {
    let deltas: [i32; 12] = [
        3,
        -7,
        100,
        -200,
        0,
        50,
        -50,
        i32::MAX,
        i32::MIN + 1,
        1,
        -1,
        25,
    ];
    let mut p = Player::player1(64, 64);
    for d in deltas {
        if d > 0 {
            p.move_up(d, 0);
        } else if d < 0 {
            p.move_down(d, 64);
        }
        assert!(0 <= p.y && p.y <= 48, "y = {} after delta {}", p.y, d);
    }
}
