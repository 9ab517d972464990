//! The state machine over whole rallies: serve, goal detection, the frozen
//! pause after a goal, and the biased re-serve toward the side that conceded.
//! Field 64 by 64, so the ball starts at (320, 320) in tenths and the goal
//! lines are x < 0 and x > 640.

use pong::rnd::PseudoRandomGenerator;
use pong::{LastGoalFrom, Outcome, Pong, RandomSource, Status};

struct FixedRng(i32);

impl RandomSource for FixedRng {
    fn next(&mut self) -> i32 {
        self.0
    }
}

/// Serve direction comes from the parity of the first draw: even serves
/// toward player 2 (rightward), odd toward player 1 (leftward).
#[test]
fn serve_direction_follows_draw_parity() {
    // An even first draw: the ball's first step goes right.
    let mut game = Pong::new(64, 64, FixedRng(2));
    match game.next(0, 0) {
        Outcome::GameInProgress(progress) => {
            assert_eq!(progress.ball.x, 320 + 15);
            assert_eq!(progress.ball.y, 320);
        }
        _ => panic!("first tick should continue the rally"),
    }
    // An odd first draw: the ball's first step goes left.
    let mut game = Pong::new(64, 64, FixedRng(3));
    match game.next(0, 0) {
        Outcome::GameInProgress(progress) => {
            assert_eq!(progress.ball.x, 320 - 15);
        }
        _ => panic!("first tick should continue the rally"),
    }
}

#[test]
fn serve_matches_generator_parity() {
    let seed: u16 = 0xACE1;
    let mut reference = PseudoRandomGenerator::new(seed);
    let first_draw = reference.get() as i32;
    let expected_dx = if first_draw % 2 == 0 { 15 } else { -15 };

    let mut game = Pong::new(64, 64, PseudoRandomGenerator::new(seed));
    match game.next(0, 0) {
        Outcome::GameInProgress(progress) => {
            assert_eq!(progress.ball.x, 320 + expected_dx);
        }
        _ => panic!("first tick should continue the rally"),
    }
}

/// Drives a rally to its goal: the paddles are parked at the bottom, out of
/// the ball's straight horizontal path, so the ball crosses one goal line.
/// Returns the game and the side that conceded.
fn play_until_goal(game: &mut Pong<FixedRng>) -> LastGoalFrom {
    // Park both paddles at the bottom of the field (y = 48, spanning 48..64,
    // while the ball stays around 32).
    game.next(-100, -100);
    for _ in 0..100 {
        match game.next(0, 0) {
            Outcome::GameInProgress(progress) => {
                // The paddles are out of the way: the ball flies level.
                assert_eq!(progress.ball.y, 320);
                assert_eq!(progress.player1.y, 48);
                assert_eq!(progress.player2.y, 48);
            }
            Outcome::GameOver(side) => return side,
            Outcome::Rejected => panic!("a running rally must not reject a step"),
        }
    }
    panic!("the ball crosses a goal line in well under 100 ticks");
}

/// Once a rally is over, every further step is rejected and mutates nothing,
/// until `reinit`.
#[test]
fn pause_rejects_steps_until_reinit() {
    let mut game = Pong::new(64, 64, FixedRng(2));
    let side = play_until_goal(&mut game);
    assert!(matches!(game.status(), Status::GameOver(s) if s == side));

    for _ in 0..5 {
        assert!(matches!(game.next(7, -7), Outcome::Rejected));
        assert!(matches!(game.status(), Status::GameOver(s) if s == side));
    }

    game.reinit();
    assert!(matches!(game.status(), Status::GameInProgress));
    assert!(matches!(game.next(0, 0), Outcome::GameInProgress(_)));
}

/// After a goal, the re-serve is biased toward the side that conceded: the
/// ball's horizontal speed points at that player's edge, deterministically.
#[test]
fn reinit_serves_toward_conceding_side() {
    // An even draw serves right: the ball exits over player 2's edge, so
    // player 2 concedes and the next serve goes right again.
    let mut game = Pong::new(64, 64, FixedRng(2));
    let side = play_until_goal(&mut game);
    assert_eq!(side, LastGoalFrom::Player2);
    game.reinit();
    match game.next(0, 0) {
        Outcome::GameInProgress(progress) => {
            assert_eq!(progress.ball.x, 320 + 15);
            // Paddles are back at their start position.
            assert_eq!(progress.player1.y, 24);
            assert_eq!(progress.player2.y, 24);
        }
        _ => panic!("the re-served rally should continue"),
    }

    // An odd draw serves left: player 1 concedes and the next serve goes
    // left again.
    let mut game = Pong::new(64, 64, FixedRng(3));
    let side = play_until_goal(&mut game);
    assert_eq!(side, LastGoalFrom::Player1);
    game.reinit();
    match game.next(0, 0) {
        Outcome::GameInProgress(progress) => {
            assert_eq!(progress.ball.x, 320 - 15);
        }
        _ => panic!("the re-served rally should continue"),
    }
}

/// A paddle left in the ball's path saves the goal: the ball bounces back
/// instead of crossing the line.
#[test]
fn paddle_save_reverses_ball() {
    // Odd draw: ball moves left toward player 1, whose paddle stays at its
    // start position covering the center band.
    let mut game = Pong::new(64, 64, FixedRng(3));
    let mut last_x = 320;
    let mut bounced = false;
    for _ in 0..60 {
        match game.next(0, 0) {
            Outcome::GameInProgress(progress) => {
                if progress.ball.x > last_x {
                    bounced = true;
                    break;
                }
                last_x = progress.ball.x;
            }
            _ => panic!("the rally should survive a paddle save"),
        }
    }
    assert!(bounced, "the ball never bounced back off the paddle");
    assert!(matches!(game.status(), Status::GameInProgress));
}

/// The snapshot of a running tick reflects the paddle moves of that tick.
#[test]
fn snapshot_reflects_moved_paddles() {
    let mut game = Pong::new(64, 64, FixedRng(2));
    match game.next(10, -10) {
        Outcome::GameInProgress(progress) => {
            assert_eq!(progress.player1.y, 14);
            assert_eq!(progress.player2.y, 34);
        }
        _ => panic!("first tick should continue the rally"),
    }
}

/// The engine accepts the largest allowed field and runs ticks on it.
#[test]
fn largest_field_runs() {
    let mut game = Pong::new(100_000, 100_000, FixedRng(2));
    for _ in 0..10 {
        match game.next(1, -1) {
            Outcome::GameInProgress(progress) => {
                assert!(0 <= progress.ball.x && progress.ball.x <= 1_000_000);
            }
            _ => panic!("no goal can fall within ten ticks on a huge field"),
        }
    }
}

/// A degenerate 2 by 1 field: the paddles have zero height and the ball is
/// larger than the field; the rally still ends in a goal without a panic.
#[test]
fn tiny_field_ends_in_goal() {
    let mut game = Pong::new(2, 1, FixedRng(3));
    let mut over = false;
    for _ in 0..10 {
        match game.next(0, 0) {
            Outcome::GameOver(_) => {
                over = true;
                break;
            }
            Outcome::GameInProgress(_) => {}
            Outcome::Rejected => panic!("a running rally must not reject a step"),
        }
    }
    assert!(over, "the ball leaves a two-unit field in a few ticks");
}
