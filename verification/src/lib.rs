//! Deterministic simulation core of a two-paddle ball game.
//!
//! The engine advances one discrete step per call, with no notion of elapsed
//! real time.  All coordinates and speeds are integers in *tenths* of a field
//! unit, so the continuous physics of the game (speeds such as 1.5 units per
//! tick) are represented exactly as fixed-point values and every operation can
//! be verified.  Field dimensions and paddle geometry stay in whole field
//! units; the collision predicates bring the two scales together.

use vstd::prelude::*;

pub mod ball;
pub mod player;
pub mod rnd;

pub use ball::Ball;
pub use player::Player;

verus! {

/// Magnitude of the ball's velocity, in tenths of a field unit per tick
/// (1.5 units per tick).
pub const BALL_MAX_SPEED: i32 = 15;

/// Bound on the vertical component of the ball's velocity after a paddle
/// bounce, in tenths of a field unit per tick (`BALL_MAX_SPEED / 2.5`).
pub const Y_SPEED_LIMIT: i32 = 6;

/// Radius of the ball, in whole field units.
pub const BALL_RADIUS: u32 = 3;

/// Largest accepted field width or height, in field units.  Keeps every
/// position in tenths, with the slack a moving ball can gain, well inside
/// `i32`.
pub const MAX_FIELD: u32 = 100_000;

/// Source of pseudo-random draws, used only to pick the serve direction and
/// the vertical perturbation after a paddle bounce.  Implementations promise
/// nothing about the values they return; everything proved about the engine
/// holds for every possible draw.
pub trait RandomSource {
    fn next(&mut self) -> i32;
}

/// Side that conceded the last goal: the ball left the field over this
/// player's edge.
#[derive(Clone, Copy, Debug, PartialEq, Eq, Structural)]
pub enum LastGoalFrom {
    Player1,
    Player2,
}

/// State of the simulation: either a rally is running, or it ended with a
/// goal conceded by the given side and the engine is frozen until `reinit`.
#[derive(Clone, Copy, Debug, PartialEq, Eq, Structural)]
pub enum Status {
    GameOver(LastGoalFrom),
    GameInProgress,
}

/// Score pair, player 1 first.  The engine itself keeps no score: the caller
/// accumulates it from the `GameOver` outcomes.
pub type Score = (u32, u32);

/// Snapshot of the moving pieces, returned by value once per tick so a
/// renderer can read a consistent state without holding a reference into the
/// simulation.
#[derive(Clone, Copy, Debug, PartialEq, Eq, Structural)]
pub struct Progress {
    pub ball: Ball,
    pub player1: Player,
    pub player2: Player,
}

/// Rendering sink, implemented by the surrounding adapter: the ball is drawn
/// as a filled circle, a paddle as a filled rectangle, the score as two
/// numbers in fixed slots.
pub trait Drawer {
    fn draw_ball(&mut self, ball: &Ball);

    fn draw_player(&mut self, player: &Player);

    fn draw_score(&mut self, score: &Score);
}

/// Result of one tick: the rally continues with the given snapshot, or it
/// just ended with a goal conceded by the given side, or the step was
/// rejected because the engine is frozen after a goal.
#[derive(Clone, Copy, Debug, PartialEq, Eq, Structural)]
pub enum Outcome {
    GameOver(LastGoalFrom),
    GameInProgress(Progress),
    Rejected,
}

// ---------------------------------------------------------------------------
// The per-tick ball pipeline, as a relation (the paddle bounce draws from the
// random source, so one tick admits one successor state per possible draw).
// ---------------------------------------------------------------------------

/// The border phase of a tick: the vertical velocity inverted when the
/// directional border test fires, within a field of the given height.
pub open spec fn border_step(b: Ball, height: u32) -> Ball {
    if ball::border_collision_spec(b, 0, height) {
        ball::ball_y_flipped(b)
    } else {
        b
    }
}

/// The ball pipeline of one tick relates `b0` to `b1`: the ball advances by
/// its velocity, bounces off a paddle if its box then overlaps one (at most
/// one bounce, for some perturbation draw), and bounces off a border if the
/// directional test fires.  The goal test is not part of this relation; it
/// reads the resulting position.
pub open spec fn ball_tick_rel(b0: Ball, b1: Ball, p1: Player, p2: Player, height: u32) -> bool {
    let ba = ball::ball_advanced(b0);
    if ball::player_collision_spec(ba, p1) || ball::player_collision_spec(ba, p2) {
        exists|m: int|
            0 <= m <= 12 && b1 == #[trigger] border_step(ball::ball_bounced(ba, m), height)
    } else {
        b1 == border_step(ba, height)
    }
}

/// Bound on how far above or below the field the ball can drift: one tick of
/// vertical speed past the point where the directional border test fires.
/// This is the inductive part of the engine's invariant that keeps the
/// position arithmetic in range.
pub open spec fn ball_in_vertical_band(b: Ball, height: u32) -> bool {
    &&& -26 <= b.y <= 10 * height + 36
    &&& (b.y_spd > 0 ==> b.y <= 10 * height - 31 || b.y <= 30)
    &&& (b.y_spd < 0 ==> b.y >= 31 || b.y >= 10 * height - 30)
}

// ---------------------------------------------------------------------------
// The simulation.
// ---------------------------------------------------------------------------

/// The simulation: one ball, two paddles, the rally status and the random
/// source, over a fixed field.  One call of [`Pong::next`] advances the game
/// by exactly one tick.
pub struct Pong<RND> where RND: RandomSource {
    width: u32,
    height: u32,
    progress: Progress,
    status: Status,
    random: RND,
}

impl<RND: RandomSource> Pong<RND> {
    pub closed spec fn spec_width(self) -> u32 {
        self.width
    }

    pub closed spec fn spec_height(self) -> u32 {
        self.height
    }

    pub closed spec fn spec_ball(self) -> Ball {
        self.progress.ball
    }

    pub closed spec fn spec_player1(self) -> Player {
        self.progress.player1
    }

    pub closed spec fn spec_player2(self) -> Player {
        self.progress.player2
    }

    pub closed spec fn spec_status(self) -> Status {
        self.status
    }

    pub closed spec fn spec_random(self) -> RND {
        self.random
    }

    /// The engine's invariant: the field dimensions are in range, both
    /// paddles sit on their edge with their fixed geometry and stay inside
    /// the field, the ball's velocity satisfies the magnitude invariant, its
    /// vertical drift is bounded, and while a rally is in progress its
    /// horizontal position is on the field (the rally ends the moment it is
    /// not).
    pub open spec fn wf(self) -> bool {
        &&& 2 <= self.spec_width() <= MAX_FIELD
        &&& 1 <= self.spec_height() <= MAX_FIELD
        &&& self.spec_player1().x == 0
        &&& self.spec_player1().width == 2
        &&& self.spec_player1().height == self.spec_height() / 4
        &&& self.spec_player2().x == self.spec_width() - 2
        &&& self.spec_player2().width == 2
        &&& self.spec_player2().height == self.spec_height() / 4
        &&& player::player_in_field(self.spec_player1(), self.spec_height())
        &&& player::player_in_field(self.spec_player2(), self.spec_height())
        &&& self.spec_ball().r == BALL_RADIUS
        &&& ball::ball_wf_speed(self.spec_ball())
        &&& ball_in_vertical_band(self.spec_ball(), self.spec_height())
        &&& -BALL_MAX_SPEED <= self.spec_ball().x <= 10 * self.spec_width() + BALL_MAX_SPEED
        &&& (self.spec_status() is GameInProgress ==> 0 <= self.spec_ball().x <= 10
            * self.spec_width())
    }

    /// What `reinit` does: both paddles return to their start position, the
    /// status returns to in-progress, and the ball is re-served from the
    /// center — toward the side that conceded the last goal, with no random
    /// draw, when a rally just ended; in a random direction otherwise.
    pub open spec fn serve_rel(pre: Self, post: Self) -> bool {
        let w = pre.spec_width();
        let h = pre.spec_height();
        &&& post.spec_width() == w
        &&& post.spec_height() == h
        &&& post.spec_status() is GameInProgress
        &&& post.spec_player1() == player::player1_spec(w, h)
        &&& post.spec_player2() == player::player2_spec(w, h)
        &&& match pre.spec_status() {
            Status::GameOver(LastGoalFrom::Player1) => post.spec_ball() == ball::ball_served(
                w,
                h,
                (-BALL_MAX_SPEED) as i32,
            ) && post.spec_random() == pre.spec_random(),
            Status::GameOver(LastGoalFrom::Player2) => post.spec_ball() == ball::ball_served(
                w,
                h,
                BALL_MAX_SPEED,
            ) && post.spec_random() == pre.spec_random(),
            Status::GameInProgress => post.spec_ball() == ball::ball_served(w, h, BALL_MAX_SPEED)
                || post.spec_ball() == ball::ball_served(w, h, (-BALL_MAX_SPEED) as i32),
        }
    }

    /// What one tick does.  A frozen engine rejects the step and changes
    /// nothing.  Otherwise both paddles move by their deltas, the ball runs
    /// the pipeline of [`ball_tick_rel`] against the moved paddles, and the
    /// goal test on the resulting position decides the outcome: past the left
    /// edge player 1 conceded, past the right edge player 2 conceded, and on
    /// the field the rally continues with a snapshot of the new state.
    pub open spec fn step_rel(pre: Self, post: Self, delta1: int, delta2: int, r: Outcome) -> bool {
        if pre.spec_status() is GameOver {
            post == pre && r == Outcome::Rejected
        } else {
            let w = pre.spec_width();
            let h = pre.spec_height();
            let p1m = player::player_step_spec(pre.spec_player1(), delta1, h);
            let p2m = player::player_step_spec(pre.spec_player2(), delta2, h);
            &&& post.spec_width() == w
            &&& post.spec_height() == h
            &&& post.spec_player1() == p1m
            &&& post.spec_player2() == p2m
            &&& ball_tick_rel(pre.spec_ball(), post.spec_ball(), p1m, p2m, h)
            &&& (post.spec_ball().x < 0 ==> post.spec_status() == Status::GameOver(
                LastGoalFrom::Player1,
            ) && r == Outcome::GameOver(LastGoalFrom::Player1))
            &&& (post.spec_ball().x > 10 * w ==> post.spec_status() == Status::GameOver(
                LastGoalFrom::Player2,
            ) && r == Outcome::GameOver(LastGoalFrom::Player2))
            &&& (0 <= post.spec_ball().x <= 10 * w ==> post.spec_status() is GameInProgress && r
                == Outcome::GameInProgress(
                Progress { ball: post.spec_ball(), player1: p1m, player2: p2m },
            ))
        }
    }

    /// A fresh simulation over a `width` by `height` field: a rally is in
    /// progress, the paddles are at their start positions, and the ball is
    /// served from the center in a random direction.
    pub fn new(width: u32, height: u32, random: RND) -> (p: Self)
        requires
            2 <= width <= MAX_FIELD,
            1 <= height <= MAX_FIELD,
        ensures
            p.wf(),
            p.spec_width() == width,
            p.spec_height() == height,
            p.spec_status() is GameInProgress,
            p.spec_player1() == player::player1_spec(width, height),
            p.spec_player2() == player::player2_spec(width, height),
            p.spec_ball() == ball::ball_served(width, height, BALL_MAX_SPEED) || p.spec_ball()
                == ball::ball_served(width, height, (-BALL_MAX_SPEED) as i32),
    {
        let mut random = random;
        let ball = Ball::with_rand_x_spd(width, height, &mut random);
        let player1 = Player::player1(width, height);
        let player2 = Player::player2(width, height);
        proof {
            lemma_start_players_in_field(width, height);
        }
        Self {
            width,
            height,
            status: Status::GameInProgress,
            progress: Progress { ball, player1, player2 },
            random,
        }
    }

    /// Current state of the rally, read by the adapter to decide whether to
    /// poll for a resume input before calling `reinit`.
    pub fn status(&self) -> (s: Status)
        ensures
            s == self.spec_status(),
    {
        self.status
    }

    /// Starts a new rally (see [`Pong::serve_rel`]): after a goal the serve
    /// is biased toward the side that conceded, consuming no randomness;
    /// otherwise the direction is drawn from the random source.  Always
    /// succeeds.
    pub fn reinit(&mut self)
        requires
            old(self).wf(),
        ensures
            final(self).wf(),
            Self::serve_rel(*old(self), *final(self)),
    {
        let ball = match self.status {
            Status::GameOver(LastGoalFrom::Player1) => Ball::with_x_spd(
                self.width,
                self.height,
                -BALL_MAX_SPEED,
            ),
            Status::GameOver(LastGoalFrom::Player2) => Ball::with_x_spd(
                self.width,
                self.height,
                BALL_MAX_SPEED,
            ),
            Status::GameInProgress => Ball::with_rand_x_spd(
                self.width,
                self.height,
                &mut self.random,
            ),
        };
        self.progress = Progress {
            ball,
            player1: Player::player1(self.width, self.height),
            player2: Player::player2(self.width, self.height),
        };
        self.status = Status::GameInProgress;
        proof {
            lemma_start_players_in_field(self.width, self.height);
            ball::lemma_served_wf(self.width, self.height);
        }
    }

    /// Applies player 1's delta: positive moves up, negative moves down,
    /// zero leaves the paddle in place.
    fn player1_move(&mut self, delta: i32)
        requires
            old(self).wf(),
        ensures
            final(self).wf(),
            final(self).width == old(self).width,
            final(self).height == old(self).height,
            final(self).status == old(self).status,
            final(self).random == old(self).random,
            final(self).progress.ball == old(self).progress.ball,
            final(self).progress.player2 == old(self).progress.player2,
            final(self).progress.player1 == player::player_step_spec(
                old(self).progress.player1,
                delta as int,
                old(self).height,
            ),
    {
        if delta > 0 {
            self.progress.player1.move_up(delta, 0);
        } else if delta < 0 {
            self.progress.player1.move_down(delta, self.height);
        }
    }

    /// Applies player 2's delta, symmetrically to `player1_move`.
    fn player2_move(&mut self, delta: i32)
        requires
            old(self).wf(),
        ensures
            final(self).wf(),
            final(self).width == old(self).width,
            final(self).height == old(self).height,
            final(self).status == old(self).status,
            final(self).random == old(self).random,
            final(self).progress.ball == old(self).progress.ball,
            final(self).progress.player1 == old(self).progress.player1,
            final(self).progress.player2 == player::player_step_spec(
                old(self).progress.player2,
                delta as int,
                old(self).height,
            ),
    {
        if delta > 0 {
            self.progress.player2.move_up(delta, 0);
        } else if delta < 0 {
            self.progress.player2.move_down(delta, self.height);
        }
    }

    /// Runs the ball pipeline of one tick — advance, paddle bounce, border
    /// bounce, goal test, in that fixed order — and decides the outcome.
    fn move_ball(&mut self) -> (r: Outcome)
        requires
            old(self).wf(),
            old(self).status is GameInProgress,
        ensures
            final(self).wf(),
            final(self).width == old(self).width,
            final(self).height == old(self).height,
            final(self).progress.player1 == old(self).progress.player1,
            final(self).progress.player2 == old(self).progress.player2,
            ball_tick_rel(
                old(self).progress.ball,
                final(self).progress.ball,
                old(self).progress.player1,
                old(self).progress.player2,
                old(self).height,
            ),
            final(self).progress.ball.x < 0 ==> final(self).status == Status::GameOver(
                LastGoalFrom::Player1,
            ) && r == Outcome::GameOver(LastGoalFrom::Player1),
            final(self).progress.ball.x > 10 * old(self).width ==> final(self).status
                == Status::GameOver(LastGoalFrom::Player2) && r == Outcome::GameOver(
                LastGoalFrom::Player2,
            ),
            0 <= final(self).progress.ball.x <= 10 * old(self).width ==> final(self).status
                is GameInProgress && r == Outcome::GameInProgress(
                Progress {
                    ball: final(self).progress.ball,
                    player1: old(self).progress.player1,
                    player2: old(self).progress.player2,
                },
            ),
    {
        self.progress.ball.move_next();
        let ghost ba = self.progress.ball;
        let hit1 = self.progress.ball.player_collision(&self.progress.player1);
        let hit2 = self.progress.ball.player_collision(&self.progress.player2);
        if hit1 || hit2 {
            self.progress.ball.bounce_off_player(&mut self.random);
        }
        let ghost bb = self.progress.ball;
        if self.progress.ball.border_collision(0, self.height) {
            self.progress.ball.bounce_off_border();
        }
        proof {
            let b1 = self.progress.ball;
            assert(b1 == border_step(bb, old(self).height));
            if hit1 || hit2 {
                let m = choose|m: int| 0 <= m <= 12 && bb == ball::ball_bounced(ba, m);
                assert(b1 == border_step(ball::ball_bounced(ba, m), old(self).height));
            }
        }
        if self.progress.ball.x < 0 {
            self.status = Status::GameOver(LastGoalFrom::Player1);
            return Outcome::GameOver(LastGoalFrom::Player1);
        }
        let w10 = (self.width * 10) as i32;
        if self.progress.ball.x > w10 {
            self.status = Status::GameOver(LastGoalFrom::Player2);
            return Outcome::GameOver(LastGoalFrom::Player2);
        }
        Outcome::GameInProgress(self.progress)
    }

    /// One tick: rejected without any change while the engine is frozen
    /// after a goal; otherwise both paddles move by their deltas and the
    /// ball pipeline runs (see [`Pong::step_rel`]).  Never panics on a
    /// well-formed simulation.
    pub fn next(&mut self, delta1: i32, delta2: i32) -> (r: Outcome)
        requires
            old(self).wf(),
        ensures
            final(self).wf(),
            Self::step_rel(*old(self), *final(self), delta1 as int, delta2 as int, r),
    {
        match self.status {
            Status::GameInProgress => {
                self.player1_move(delta1);
                self.player2_move(delta2);
                self.move_ball()
            },
            Status::GameOver(_) => Outcome::Rejected,
        }
    }
}

/// Pause invariant: once a rally is over, a step changes nothing — the ball
/// and both paddles stay bit-identical and the step is rejected — and this
/// holds again for every further step until `reinit`.
pub proof fn lemma_pause_invariant<RND: RandomSource>(
    pre: Pong<RND>,
    post: Pong<RND>,
    delta1: int,
    delta2: int,
    r: Outcome,
)
    requires
        pre.spec_status() is GameOver,
        Pong::step_rel(pre, post, delta1, delta2, r),
    ensures
        post == pre,
        r == Outcome::Rejected,
{
}

/// Serve bias: when the last rally ended with a goal conceded by player 1,
/// the re-serve sends the ball toward player 1's (left) edge, and
/// symmetrically for player 2 — deterministically, with the random source
/// untouched.
pub proof fn lemma_serve_bias<RND: RandomSource>(pre: Pong<RND>, post: Pong<RND>)
    requires
        Pong::serve_rel(pre, post),
        pre.spec_status() is GameOver,
    ensures
        pre.spec_status() == Status::GameOver(LastGoalFrom::Player1) ==> post.spec_ball().x_spd
            < 0,
        pre.spec_status() == Status::GameOver(LastGoalFrom::Player2) ==> post.spec_ball().x_spd
            > 0,
        post.spec_random() == pre.spec_random(),
{
}

/// Both start paddles sit inside the field: the start offset of three
/// eighths of the field height plus the paddle height of a quarter of the
/// field height never passes the field bottom.
proof fn lemma_start_players_in_field(width: u32, height: u32)
    requires
        2 <= width <= MAX_FIELD,
        1 <= height <= MAX_FIELD,
    ensures
        player::player_in_field(player::player1_spec(width, height), height),
        player::player_in_field(player::player2_spec(width, height), height),
{
    let h = height as int;
    assert(3 * h / 8 + h / 4 <= h) by (nonlinear_arith)
        requires
            h >= 0,
    ;
}

} // verus!
