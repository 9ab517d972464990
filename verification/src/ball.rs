//! The ball: position, radius and velocity, with the collision predicates and
//! the bounce operations.
//!
//! `x`, `y`, `x_spd` and `y_spd` are in tenths of a field unit; `r` is in
//! whole field units.  The velocity invariant of the engine is
//! [`ball_wf_speed`]: the vertical component stays within
//! `±Y_SPEED_LIMIT` and the horizontal component is, up to sign, the integer
//! square root of `BALL_MAX_SPEED² − y_spd²`, so the speed's magnitude is held
//! at `BALL_MAX_SPEED` up to fixed-point rounding.

use crate::player::Player;
use crate::RandomSource;
use crate::{BALL_MAX_SPEED, BALL_RADIUS, MAX_FIELD, Y_SPEED_LIMIT};
use vstd::prelude::*;

verus! {

#[derive(Clone, Copy, Debug, PartialEq, Eq, Structural)]
pub struct Ball {
    pub x: i32,
    pub y: i32,
    pub r: u32,
    pub x_spd: i32,
    pub y_spd: i32,
}

/// `r` is the integer square root of `n`: the largest integer whose square is
/// at most `n`.
pub open spec fn is_sqrt_floor(n: int, r: int) -> bool {
    0 <= r && r * r <= n && n < (r + 1) * (r + 1)
}

/// The integer square root of `n` (meaningful for `n >= 0`, see
/// [`lemma_isqrt`]).
pub open spec fn isqrt_spec(n: int) -> int {
    choose|r: int| #[trigger] is_sqrt_floor(n, r)
}

proof fn lemma_sqrt_floor_exists(n: int)
    requires
        n >= 0,
    ensures
        exists|r: int| #[trigger] is_sqrt_floor(n, r),
    decreases n,
{
    if n == 0 {
        assert(is_sqrt_floor(0, 0));
    } else {
        lemma_sqrt_floor_exists(n - 1);
        let r = choose|r: int| #[trigger] is_sqrt_floor(n - 1, r);
        if (r + 1) * (r + 1) <= n {
            assert(n - 1 < (r + 1) * (r + 1));
            assert(n < (r + 2) * (r + 2)) by (nonlinear_arith)
                requires
                    n == (r + 1) * (r + 1),
                    r >= 0,
            ;
            assert(is_sqrt_floor(n, r + 1));
        } else {
            assert(is_sqrt_floor(n, r));
        }
    }
}

/// `isqrt_spec(n)` satisfies its defining property whenever `n` is
/// non-negative.
pub proof fn lemma_isqrt(n: int)
    requires
        n >= 0,
    ensures
        is_sqrt_floor(n, isqrt_spec(n)),
{
    lemma_sqrt_floor_exists(n);
}

/// The integer square root is unique: any `r` with the defining property is
/// `isqrt_spec(n)`.
pub proof fn lemma_isqrt_unique(n: int, r: int)
    requires
        is_sqrt_floor(n, r),
    ensures
        r == isqrt_spec(n),
{
    lemma_isqrt(n);
    let s = isqrt_spec(n);
    if r < s {
        assert((r + 1) * (r + 1) <= s * s) by (nonlinear_arith)
            requires
                0 <= r + 1 <= s,
        ;
    }
    if s < r {
        assert((s + 1) * (s + 1) <= r * r) by (nonlinear_arith)
            requires
                0 <= s + 1 <= r,
        ;
    }
}

/// Integer square root: the largest `r` with `r * r <= n`.
pub fn isqrt(n: u32) -> (r: u32)
    ensures
        is_sqrt_floor(n as int, r as int),
        r == isqrt_spec(n as int),
{
    let mut r: u32 = 0;
    loop
        invariant
            r * r <= n,
            r <= 0xffff,
        ensures
            r * r <= n,
            n < (r + 1) * (r + 1),
        decreases n - r * r,
    {
        let q: u64 = r as u64 + 1;
        proof {
            assert(q * q <= 0x1_0000_0000) by (nonlinear_arith)
                requires
                    q <= 0x10000,
            ;
        }
        if q * q > n as u64 {
            break;
        }
        proof {
            assert(r + 1 <= 0xffff) by (nonlinear_arith)
                requires
                    (r + 1) * (r + 1) <= n,
                    n <= 0xffff_ffff,
                    r >= 0,
            ;
            assert((r + 1) * (r + 1) > r * r) by (nonlinear_arith)
                requires
                    r >= 0,
            ;
        }
        r = r + 1;
    }
    proof {
        lemma_isqrt_unique(n as int, r as int);
    }
    r
}

// ---------------------------------------------------------------------------
// Geometry, in tenths of a field unit.
// ---------------------------------------------------------------------------

pub open spec fn ball_top(b: Ball) -> int {
    b.y - 10 * b.r
}

pub open spec fn ball_bottom(b: Ball) -> int {
    b.y + 10 * b.r
}

pub open spec fn ball_left(b: Ball) -> int {
    b.x - 10 * b.r
}

pub open spec fn ball_right(b: Ball) -> int {
    b.x + 10 * b.r
}

pub open spec fn player_top(p: Player) -> int {
    10 * p.y
}

pub open spec fn player_bottom(p: Player) -> int {
    10 * (p.y + p.height)
}

pub open spec fn player_left(p: Player) -> int {
    10 * p.x
}

pub open spec fn player_right(p: Player) -> int {
    10 * (p.x + p.width)
}

/// The ball's square bounding box and the paddle's rectangle overlap as
/// closed rectangles; touching edges count.
pub open spec fn player_collision_spec(b: Ball, p: Player) -> bool {
    &&& ball_top(b) <= player_bottom(p)
    &&& ball_bottom(b) >= player_top(p)
    &&& ball_left(b) <= player_right(p)
    &&& ball_right(b) >= player_left(p)
}

/// Directional border test: the ball counts as hitting a border only when it
/// is moving toward the border it touches or has passed, so a ball already
/// deflected away does not re-trigger the same collision.  The borders are
/// given in whole field units.
pub open spec fn border_collision_spec(b: Ball, top_border: u32, bottom_border: u32) -> bool {
    if b.y_spd > 0 {
        ball_bottom(b) >= 10 * bottom_border
    } else {
        ball_top(b) <= 10 * top_border
    }
}

// ---------------------------------------------------------------------------
// Velocity.
// ---------------------------------------------------------------------------

/// Horizontal speed that restores the velocity magnitude to `BALL_MAX_SPEED`
/// (up to fixed-point rounding) for a given vertical speed.
pub open spec fn x_speed_magnitude(y_spd: int) -> int {
    isqrt_spec(BALL_MAX_SPEED * BALL_MAX_SPEED - y_spd * y_spd)
}

/// Vertical speed clamped to `[-Y_SPEED_LIMIT, Y_SPEED_LIMIT]`.
pub open spec fn clamped_y_spd(v: int) -> int {
    if v > Y_SPEED_LIMIT {
        Y_SPEED_LIMIT as int
    } else if v < -Y_SPEED_LIMIT {
        -Y_SPEED_LIMIT as int
    } else {
        v
    }
}

/// The velocity invariant every served or bounced ball satisfies: the
/// vertical component is within `±Y_SPEED_LIMIT` and the horizontal component
/// is, up to sign, exactly the value that restores the magnitude to
/// `BALL_MAX_SPEED` (see [`lemma_speed_magnitude`]).
pub open spec fn ball_wf_speed(b: Ball) -> bool {
    &&& -Y_SPEED_LIMIT <= b.y_spd <= Y_SPEED_LIMIT
    &&& -BALL_MAX_SPEED <= b.x_spd <= BALL_MAX_SPEED
    &&& (b.x_spd == x_speed_magnitude(b.y_spd as int) || b.x_spd == -x_speed_magnitude(
        b.y_spd as int,
    ))
}

// ---------------------------------------------------------------------------
// The operations, as pure functions on ball values.
// ---------------------------------------------------------------------------

/// Ball placed at the center of the field with the given horizontal speed and
/// no vertical speed.
pub open spec fn ball_served(width: u32, height: u32, x_spd: i32) -> Ball {
    Ball { x: (5 * width) as i32, y: (5 * height) as i32, r: BALL_RADIUS, x_spd, y_spd: 0 }
}

/// One movement step: the velocity added to the position.
pub open spec fn ball_advanced(b: Ball) -> Ball {
    Ball { x: (b.x + b.x_spd) as i32, y: (b.y + b.y_spd) as i32, ..b }
}

/// Vertical velocity inverted, as by a border bounce.
pub open spec fn ball_y_flipped(b: Ball) -> Ball {
    Ball { y_spd: (-b.y_spd) as i32, ..b }
}

/// Vertical velocity nudged by the perturbation drawn as `m` (a value in
/// `[0, 12]`, shifted to `[-6, 6]` and scaled to tenths), then clamped, with
/// the horizontal speed recomputed so the magnitude is restored, keeping its
/// sign.
pub open spec fn ball_perturbed(b: Ball, m: int) -> Ball {
    let y2 = clamped_y_spd(b.y_spd + 2 * (m - 6));
    let mag = x_speed_magnitude(y2);
    Ball {
        x_spd: (if b.x_spd > 0 {
            mag
        } else {
            -mag
        }) as i32,
        y_spd: y2 as i32,
        ..b
    }
}

/// A paddle bounce with perturbation draw `m`: the horizontal velocity sign
/// inverted, then the vertical perturbation applied.
pub open spec fn ball_bounced(b: Ball, m: int) -> Ball {
    ball_perturbed(Ball { x_spd: (-b.x_spd) as i32, ..b }, m)
}

/// Serve direction for a raw draw: an even draw serves toward player 2
/// (positive, rightward), an odd one toward player 1 (negative).
pub open spec fn serve_direction_spec(draw: i32) -> i32 {
    if draw % 2 == 0 {
        BALL_MAX_SPEED
    } else {
        (-BALL_MAX_SPEED) as i32
    }
}

/// Maps a raw draw to the horizontal serve speed: `BALL_MAX_SPEED` toward
/// player 2 for an even draw, `-BALL_MAX_SPEED` toward player 1 for an odd
/// one.
pub fn serve_direction(draw: i32) -> (s: i32)
    ensures
        s == serve_direction_spec(draw),
{
    if draw % 2 == 0 {
        BALL_MAX_SPEED
    } else {
        -BALL_MAX_SPEED
    }
}

/// Reduces a raw draw to the perturbation index: the remainder modulo 13,
/// taken into `[0, 12]` (the Euclidean remainder) whatever the draw's sign.
pub fn perturbation_index(draw: i32) -> (m: i32)
    ensures
        m == draw % 13,
        0 <= m <= 12,
{
    let m = draw % 13;
    if m < 0 {
        m + 13
    } else {
        m
    }
}

impl Ball {
    fn new(width: u32, height: u32) -> (b: Ball)
        requires
            width <= MAX_FIELD,
            height <= MAX_FIELD,
        ensures
            b == ball_served(width, height, 0),
    {
        Ball { x: (5 * width) as i32, y: (5 * height) as i32, r: BALL_RADIUS, x_spd: 0, y_spd: 0 }
    }

    /// Ball served from the field center with the given horizontal speed:
    /// used after a goal, when the serve direction is fixed toward the side
    /// that conceded.
    pub fn with_x_spd(width: u32, height: u32, x_spd: i32) -> (b: Ball)
        requires
            width <= MAX_FIELD,
            height <= MAX_FIELD,
        ensures
            b == ball_served(width, height, x_spd),
    {
        let mut o = Self::new(width, height);
        o.x_spd = x_spd;
        o
    }

    /// Ball served from the field center with full horizontal speed in a
    /// random direction: one draw is taken and [`serve_direction`] turns it
    /// into the speed, so an even draw serves toward player 2, an odd one
    /// toward player 1.
    pub fn with_rand_x_spd<R: RandomSource>(width: u32, height: u32, rand: &mut R) -> (b: Ball)
        requires
            width <= MAX_FIELD,
            height <= MAX_FIELD,
        ensures
            exists|n: i32| b == ball_served(width, height, #[trigger] serve_direction_spec(n)),
            b == ball_served(width, height, BALL_MAX_SPEED) || b == ball_served(
                width,
                height,
                (-BALL_MAX_SPEED) as i32,
            ),
            ball_wf_speed(b),
    {
        let rnd = rand.next();
        let ball_x_speed = serve_direction(rnd);
        proof {
            lemma_served_wf(width, height);
        }
        Self::with_x_spd(width, height, ball_x_speed)
    }

    /// Adds the velocity to the position; the only operation that moves the
    /// ball, called once per tick before the collision checks.
    pub fn move_next(&mut self)
        requires
            i32::MIN <= old(self).x + old(self).x_spd <= i32::MAX,
            i32::MIN <= old(self).y + old(self).y_spd <= i32::MAX,
        ensures
            *final(self) == ball_advanced(*old(self)),
    {
        self.x = self.x + self.x_spd;
        self.y = self.y + self.y_spd;
    }

    /// Inverts the vertical velocity; no renormalization is needed since the
    /// magnitude is unchanged.
    pub fn bounce_off_border(&mut self)
        requires
            old(self).y_spd > i32::MIN,
        ensures
            *final(self) == ball_y_flipped(*old(self)),
            ball_wf_speed(*old(self)) ==> ball_wf_speed(*final(self)),
    {
        proof {
            let v = old(self).y_spd as int;
            assert((-v) * (-v) == v * v) by (nonlinear_arith);
        }
        self.y_spd = -self.y_spd;
    }

    /// Bounding-box overlap test between the ball and a paddle; touching
    /// edges count as collision.
    pub fn player_collision(&self, player: &Player) -> (r: bool)
        ensures
            r == player_collision_spec(*self, *player),
    {
        {
            let ball_top = self.y as i64 - self.r as i64 * 10;
            let ball_bottom = self.y as i64 + self.r as i64 * 10;
            let player_top = player.y as i64 * 10;
            let player_bottom = (player.y as i64 + player.height as i64) * 10;
            if ball_top > player_bottom {
                return false;
            }
            if ball_bottom < player_top {
                return false;
            }
        }
        {
            let ball_left = self.x as i64 - self.r as i64 * 10;
            let ball_right = self.x as i64 + self.r as i64 * 10;
            let player_left = player.x as i64 * 10;
            let player_right = (player.x as i64 + player.width as i64) * 10;
            if ball_left > player_right {
                return false;
            }
            if ball_right < player_left {
                return false;
            }
        }
        true
    }

    /// Directional border test (see [`border_collision_spec`]); the borders
    /// are in whole field units.
    pub fn border_collision(&self, top_border: u32, bottom_border: u32) -> (r: bool)
        ensures
            r == border_collision_spec(*self, top_border, bottom_border),
    {
        let ball_top = self.y as i64 - self.r as i64 * 10;
        let ball_bottom = self.y as i64 + self.r as i64 * 10;
        if self.y_spd > 0 {
            ball_bottom >= bottom_border as i64 * 10
        } else {
            ball_top <= top_border as i64 * 10
        }
    }
}

/// Vertical speed after clamping, as stored by `limit_speed`.
pub open spec fn ball_speed_limited(b: Ball) -> Ball {
    let y2 = clamped_y_spd(b.y_spd as int);
    let mag = x_speed_magnitude(y2);
    Ball {
        x_spd: (if b.x_spd > 0 {
            mag
        } else {
            -mag
        }) as i32,
        y_spd: y2 as i32,
        ..b
    }
}

impl Ball {
    /// Clamps the vertical speed to `±Y_SPEED_LIMIT` and recomputes the
    /// horizontal speed, keeping its sign, so the velocity magnitude returns
    /// to `BALL_MAX_SPEED` up to fixed-point rounding.
    fn limit_speed(&mut self)
        ensures
            *final(self) == ball_speed_limited(*old(self)),
            ball_wf_speed(*final(self)),
    {
        let y_limit = Y_SPEED_LIMIT;
        if self.y_spd > y_limit {
            self.y_spd = y_limit;
        } else if self.y_spd < -y_limit {
            self.y_spd = -y_limit;
        }
        proof {
            let y2 = self.y_spd as int;
            assert(0 <= y2 * y2 <= 36) by (nonlinear_arith)
                requires
                    -6 <= y2 <= 6,
            ;
        }
        let n: u32 = (BALL_MAX_SPEED * BALL_MAX_SPEED - self.y_spd * self.y_spd) as u32;
        let x_spd = isqrt(n);
        proof {
            lemma_isqrt(n as int);
            lemma_sqrt_floor_bounds(n as int, x_spd as int);
        }
        if self.x_spd > 0 {
            self.x_spd = x_spd as i32;
        } else {
            self.x_spd = -(x_spd as i32);
        }
    }

    /// Draws a perturbation, reduces it through [`perturbation_index`] to
    /// `[0, 12]`, shifts it to `[-6, 6]` scaled to tenths, adds it to the
    /// vertical speed and renormalizes; the result is [`ball_perturbed`] for
    /// the index of the value drawn.
    pub fn add_rand_y_spd<R: RandomSource>(&mut self, random: &mut R)
        ensures
            exists|n: int| *final(self) == ball_perturbed(*old(self), #[trigger] (n % 13)),
            exists|m: int| 0 <= m <= 12 && *final(self) == ball_perturbed(*old(self), m),
            ball_wf_speed(*final(self)),
            final(self).x == old(self).x,
            final(self).y == old(self).y,
            final(self).r == old(self).r,
    {
        let rnd = random.next();
        let m = perturbation_index(rnd);
        let d = 2 * (m - 6);
        let y1: i64 = self.y_spd as i64 + d as i64;
        if y1 > Y_SPEED_LIMIT as i64 {
            self.y_spd = Y_SPEED_LIMIT;
        } else if y1 < -(Y_SPEED_LIMIT as i64) {
            self.y_spd = -Y_SPEED_LIMIT;
        } else {
            self.y_spd = y1 as i32;
        }
        self.limit_speed();
        proof {
            assert(*self == ball_perturbed(*old(self), m as int));
            assert(*self == ball_perturbed(*old(self), (rnd as int) % 13));
        }
    }

    /// A paddle bounce: inverts the horizontal direction and adds the random
    /// vertical perturbation, conserving the speed magnitude.
    pub fn bounce_off_player<R: RandomSource>(&mut self, random: &mut R)
        requires
            old(self).x_spd > i32::MIN,
        ensures
            exists|n: int| *final(self) == ball_bounced(*old(self), #[trigger] (n % 13)),
            exists|m: int| 0 <= m <= 12 && *final(self) == ball_bounced(*old(self), m),
            ball_wf_speed(*final(self)),
            final(self).x == old(self).x,
            final(self).y == old(self).y,
            final(self).r == old(self).r,
    {
        self.x_spd = -self.x_spd;
        let ghost mid = *self;
        self.add_rand_y_spd(random);
        proof {
            let m = choose|m: int| 0 <= m <= 12 && *self == ball_perturbed(mid, m);
            assert(*self == ball_bounced(*old(self), m));
            let n = choose|n: int| *self == ball_perturbed(mid, #[trigger] (n % 13));
            assert(*self == ball_bounced(*old(self), n % 13));
        }
    }
}

proof fn lemma_sqrt_floor_bounds(n: int, r: int)
    requires
        is_sqrt_floor(n, r),
        189 <= n <= 225,
    ensures
        13 <= r <= 15,
{
    if r <= 12 {
        assert((r + 1) * (r + 1) <= 169) by (nonlinear_arith)
            requires
                0 <= r + 1 <= 13,
        ;
    }
    if r >= 16 {
        assert(r * r >= 256) by (nonlinear_arith)
            requires
                r >= 16,
        ;
    }
}

/// The velocity invariant pins the speed's magnitude: its square lies within
/// `2 * BALL_MAX_SPEED + 1` of `BALL_MAX_SPEED²`, the tolerance that
/// fixed-point rounding of the square root can cost.
pub proof fn lemma_speed_magnitude(b: Ball)
    requires
        ball_wf_speed(b),
    ensures
        b.x_spd * b.x_spd + b.y_spd * b.y_spd <= BALL_MAX_SPEED * BALL_MAX_SPEED,
        b.x_spd * b.x_spd + b.y_spd * b.y_spd > BALL_MAX_SPEED * BALL_MAX_SPEED - 2
            * BALL_MAX_SPEED - 1,
{
    let y = b.y_spd as int;
    let x = b.x_spd as int;
    assert(0 <= y * y <= 36) by (nonlinear_arith)
        requires
            -6 <= y <= 6,
    ;
    let n = 225 - y * y;
    lemma_isqrt(n);
    let mag = isqrt_spec(n);
    lemma_sqrt_floor_bounds(n, mag);
    assert(x * x == mag * mag) by (nonlinear_arith)
        requires
            x == mag || x == -mag,
    ;
    assert(n < (mag + 1) * (mag + 1));
    assert((mag + 1) * (mag + 1) == mag * mag + 2 * mag + 1) by (nonlinear_arith);
}

/// Every paddle bounce, whatever the perturbation drawn, leaves the ball with
/// a velocity satisfying the magnitude invariant.
pub proof fn lemma_bounce_conserves_speed(b: Ball, m: int)
    requires
        0 <= m <= 12,
    ensures
        ball_wf_speed(ball_bounced(b, m)),
{
    let y2 = clamped_y_spd(b.y_spd + 2 * (m - 6));
    assert(0 <= y2 * y2 <= 36) by (nonlinear_arith)
        requires
            -6 <= y2 <= 6,
    ;
    let n = 225 - y2 * y2;
    lemma_isqrt(n);
    lemma_sqrt_floor_bounds(n, isqrt_spec(n));
}

/// A border bounce conserves the velocity invariant: only the vertical sign
/// changes.
pub proof fn lemma_border_flip_preserves_speed(b: Ball)
    requires
        ball_wf_speed(b),
        b.y_spd > i32::MIN,
    ensures
        ball_wf_speed(ball_y_flipped(b)),
{
    let v = b.y_spd as int;
    assert((-v) * (-v) == v * v) by (nonlinear_arith);
}

/// A centered serve at full horizontal speed satisfies the velocity
/// invariant, in either direction.
pub proof fn lemma_served_wf(width: u32, height: u32)
    ensures
        ball_wf_speed(ball_served(width, height, BALL_MAX_SPEED)),
        ball_wf_speed(ball_served(width, height, (-BALL_MAX_SPEED) as i32)),
{
    lemma_isqrt_unique(225, 15);
}

/// `(px, py)` lies in the ball's closed square bounding box.
pub open spec fn point_in_ball_box(b: Ball, px: int, py: int) -> bool {
    ball_left(b) <= px <= ball_right(b) && ball_top(b) <= py <= ball_bottom(b)
}

/// `(px, py)` lies in the paddle's closed rectangle.
pub open spec fn point_in_player_rect(p: Player, px: int, py: int) -> bool {
    player_left(p) <= px <= player_right(p) && player_top(p) <= py <= player_bottom(p)
}

/// Collision symmetry: the paddle collision predicate holds exactly when the
/// ball's bounding box and the paddle's rectangle, both taken as closed
/// rectangles, share a point — so boundary touching counts as collision.
pub proof fn lemma_collision_symmetry(b: Ball, p: Player)
    ensures
        player_collision_spec(b, p) <==> exists|px: int, py: int|
            point_in_ball_box(b, px, py) && #[trigger] point_in_player_rect(p, px, py),
{
    if player_collision_spec(b, p) {
        let px = if ball_left(b) >= player_left(p) {
            ball_left(b)
        } else {
            player_left(p)
        };
        let py = if ball_top(b) >= player_top(p) {
            ball_top(b)
        } else {
            player_top(p)
        };
        assert(point_in_ball_box(b, px, py) && point_in_player_rect(p, px, py));
    }
    if exists|px: int, py: int|
        point_in_ball_box(b, px, py) && #[trigger] point_in_player_rect(p, px, py) {
        let (px, py) = choose|px: int, py: int|
            point_in_ball_box(b, px, py) && #[trigger] point_in_player_rect(p, px, py);
        assert(player_collision_spec(b, p));
    }
}

/// Directional border collision: a ball moving upward that touches or has
/// passed the top border reports a collision, while the same ball moving
/// downward does not (as long as it is short of the bottom border), and
/// symmetrically at the bottom.
pub proof fn lemma_border_directional(b: Ball, top_border: u32, bottom_border: u32)
    ensures
        b.y_spd < 0 && ball_top(b) <= 10 * top_border ==> border_collision_spec(
            b,
            top_border,
            bottom_border,
        ),
        b.y_spd < 0 && ball_top(b) > 10 * top_border ==> !border_collision_spec(
            b,
            top_border,
            bottom_border,
        ),
        b.y_spd > 0 && ball_bottom(b) >= 10 * bottom_border ==> border_collision_spec(
            b,
            top_border,
            bottom_border,
        ),
        b.y_spd > 0 && ball_bottom(b) < 10 * bottom_border ==> !border_collision_spec(
            b,
            top_border,
            bottom_border,
        ),
{
}

} // verus!
