//! A paddle: the rectangle a player moves along one vertical edge of the
//! field.  Positions and sizes are in whole field units.  `x`, `width` and
//! `height` are fixed at creation; only `y` (the top edge) moves, and the
//! movement operations clamp it so the paddle never leaves the field.

use vstd::prelude::*;

verus! {

#[derive(Clone, Copy, Debug, PartialEq, Eq, Structural)]
pub struct Player {
    pub x: i32,
    pub y: i32,
    pub width: u32,
    pub height: u32,
}

/// Paddle bound to the left edge: 2 units wide, a quarter of the field tall,
/// starting at three eighths of the field height.
pub open spec fn player1_spec(width: u32, height: u32) -> Player {
    Player {
        x: 0,
        y: (3 * height / 8) as i32,
        width: 2,
        height: (height / 4) as u32,
    }
}

/// Paddle bound to the right edge, at the same vertical start as player 1.
pub open spec fn player2_spec(width: u32, height: u32) -> Player {
    Player {
        x: (width - 2) as i32,
        y: (3 * height / 8) as i32,
        width: 2,
        height: (height / 4) as u32,
    }
}

/// New top edge after moving up by `up` (negative `up` moves down), clamped
/// from below at `limit`.
pub open spec fn moved_up_y(y: int, up: int, limit: int) -> int {
    if y - up < limit {
        limit
    } else {
        y - up
    }
}

/// New top edge after moving down by `-down` (`down` is negative in the
/// engine's delta convention), clamped so the bottom edge `y + height` never
/// passes `limit`.
pub open spec fn moved_down_y(y: int, down: int, limit: int, height: int) -> int {
    if y - down + height > limit {
        limit - height
    } else {
        y - down
    }
}

/// The paddle `p` sits inside a field of the given height: its top edge is at
/// or below the field top and its bottom edge at or above the field bottom.
pub open spec fn player_in_field(p: Player, height: u32) -> bool {
    0 <= p.y && p.y + p.height <= height
}

impl Player {
    pub fn player1(_width: u32, height: u32) -> (p: Player)
        requires
            height <= u32::MAX / 3,
        ensures
            p == player1_spec(_width, height),
    {
        Player {
            x: 0,
            y: (3 * height / 8) as i32,
            width: 2,
            height: height / 4,
        }
    }

    pub fn player2(width: u32, height: u32) -> (p: Player)
        requires
            2 <= width <= i32::MAX,
            height <= u32::MAX / 3,
        ensures
            p == player2_spec(width, height),
    {
        Player {
            x: (width - 2) as i32,
            y: (3 * height / 8) as i32,
            width: 2,
            height: height / 4,
        }
    }

    /// Decreases `y` by `up`, clamped from below at `up_limit`.
    pub fn move_up(&mut self, up: i32, up_limit: u32)
        requires
            up_limit <= i32::MAX,
            old(self).y - up <= i32::MAX,
        ensures
            final(self).y == moved_up_y(old(self).y as int, up as int, up_limit as int),
            final(self).x == old(self).x,
            final(self).width == old(self).width,
            final(self).height == old(self).height,
    {
        let ny: i64 = self.y as i64 - up as i64;
        if ny < up_limit as i64 {
            self.y = up_limit as i32;
        } else {
            self.y = ny as i32;
        }
    }

    /// Decreases `y` by `down` (the engine passes a negative `down`, so the
    /// paddle moves toward the bottom), clamped so that the bottom edge
    /// `y + height` never passes `down_limit`.
    pub fn move_down(&mut self, down: i32, down_limit: u32)
        requires
            down_limit <= i32::MAX,
            old(self).height <= down_limit,
            old(self).y - down >= i32::MIN,
        ensures
            final(self).y == moved_down_y(
                old(self).y as int,
                down as int,
                down_limit as int,
                old(self).height as int,
            ),
            final(self).x == old(self).x,
            final(self).width == old(self).width,
            final(self).height == old(self).height,
    {
        let ny: i64 = self.y as i64 - down as i64;
        if ny + self.height as i64 > down_limit as i64 {
            self.y = (down_limit - self.height) as i32;
        } else {
            self.y = ny as i32;
        }
    }
}

/// One tick of paddle movement under the engine's delta convention: a
/// positive delta moves the paddle up (toward `y = 0`, clamped there), a
/// negative delta moves it down (clamped so it stays above the field bottom),
/// zero leaves it in place.
pub open spec fn player_step_spec(p: Player, delta: int, height: u32) -> Player {
    if delta > 0 {
        Player { y: moved_up_y(p.y as int, delta, 0) as i32, ..p }
    } else if delta < 0 {
        Player {
            y: moved_down_y(p.y as int, delta, height as int, p.height as int) as i32,
            ..p
        }
    } else {
        p
    }
}

/// The paddle after a whole sequence of per-tick deltas.
pub open spec fn player_after_deltas(p: Player, deltas: Seq<int>, height: u32) -> Player
    decreases deltas.len(),
{
    if deltas.len() == 0 {
        p
    } else {
        player_step_spec(player_after_deltas(p, deltas.drop_last(), height), deltas.last(), height)
    }
}

/// Paddle clamping: starting inside the field, a paddle stays inside the
/// field (`0 <= y` and `y + height <= field height`) after any sequence of
/// per-tick movement deltas, whatever their values; only `y` ever changes.
pub proof fn lemma_paddle_clamping(p: Player, deltas: Seq<int>, height: u32)
    requires
        player_in_field(p, height),
        height <= crate::MAX_FIELD,
    ensures
        player_in_field(player_after_deltas(p, deltas, height), height),
        player_after_deltas(p, deltas, height).x == p.x,
        player_after_deltas(p, deltas, height).width == p.width,
        player_after_deltas(p, deltas, height).height == p.height,
    decreases deltas.len(),
{
    if deltas.len() > 0 {
        lemma_paddle_clamping(p, deltas.drop_last(), height);
    }
}

} // verus!
