//! The player avatar: integer position with a fractional vertical velocity.
//!
//! Velocity is held in fixed point, in tenths of a cell per physics step:
//! gravity adds `2` (0.2 cells/step) up to the terminal cap `20`
//! (2.0 cells/step), and a flap sets it to `-20` (-2.0 cells/step, an
//! instantaneous upward impulse). Each physics step the whole-cell part of
//! the velocity (truncated toward zero) is added to the vertical position.
use crate::draw::cp437_of;
use crate::draw::Color;
use crate::draw::DrawCmd;
use crate::PLAYER_OFFSET;
use vstd::prelude::*;

verus! {

/// Terminal falling velocity, in tenths of a cell per step.
pub const VELOCITY_CAP: i32 = 20;

/// Gravity's pull per physics step, in tenths of a cell per step.
pub const GRAVITY_PULL: i32 = 2;

/// Velocity set by a flap, in tenths of a cell per step.
pub const FLAP_IMPULSE: i32 = -20;

#[derive(Clone, Copy, Debug, PartialEq, Eq, Structural)]
pub struct Player {
    /// World horizontal position; advances by exactly 1 per physics step.
    pub x: i32,
    /// Vertical position, clamped to be non-negative; larger is lower.
    pub y: i32,
    /// Vertical velocity in tenths of a cell per physics step.
    pub velocity: i32,
}

/// A player as the game can produce one: never above the ceiling of the
/// world (vertical position non-negative), velocity within the flap/cap
/// band and on the even lattice that flaps and gravity increments reach.
pub open spec fn player_wf(p: Player) -> bool {
    &&& 0 <= p.y
    &&& FLAP_IMPULSE <= p.velocity <= VELOCITY_CAP
    &&& p.velocity % 2 == 0
}

/// Velocity after one application of gravity: pulled down by
/// `GRAVITY_PULL` unless already at or beyond the terminal cap.
pub open spec fn vel_after_gravity(v: int) -> int {
    if v < VELOCITY_CAP {
        v + GRAVITY_PULL
    } else {
        v
    }
}

/// The whole-cell part of a fixed-point velocity, truncated toward zero,
/// as converting a fractional velocity to an integer displacement does.
pub open spec fn fall_delta(v: int) -> int {
    if v >= 0 {
        v / 10
    } else {
        -((-v) / 10)
    }
}

/// Vertical position after one physics step from position `y` with
/// pre-step velocity `v`: gravity first, then the displacement of the
/// updated velocity, clamped at 0.
pub open spec fn y_after_gravity(y: int, v: int) -> int {
    let moved = y + fall_delta(vel_after_gravity(v));
    if moved < 0 {
        0
    } else {
        moved
    }
}

/// The player after the timed part of one tick: one physics step if the
/// accumulator overflowed, then a flap if one was asked for.
pub open spec fn stepped_player(p: Player, stepped: bool, flapped: bool) -> Player {
    let moved = if stepped {
        Player {
            x: (p.x + 1) as i32,
            y: y_after_gravity(p.y as int, p.velocity as int) as i32,
            velocity: vel_after_gravity(p.velocity as int) as i32,
        }
    } else {
        p
    };
    if flapped {
        Player { x: moved.x, y: moved.y, velocity: FLAP_IMPULSE }
    } else {
        moved
    }
}

/// The player's draw command: its glyph at the fixed screen column, at
/// its current row.
pub open spec fn player_cmd(p: Player) -> DrawCmd {
    DrawCmd::Glyph {
        x: PLAYER_OFFSET,
        y: p.y,
        fg: Color::Green,
        bg: Color::Black,
        glyph: cp437_of('@'),
    }
}

impl Player {
    /// A freshly spawned player: at the given position, at rest.
    pub fn new(x: i32, y: i32) -> (p: Player)
        ensures
            p == (Player { x, y, velocity: 0 }),
    {
        Player { x, y, velocity: 0 }
    }

    /// One physics step: gravity accelerates the fall up to the terminal
    /// cap, the whole-cell part of the velocity moves the player
    /// vertically (never below altitude 0), and the player scrolls
    /// forward by exactly one cell.
    ///
    /// Velocity never decreases here and never passes the cap; the
    /// vertical position is never negative afterwards.
    pub fn gravity_and_movement(&mut self)
        requires
            player_wf(*old(self)),
            old(self).x < i32::MAX,
            old(self).y + 2 <= i32::MAX,
        ensures
            final(self).velocity == vel_after_gravity(old(self).velocity as int),
            final(self).y == y_after_gravity(old(self).y as int, old(self).velocity as int),
            final(self).x == old(self).x + 1,
            old(self).velocity <= final(self).velocity <= VELOCITY_CAP,
            final(self).y >= 0,
            player_wf(*final(self)),
    {
        if self.velocity < VELOCITY_CAP {
            self.velocity = self.velocity + GRAVITY_PULL;
        }
        let dy: i32 = if self.velocity >= 0 {
            self.velocity / 10
        } else {
            -((-self.velocity) / 10)
        };
        self.y = self.y + dy;
        self.x = self.x + 1;
        if self.y < 0 {
            self.y = 0;
        }
    }

    /// An upward impulse: velocity becomes exactly `FLAP_IMPULSE`,
    /// whatever it was before; position is untouched.
    pub fn flap(&mut self)
        ensures
            final(self).velocity == FLAP_IMPULSE,
            final(self).x == old(self).x,
            final(self).y == old(self).y,
    {
        self.velocity = FLAP_IMPULSE;
    }

    /// The player's draw command.
    pub fn render(&self) -> (cmd: DrawCmd)
        ensures
            cmd == player_cmd(*self),
    {
        let glyph = crate::draw::glyph_of('@');
        DrawCmd::Glyph { x: PLAYER_OFFSET, y: self.y, fg: Color::Green, bg: Color::Black, glyph }
    }
}

/// Gravity leaves a velocity already at the cap exactly at the cap: once
/// terminal velocity is reached it holds, it is not exceeded.
pub proof fn lemma_velocity_cap_holds(v: int)
    requires
        v == VELOCITY_CAP,
    ensures
        vel_after_gravity(v) == VELOCITY_CAP,
{
}

/// One application of gravity never lowers a reachable velocity and
/// never drives it past the terminal cap.
pub proof fn lemma_gravity_monotone_capped(v: int)
    requires
        FLAP_IMPULSE <= v <= VELOCITY_CAP,
        v % 2 == 0,
    ensures
        v <= vel_after_gravity(v) <= VELOCITY_CAP,
{
}

/// Velocity after `n` consecutive physics steps from velocity `v`.
pub open spec fn vel_after_steps(v: int, n: nat) -> int
    decreases n,
{
    if n == 0 {
        v
    } else {
        vel_after_gravity(vel_after_steps(v, (n - 1) as nat))
    }
}

/// Gravity accumulates its fixed pull step by step until the terminal
/// cap, and holds the cap exactly from then on.
pub proof fn lemma_gravity_accumulates(v: int, n: nat)
    requires
        FLAP_IMPULSE <= v <= VELOCITY_CAP,
        v % 2 == 0,
    ensures
        vel_after_steps(v, n) == if v + GRAVITY_PULL * n < VELOCITY_CAP {
            v + GRAVITY_PULL * n
        } else {
            VELOCITY_CAP as int
        },
    decreases n,
{
    if n > 0 {
        lemma_gravity_accumulates(v, (n - 1) as nat);
    }
}

/// From rest, gravity reaches the terminal cap in exactly ten physics
/// steps — not before — and every later step holds it there: the cap is
/// reached, never exceeded.
pub proof fn lemma_cap_reached_in_ten_steps(n: nat)
    ensures
        n < 10 ==> vel_after_steps(0, n) == GRAVITY_PULL * n < VELOCITY_CAP,
        n >= 10 ==> vel_after_steps(0, n) == VELOCITY_CAP,
{
    lemma_gravity_accumulates(0, n);
}

} // verus!
