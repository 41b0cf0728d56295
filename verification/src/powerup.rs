//! Powerups: bonus items spawned ahead of the player at random.
//!
//! A powerup is activated by flying close to it. Only the coin kind has a
//! gameplay effect (it adds its carried value to the score); the other
//! three kinds are declared but left without an effect on play — they are
//! drawn and removed on activation, nothing more.
use crate::draw::cp437_of;
use crate::draw::glyph_of;
use crate::draw::Color;
use crate::draw::DrawCmd;
use crate::player::Player;
use crate::random::random_range;
use crate::PLAYER_OFFSET;
use vstd::prelude::*;

verus! {

/// Lowest row (inclusive) a powerup may spawn at.
pub const SPAWN_BAND_MIN: i32 = 10;

/// Highest row (exclusive) a powerup may spawn at.
pub const SPAWN_BAND_MAX: i32 = 60;

/// How far (inclusive) the player may be, vertically, from a powerup and
/// still activate it.
pub const ACTIVATION_REACH: i32 = 2;

/// The kind of a powerup.
#[derive(Clone, Copy, Debug, PartialEq, Eq, Structural)]
pub enum PowerType {
    /// A score bonus worth the carried value, drawn from 2 to 6.
    Coin { value: i32 },
    /// Declared but without a gameplay effect: drawn only.
    Slow,
    /// Declared but without a gameplay effect: drawn only.
    Gap,
    /// Declared but without a gameplay effect: drawn only.
    Gravity,
}

#[derive(Clone, Copy, Debug, PartialEq, Eq, Structural)]
pub struct Powerup {
    /// World column of the powerup.
    pub x: i32,
    /// Row of the powerup.
    pub y: i32,
    /// Its kind.
    pub power: PowerType,
}

/// A powerup as creation produces one: inside the spawn band, and a coin's
/// value inside the drawn range.
pub open spec fn powerup_wf(pu: Powerup) -> bool {
    &&& SPAWN_BAND_MIN <= pu.y < SPAWN_BAND_MAX
    &&& (pu.power matches PowerType::Coin { value } ==> 2 <= value < 7)
}

/// Whether the player activates the powerup: true exactly when the
/// horizontal positions are equal and the player's row is within
/// `ACTIVATION_REACH` of the powerup's row.
pub open spec fn activates(pu: Powerup, p: Player) -> bool {
    &&& p.x == pu.x
    &&& pu.y - ACTIVATION_REACH <= p.y <= pu.y + ACTIVATION_REACH
}

/// A player three rows away from a powerup does not activate it: the
/// vertical reach is exactly two rows.
pub proof fn lemma_activation_reach_is_two(pu: Powerup, p: Player)
    requires
        p.y == pu.y + 3 || p.y == pu.y - 3,
    ensures
        !activates(pu, p),
{
}

/// The score a powerup is worth on activation: a coin's carried value,
/// and 0 for every other kind.
pub open spec fn coin_value(pu: Powerup) -> int {
    match pu.power {
        PowerType::Coin { value } => value as int,
        _ => 0,
    }
}

/// The decimal digit character for `v` when `v` is a single digit, and a
/// placeholder otherwise (a coin is only ever worth a single digit).
pub open spec fn digit_char(v: int) -> char {
    if 0 <= v <= 9 {
        ((48 + v) as u8) as char
    } else {
        '#'
    }
}

/// The glyph a powerup is drawn with: a coin shows its value as a digit,
/// the others each have a fixed symbol (the gap kind a raw glyph code).
pub open spec fn powerup_glyph(power: PowerType) -> u16 {
    match power {
        PowerType::Coin { value } => cp437_of(digit_char(value as int)),
        PowerType::Gravity => cp437_of('*'),
        PowerType::Gap => 23u16,
        PowerType::Slow => cp437_of('>'),
    }
}

/// The draw command for a powerup as seen from a player at world column
/// `player_x`.
pub open spec fn powerup_cmd(pu: Powerup, player_x: int) -> DrawCmd {
    DrawCmd::Glyph {
        x: (pu.x - player_x + PLAYER_OFFSET) as i32,
        y: pu.y,
        fg: Color::Yellow,
        bg: Color::Black,
        glyph: powerup_glyph(pu.power),
    }
}

impl Powerup {
    /// A new powerup at world column `x`: its row is drawn uniformly from
    /// the spawn band and its kind uniformly from the four kinds; a coin's
    /// value is drawn from 2 to 6.
    pub fn new(x: i32) -> (pu: Powerup)
        ensures
            pu.x == x,
            powerup_wf(pu),
    {
        let y = random_range(SPAWN_BAND_MIN, SPAWN_BAND_MAX);
        let power_selector = random_range(0, 4);
        let power = if power_selector == 0 {
            PowerType::Coin { value: random_range(2, 7) }
        } else if power_selector == 1 {
            PowerType::Slow
        } else if power_selector == 2 {
            PowerType::Gap
        } else {
            PowerType::Gravity
        };
        Powerup { x, y, power }
    }

    /// Activation test against the player; see `activates` for the exact
    /// condition.
    pub fn activate(&self, player: &Player) -> (a: bool)
        requires
            powerup_wf(*self),
        ensures
            a == activates(*self, *player),
    {
        let x_does_match = player.x == self.x;
        let y_does_match = player.y <= self.y + ACTIVATION_REACH && player.y >= self.y
            - ACTIVATION_REACH;
        x_does_match && y_does_match
    }

    /// The powerup's draw command, positioned on screen relative to the
    /// player's world column.
    pub fn render(&self, player_x: i32) -> (cmd: DrawCmd)
        requires
            i32::MIN <= self.x - player_x,
            self.x - player_x + PLAYER_OFFSET <= i32::MAX,
        ensures
            cmd == powerup_cmd(*self, player_x as int),
    {
        let screen_x = self.x - player_x + PLAYER_OFFSET;
        let glyph = match self.power {
            PowerType::Coin { value } => {
                let c = if 0 <= value && value <= 9 {
                    (48 + value as u8) as char
                } else {
                    '#'
                };
                glyph_of(c)
            },
            PowerType::Gravity => glyph_of('*'),
            PowerType::Gap => 23u16,
            PowerType::Slow => glyph_of('>'),
        };
        DrawCmd::Glyph { x: screen_x, y: self.y, fg: Color::Yellow, bg: Color::Black, glyph }
    }
}

} // verus!
