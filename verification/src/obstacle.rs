//! The obstacle: a wall column with a gap the player must pass through.
//!
//! Exactly one obstacle exists at a time. Its gap center is drawn at
//! random from a fixed band, and its gap height shrinks as the score
//! rises, down to a floor of 2 — so a run gets harder the longer it lasts.
use crate::draw::cp437_of;
use crate::draw::glyph_of;
use crate::draw::Color;
use crate::draw::DrawCmd;
use crate::player::Player;
use crate::random::random_range;
use crate::PLAYER_OFFSET;
use crate::SCREEN_HEIGHT;
use vstd::prelude::*;

verus! {

/// Lowest row (inclusive) the gap's center may be drawn at.
pub const GAP_BAND_MIN: i32 = 10;

/// Highest row (exclusive) the gap's center may be drawn at.
pub const GAP_BAND_MAX: i32 = 40;

/// Total gap height for a new obstacle at the given score:
/// `max(2, 20 - score)`, non-increasing in the score with a floor of 2.
pub open spec fn gap_size(score: int) -> int {
    if 20 - score > 2 {
        20 - score
    } else {
        2
    }
}

#[derive(Clone, Copy, Debug, PartialEq, Eq, Structural)]
pub struct Obstacle {
    /// World column of the gap.
    pub x: i32,
    /// Vertical center of the passable gap.
    pub gap_y: i32,
    /// Total gap height.
    pub size: i32,
}

/// An obstacle as creation produces one: gap center inside the fixed
/// band, gap height between the floor of 2 and the height at score 0.
pub open spec fn obstacle_wf(o: Obstacle) -> bool {
    &&& GAP_BAND_MIN <= o.gap_y < GAP_BAND_MAX
    &&& 2 <= o.size <= 20
}

/// Whether the player collides with the obstacle: true exactly when the
/// horizontal positions are equal and the player's vertical position lies
/// strictly outside the gap band `[gap_y - size/2, gap_y + size/2]`
/// (half the size, truncated). The exact boundary rows are safe.
pub open spec fn hit_spec(o: Obstacle, p: Player) -> bool {
    let half = o.size / 2;
    &&& p.x == o.x
    &&& (p.y < o.gap_y - half || p.y > o.gap_y + half)
}

/// One wall cell of an obstacle column at screen position `(x, y)`.
pub open spec fn wall_cell(x: int, y: int) -> DrawCmd {
    DrawCmd::Glyph {
        x: x as i32,
        y: y as i32,
        fg: Color::Red,
        bg: Color::Black,
        glyph: cp437_of('|'),
    }
}

/// The draw commands for an obstacle as seen from a player at world
/// column `player_x`: wall cells from the top of the screen down to the
/// gap, and from below the gap to the bottom, at the screen column
/// `x - player_x + PLAYER_OFFSET`.
pub open spec fn obstacle_cmds(o: Obstacle, player_x: int) -> Seq<DrawCmd> {
    let sx = o.x - player_x + PLAYER_OFFSET;
    let half = o.size / 2;
    let gap_top = o.gap_y - half;
    let gap_bottom = o.gap_y + half;
    Seq::new(gap_top as nat, |i: int| wall_cell(sx, i)) + Seq::new(
        (SCREEN_HEIGHT - gap_bottom) as nat,
        |i: int| wall_cell(sx, gap_bottom + i),
    )
}

impl Obstacle {
    /// A new obstacle at world column `x` for the given score: the gap's
    /// center is drawn uniformly from the fixed band, and the gap height
    /// is exactly `max(2, 20 - score)` — for a score of 18 or more, the
    /// floor of 2.
    pub fn new(x: i32, score: i32) -> (o: Obstacle)
        requires
            0 <= score,
        ensures
            o.x == x,
            GAP_BAND_MIN <= o.gap_y < GAP_BAND_MAX,
            o.size == gap_size(score as int),
            obstacle_wf(o),
    {
        let gap_y = random_range(GAP_BAND_MIN, GAP_BAND_MAX);
        let size = if 20 - score > 2 {
            20 - score
        } else {
            2
        };
        Obstacle { x, gap_y, size }
    }

    /// Collision test against the player; see `hit_spec` for the exact
    /// condition.
    pub fn hit_obstacle(&self, player: &Player) -> (hit: bool)
        requires
            obstacle_wf(*self),
        ensures
            hit == hit_spec(*self, *player),
    {
        let half_size = self.size / 2;
        let does_x_match = player.x == self.x;
        let player_above_gap = player.y < self.gap_y - half_size;
        let player_below_gap = player.y > self.gap_y + half_size;
        does_x_match && (player_above_gap || player_below_gap)
    }

    /// The obstacle's draw commands: a wall column with the gap left
    /// open, positioned on screen relative to the player's world column.
    pub fn render(&self, player_x: i32) -> (cmds: Vec<DrawCmd>)
        requires
            obstacle_wf(*self),
            i32::MIN <= self.x - player_x,
            self.x - player_x + PLAYER_OFFSET <= i32::MAX,
        ensures
            cmds@ == obstacle_cmds(*self, player_x as int),
    {
        let mut cmds: Vec<DrawCmd> = Vec::new();
        let screen_x = self.x - player_x + PLAYER_OFFSET;
        let half_size = self.size / 2;
        let gap_top = self.gap_y - half_size;
        let gap_bottom = self.gap_y + half_size;
        let wall = glyph_of('|');
        let ghost sx = screen_x as int;
        let ghost top_part = Seq::new(gap_top as nat, |i: int| wall_cell(sx, i));
        let ghost bottom_part = Seq::new(
            (SCREEN_HEIGHT - gap_bottom) as nat,
            |i: int| wall_cell(sx, gap_bottom + i),
        );
        let mut y: i32 = 0;
        while y < gap_top
            invariant
                0 <= y <= gap_top,
                gap_top <= 40,
                cmds@ == top_part.take(y as int),
                top_part == Seq::new(gap_top as nat, |i: int| wall_cell(sx, i)),
                wall == cp437_of('|'),
                sx == screen_x as int,
            decreases gap_top - y,
        {
            cmds.push(DrawCmd::Glyph { x: screen_x, y, fg: Color::Red, bg: Color::Black, glyph: wall });
            proof {
                assert(cmds@ =~= top_part.take(y + 1));
            }
            y = y + 1;
        }
        assert(cmds@ =~= top_part);
        let mut y2: i32 = gap_bottom;
        while y2 < SCREEN_HEIGHT
            invariant
                gap_bottom <= y2 <= SCREEN_HEIGHT,
                11 <= gap_bottom,
                cmds@ == top_part + bottom_part.take(y2 - gap_bottom),
                bottom_part == Seq::new(
                    (SCREEN_HEIGHT - gap_bottom) as nat,
                    |i: int| wall_cell(sx, gap_bottom + i),
                ),
                wall == cp437_of('|'),
                sx == screen_x as int,
            decreases SCREEN_HEIGHT - y2,
        {
            cmds.push(DrawCmd::Glyph { x: screen_x, y: y2, fg: Color::Red, bg: Color::Black, glyph: wall });
            proof {
                assert(cmds@ =~= top_part + bottom_part.take(y2 + 1 - gap_bottom));
            }
            y2 = y2 + 1;
        }
        proof {
            assert(cmds@ =~= obstacle_cmds(*self, player_x as int));
        }
        cmds
    }
}

/// The gap-size floor: at a score of 18 or more, a new obstacle's gap
/// height is exactly 2 — difficulty stops tightening there.
pub proof fn lemma_gap_size_floor(score: int)
    requires
        score >= 18,
    ensures
        gap_size(score) == 2,
{
}

/// At the exact boundary rows of the gap band — `gap_y ± size/2` — no
/// collision is reported: the band's edges are passable.
pub proof fn lemma_gap_boundary_is_safe(o: Obstacle, p: Player)
    requires
        0 <= o.size,
        p.y == o.gap_y - o.size / 2 || p.y == o.gap_y + o.size / 2,
    ensures
        !hit_spec(o, p),
{
}

} // verus!
