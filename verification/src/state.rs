//! The game session: mode state machine, per-tick orchestration, score.
//!
//! The session owns the player, the single obstacle and the powerup pool.
//! Each tick the shell hands in the elapsed time and an optional key; the
//! session dispatches on the current mode, advances the simulation, and
//! returns the draw commands and whether the process should exit.
//!
//! Physics is decoupled from the render cadence: elapsed time accumulates,
//! and exactly one physics step runs each time the accumulator passes the
//! fixed step length, whatever the frame rate does.
use crate::draw::Color;
use crate::draw::DrawCmd;
use crate::draw::Msg;
use crate::obstacle::gap_size;
use crate::obstacle::hit_spec;
use crate::obstacle::obstacle_cmds;
use crate::obstacle::obstacle_wf;
use crate::obstacle::Obstacle;
use crate::obstacle::GAP_BAND_MAX;
use crate::obstacle::GAP_BAND_MIN;
use crate::player::player_cmd;
use crate::player::player_wf;
use crate::player::stepped_player;
use crate::player::Player;
use crate::powerup::activates;
use crate::powerup::coin_value;
use crate::powerup::powerup_cmd;
use crate::powerup::powerup_wf;
use crate::powerup::PowerType;
use crate::powerup::Powerup;
use crate::random::random_range;
use crate::FRAME_DURATION;
use crate::PLAYER_OFFSET;
use crate::SCREEN_HEIGHT;
use crate::SCREEN_WIDTH;
use vstd::prelude::*;

verus! {

/// World column the player spawns at.
pub const PLAYER_SPAWN_X: i32 = 5;

/// Row the player spawns at.
pub const PLAYER_SPAWN_Y: i32 = 25;

/// The game's mode: the menu, a live run, or the end screen.
#[derive(Clone, Copy, Debug, PartialEq, Eq, Structural)]
pub enum GameMode {
    Menu,
    Playing,
    End,
}

/// A key signal from the shell; at most one arrives per tick.
#[derive(Clone, Copy, Debug, PartialEq, Eq, Structural)]
pub enum Key {
    /// Flap upward (in play).
    Flap,
    /// Abandon the run (in play).
    Escape,
    /// Start or restart a run (menu and end screen).
    Play,
    /// Back to the main menu (end screen).
    MainMenu,
    /// Exit the process (menu and end screen).
    Quit,
}

/// What one tick hands back to the shell: the draw commands for the
/// frame, and whether the process should exit.
pub struct TickOutput {
    pub draws: Vec<DrawCmd>,
    pub quitting: bool,
}

/// The whole game session.
pub struct State {
    pub player: Player,
    /// Elapsed time accumulated toward the next physics step.
    pub frame_time: u32,
    pub mode: GameMode,
    pub obstacle: Obstacle,
    pub score: i32,
    pub powerups: Vec<Powerup>,
}

/// A session as play produces one: every part well formed, the obstacle
/// at most one screen ahead of the player and never behind it, every
/// powerup ahead of the trailing visible boundary, and — while a run is
/// live — the player still on screen.
pub open spec fn state_wf(s: State) -> bool {
    &&& player_wf(s.player)
    &&& PLAYER_SPAWN_X <= s.player.x
    &&& obstacle_wf(s.obstacle)
    &&& 0 <= s.obstacle.x - s.player.x <= SCREEN_WIDTH
    &&& 0 <= s.score
    &&& s.frame_time <= FRAME_DURATION
    &&& (forall|i: int| 0 <= i < s.powerups@.len() ==> powerup_wf(#[trigger] s.powerups@[i]))
    &&& (forall|i: int|
        0 <= i < s.powerups@.len() ==> s.player.x - PLAYER_OFFSET < (
        #[trigger] s.powerups@[i]).x <= i32::MAX - PLAYER_OFFSET)
    &&& (s.mode is Playing ==> s.player.y <= SCREEN_HEIGHT)
}

/// The two values are the same game state (the pool compared by its
/// contents).
pub open spec fn same_state(a: State, b: State) -> bool {
    &&& a.player == b.player
    &&& a.frame_time == b.frame_time
    &&& a.mode == b.mode
    &&& a.obstacle == b.obstacle
    &&& a.score == b.score
    &&& a.powerups@ == b.powerups@
}

/// What a restart leaves behind: score cleared, the player back at its
/// spawn state, the timer cleared, a fresh obstacle one screen into the
/// world sized for score 0, mode Playing — and the powerup pool exactly
/// as it was: stale powerups survive a restart, as the game has always
/// behaved.
pub open spec fn restarted(pre: State, post: State) -> bool {
    &&& post.mode is Playing
    &&& post.score == 0
    &&& post.player == (Player { x: PLAYER_SPAWN_X, y: PLAYER_SPAWN_Y, velocity: 0 })
    &&& post.frame_time == 0
    &&& post.obstacle.x == SCREEN_WIDTH
    &&& post.obstacle.size == gap_size(0)
    &&& GAP_BAND_MIN <= post.obstacle.gap_y < GAP_BAND_MAX
    &&& post.powerups@ == pre.powerups@
}

/// The run-ending condition: the player has fallen off the visible
/// screen, or collides with the obstacle, or an escape input arrived.
pub open spec fn end_condition(s: State, key: Option<Key>) -> bool {
    ||| s.player.y > SCREEN_HEIGHT
    ||| hit_spec(s.obstacle, s.player)
    ||| key == Some(Key::Escape)
}

/// Pool position of the first powerup at or after position `i` that the
/// player activates, or the pool's length when none is — the first match
/// in iteration order wins, the documented tie-break when several
/// coincide.
pub open spec fn first_activated_from(ps: Seq<Powerup>, p: Player, i: int) -> int
    decreases ps.len() - i,
{
    if i < 0 || i >= ps.len() {
        ps.len() as int
    } else if activates(ps[i], p) {
        i
    } else {
        first_activated_from(ps, p, i + 1)
    }
}

/// Pool position of the first powerup the player activates, or the
/// pool's length when none is.
pub open spec fn first_activated(ps: Seq<Powerup>, p: Player) -> int {
    first_activated_from(ps, p, 0)
}

/// The first activated position searched from `i` lies between `i` and
/// the pool's length.
pub proof fn lemma_first_activated_from_range(ps: Seq<Powerup>, p: Player, i: int)
    requires
        0 <= i <= ps.len(),
    ensures
        i <= first_activated_from(ps, p, i) <= ps.len(),
    decreases ps.len() - i,
{
    if i < ps.len() && !activates(ps[i], p) {
        lemma_first_activated_from_range(ps, p, i + 1);
    }
}

/// The pool after pruning at player column `px`: exactly the powerups
/// still ahead of the trailing visible boundary, in pool order.
pub open spec fn pruned(ps: Seq<Powerup>, px: int) -> Seq<Powerup>
    decreases ps.len(),
{
    if ps.len() == 0 {
        Seq::empty()
    } else {
        let rest = pruned(ps.drop_last(), px);
        if ps.last().x > px - PLAYER_OFFSET {
            rest.push(ps.last())
        } else {
            rest
        }
    }
}

/// The draw commands for a pool of powerups, in pool order, as seen from
/// a player at world column `px`.
pub open spec fn powerup_cmds(ps: Seq<Powerup>, px: int) -> Seq<DrawCmd> {
    Seq::new(ps.len(), |i: int| powerup_cmd(ps[i], px))
}

/// The draw commands for the whole field: the player, the obstacle's wall
/// columns, then each powerup in pool order.
pub open spec fn field_cmds(p: Player, o: Obstacle, ps: Seq<Powerup>) -> Seq<DrawCmd> {
    seq![player_cmd(p)] + obstacle_cmds(o, p.x as int) + powerup_cmds(ps, p.x as int)
}

/// The draw commands of one Playing-mode tick: background clear, the two
/// header lines (the score as it stood when the tick began), then the
/// field as it stands after the timed physics and the flap input, before
/// the tick's events are evaluated.
pub open spec fn play_cmds(pre: State, key: Option<Key>, delta: u32) -> Seq<DrawCmd> {
    let stepped = pre.frame_time + delta > FRAME_DURATION;
    let flapped = key == Some(Key::Flap);
    let p_step = stepped_player(pre.player, stepped, flapped);
    seq![
        DrawCmd::ClearBg { bg: Color::Navy },
        DrawCmd::Text { x: 0, y: 0, msg: Msg::FlapHint },
        DrawCmd::Text { x: 0, y: 1, msg: Msg::ScoreLine { score: pre.score } },
    ] + field_cmds(p_step, pre.obstacle, pre.powerups@)
}

/// The draw commands of the main menu.
pub open spec fn menu_cmds() -> Seq<DrawCmd> {
    seq![
        DrawCmd::Clear,
        DrawCmd::TextCentered { y: 5, msg: Msg::MenuTitle },
        DrawCmd::TextCentered { y: 8, msg: Msg::MenuPlay },
        DrawCmd::TextCentered { y: 9, msg: Msg::MenuQuit },
    ]
}

/// The draw commands of the end screen, showing the run's final score.
pub open spec fn dead_cmds(score: i32) -> Seq<DrawCmd> {
    seq![
        DrawCmd::Clear,
        DrawCmd::TextCentered { y: 5, msg: Msg::DeadTitle },
        DrawCmd::TextCentered { y: 6, msg: Msg::DeadScore { score } },
        DrawCmd::TextCentered { y: 8, msg: Msg::DeadMenu },
        DrawCmd::TextCentered { y: 9, msg: Msg::DeadPlayAgain },
        DrawCmd::TextCentered { y: 10, msg: Msg::DeadQuit },
    ]
}

/// The Menu-mode transition: a play input starts a run, a quit input
/// requests exit, anything else changes nothing.
pub open spec fn menu_rel(pre: State, post: State, key: Option<Key>, quitting: bool) -> bool {
    match key {
        Some(Key::Play) => restarted(pre, post) && !quitting,
        Some(Key::Quit) => same_state(pre, post) && quitting,
        _ => same_state(pre, post) && !quitting,
    }
}

/// Everything but the mode is the same game state.
pub open spec fn unchanged_but_mode(pre: State, post: State) -> bool {
    &&& post.player == pre.player
    &&& post.frame_time == pre.frame_time
    &&& post.obstacle == pre.obstacle
    &&& post.score == pre.score
    &&& post.powerups@ == pre.powerups@
}

/// The End-mode transition: back to the menu, play again, request exit,
/// or nothing.
pub open spec fn dead_rel(pre: State, post: State, key: Option<Key>, quitting: bool) -> bool {
    match key {
        Some(Key::MainMenu) => post.mode is Menu && unchanged_but_mode(pre, post) && !quitting,
        Some(Key::Play) => restarted(pre, post) && !quitting,
        Some(Key::Quit) => same_state(pre, post) && quitting,
        _ => same_state(pre, post) && !quitting,
    }
}

/// The Playing-mode transition relation: how one tick of a live run may
/// change the state. It is deterministic in everything but the two
/// random draws — a replacement obstacle's gap center, and whether (and
/// as what) a powerup spawns.
pub open spec fn play_rel(pre: State, post: State, key: Option<Key>, delta: u32) -> bool {
    let stepped = pre.frame_time + delta > FRAME_DURATION;
    let flapped = key == Some(Key::Flap);
    let p_step = stepped_player(pre.player, stepped, flapped);
    let passed = p_step.x > pre.obstacle.x;
    let score1: int = if passed {
        pre.score + 1
    } else {
        pre.score as int
    };
    let ended = p_step.y > SCREEN_HEIGHT || hit_spec(post.obstacle, p_step) || key == Some(Key::Escape);
    let ps = pre.powerups@;
    let j = first_activated(ps, p_step);
    let score2: int = if j < ps.len() {
        score1 + coin_value(ps[j])
    } else {
        score1
    };
    let ps1 = if j < ps.len() {
        ps.remove(j)
    } else {
        ps
    };
    let ps2 = pruned(ps1, p_step.x as int);
    &&& post.frame_time == if stepped {
        0int
    } else {
        pre.frame_time + delta
    }
    &&& post.player == p_step
    &&& (passed ==> post.obstacle.x == p_step.x + SCREEN_WIDTH && post.obstacle.size == gap_size(score1)
        && GAP_BAND_MIN <= post.obstacle.gap_y < GAP_BAND_MAX)
    &&& (!passed ==> post.obstacle == pre.obstacle)
    &&& post.mode == (if ended {
        GameMode::End
    } else {
        GameMode::Playing
    })
    &&& post.score == score2
    &&& (post.powerups@ == ps2 || (post.powerups@.len() == ps2.len() + 1 && post.powerups@
        == ps2.push(post.powerups@.last()) && post.powerups@.last().x == p_step.x + SCREEN_WIDTH
        && powerup_wf(post.powerups@.last())))
}

impl State {
    /// A fresh session: at the menu, score 0, the player at its spawn
    /// state, a fresh obstacle one screen into the world, no powerups.
    pub fn new() -> (s: State)
        ensures
            s.mode is Menu,
            s.score == 0,
            s.player == (Player { x: PLAYER_SPAWN_X, y: PLAYER_SPAWN_Y, velocity: 0 }),
            s.frame_time == 0,
            s.obstacle.x == SCREEN_WIDTH,
            s.obstacle.size == gap_size(0),
            s.powerups@ == Seq::<Powerup>::empty(),
            state_wf(s),
    {
        State {
            player: Player::new(PLAYER_SPAWN_X, PLAYER_SPAWN_Y),
            frame_time: 0,
            mode: GameMode::Menu,
            obstacle: Obstacle::new(SCREEN_WIDTH, 0),
            score: 0,
            powerups: Vec::new(),
        }
    }

    /// Reset for a new run; see `restarted` for exactly what is cleared.
    /// The powerup pool is deliberately left as it stands.
    pub fn restart(&mut self)
        requires
            state_wf(*old(self)),
        ensures
            restarted(*old(self), *final(self)),
            state_wf(*final(self)),
    {
        self.player = Player::new(PLAYER_SPAWN_X, PLAYER_SPAWN_Y);
        self.frame_time = 0;
        self.mode = GameMode::Playing;
        self.obstacle = Obstacle::new(SCREEN_WIDTH, 0);
        self.score = 0;
    }

    /// If the player's column has passed the obstacle's, score one point
    /// and replace the obstacle by a fresh one a whole screen ahead,
    /// sized for the new score; otherwise nothing changes.
    pub fn pass_obstacle(&mut self)
        requires
            0 <= old(self).score < i32::MAX,
            old(self).player.x + SCREEN_WIDTH <= i32::MAX,
        ensures
            old(self).player.x > old(self).obstacle.x ==> {
                &&& final(self).score == old(self).score + 1
                &&& final(self).obstacle.x == old(self).player.x + SCREEN_WIDTH
                &&& final(self).obstacle.size == gap_size(old(self).score + 1)
                &&& GAP_BAND_MIN <= final(self).obstacle.gap_y < GAP_BAND_MAX
                &&& obstacle_wf(final(self).obstacle)
            },
            old(self).player.x <= old(self).obstacle.x ==> final(self).score == old(self).score
                && final(self).obstacle == old(self).obstacle,
            final(self).player == old(self).player,
            final(self).mode == old(self).mode,
            final(self).frame_time == old(self).frame_time,
            final(self).powerups@ == old(self).powerups@,
    {
        if self.player.x > self.obstacle.x {
            self.score = self.score + 1;
            self.obstacle = Obstacle::new(self.player.x + SCREEN_WIDTH, self.score);
        }
    }

    /// Evaluate the run-ending conditions: if any holds, the mode moves
    /// to End; nothing else changes either way.
    pub fn end_game(&mut self, key: Option<Key>)
        requires
            obstacle_wf(old(self).obstacle),
        ensures
            final(self).mode == if end_condition(*old(self), key) {
                GameMode::End
            } else {
                old(self).mode
            },
            final(self).player == old(self).player,
            final(self).obstacle == old(self).obstacle,
            final(self).score == old(self).score,
            final(self).frame_time == old(self).frame_time,
            final(self).powerups@ == old(self).powerups@,
    {
        let off_screen = self.player.y > SCREEN_HEIGHT;
        let hit_obstacle = self.obstacle.hit_obstacle(&self.player);
        let mut press_escape = false;
        if let Some(Key::Escape) = key {
            press_escape = true;
        }
        if off_screen || hit_obstacle || press_escape {
            self.mode = GameMode::End;
        }
    }

    /// Scan the pool for at most one activated powerup — the first in
    /// iteration order wins. A coin adds its carried value to the score;
    /// every other kind changes nothing. The one activated powerup is
    /// removed from the pool.
    pub fn activate_powerup(&mut self)
        requires
            0 <= old(self).score <= i32::MAX - 6,
            forall|i: int|
                0 <= i < old(self).powerups@.len() ==> powerup_wf(#[trigger] old(self).powerups@[i]),
        ensures
            ({
                let ps = old(self).powerups@;
                let j = first_activated(ps, old(self).player);
                &&& (j == ps.len() ==> final(self).score == old(self).score && final(self).powerups@
                    == ps)
                &&& (j < ps.len() ==> final(self).score == old(self).score + coin_value(ps[j])
                    && final(self).powerups@ == ps.remove(j))
            }),
            old(self).score <= final(self).score <= old(self).score + 6,
            final(self).player == old(self).player,
            final(self).mode == old(self).mode,
            final(self).obstacle == old(self).obstacle,
            final(self).frame_time == old(self).frame_time,
    {
        let found = first_activated_index(&self.powerups, &self.player);
        if let Some(j) = found {
            let item = self.powerups[j];
            match item.power {
                PowerType::Coin { value } => {
                    self.score = self.score + value;
                },
                _ => {},
            }
            self.powerups.remove(j);
        }
    }

    /// Drop every powerup that has scrolled behind the player's trailing
    /// visible boundary, keeping the rest in pool order.
    pub fn prune_powerups(&mut self)
        requires
            i32::MIN + PLAYER_OFFSET <= old(self).player.x,
            forall|i: int|
                0 <= i < old(self).powerups@.len() ==> powerup_wf(#[trigger] old(self).powerups@[i])
                    && old(self).powerups@[i].x <= i32::MAX - PLAYER_OFFSET,
        ensures
            final(self).powerups@ == pruned(old(self).powerups@, old(self).player.x as int),
            forall|i: int|
                0 <= i < final(self).powerups@.len() ==> powerup_wf(
                    #[trigger] final(self).powerups@[i],
                ) && old(self).player.x - PLAYER_OFFSET < final(self).powerups@[i].x <= i32::MAX
                    - PLAYER_OFFSET,
            final(self).player == old(self).player,
            final(self).mode == old(self).mode,
            final(self).obstacle == old(self).obstacle,
            final(self).score == old(self).score,
            final(self).frame_time == old(self).frame_time,
    {
        let bound = self.player.x - PLAYER_OFFSET;
        let n = self.powerups.len();
        let mut kept: Vec<Powerup> = Vec::new();
        let mut i: usize = 0;
        while i < n
            invariant
                0 <= i <= n,
                n == self.powerups@.len(),
                bound == self.player.x - PLAYER_OFFSET,
                forall|k: int|
                    0 <= k < self.powerups@.len() ==> powerup_wf(#[trigger] self.powerups@[k])
                        && self.powerups@[k].x <= i32::MAX - PLAYER_OFFSET,
                kept@ == pruned(self.powerups@.take(i as int), self.player.x as int),
                forall|k: int|
                    0 <= k < kept@.len() ==> powerup_wf(#[trigger] kept@[k]) && bound < kept@[k].x
                        <= i32::MAX - PLAYER_OFFSET,
            decreases n - i,
        {
            let pu = self.powerups[i];
            if pu.x > bound {
                kept.push(pu);
            }
            proof {
                let prefix = self.powerups@.take((i + 1) as int);
                assert(prefix.drop_last() =~= self.powerups@.take(i as int));
                assert(prefix.last() == self.powerups@[i as int]);
                assert(kept@ == pruned(prefix, self.player.x as int));
            }
            i = i + 1;
        }
        proof {
            assert(self.powerups@.take(n as int) =~= self.powerups@);
        }
        self.powerups = kept;
    }

    /// With a fixed one-in-ten chance, spawn exactly one new powerup a
    /// whole screen ahead of the player; otherwise the pool is untouched.
    pub fn spawn_powerup(&mut self)
        requires
            old(self).player.x + SCREEN_WIDTH + PLAYER_OFFSET <= i32::MAX,
        ensures
            final(self).powerups@ == old(self).powerups@ || (final(self).powerups@.len() == old(
                self,
            ).powerups@.len() + 1 && final(self).powerups@ == old(self).powerups@.push(
                final(self).powerups@.last(),
            ) && final(self).powerups@.last().x == old(self).player.x + SCREEN_WIDTH && powerup_wf(
                final(self).powerups@.last(),
            )),
            final(self).player == old(self).player,
            final(self).mode == old(self).mode,
            final(self).obstacle == old(self).obstacle,
            final(self).score == old(self).score,
            final(self).frame_time == old(self).frame_time,
    {
        let create_powerup = random_range(0, 10) == 0;
        if create_powerup {
            let pu = Powerup::new(self.player.x + SCREEN_WIDTH);
            self.powerups.push(pu);
        }
    }

    /// Draw commands for the whole field: the player, the obstacle's wall
    /// columns, then each powerup in pool order.
    pub fn render_all(&self) -> (cmds: Vec<DrawCmd>)
        requires
            obstacle_wf(self.obstacle),
            i32::MIN <= self.obstacle.x - self.player.x,
            self.obstacle.x - self.player.x + PLAYER_OFFSET <= i32::MAX,
            forall|i: int|
                0 <= i < self.powerups@.len() ==> i32::MIN <= (#[trigger] self.powerups@[i]).x
                    - self.player.x && self.powerups@[i].x - self.player.x + PLAYER_OFFSET
                    <= i32::MAX,
        ensures
            cmds@ == field_cmds(self.player, self.obstacle, self.powerups@),
    {
        let mut cmds: Vec<DrawCmd> = Vec::new();
        cmds.push(self.player.render());
        let mut ob = self.obstacle.render(self.player.x);
        cmds.append(&mut ob);
        let ghost head = seq![player_cmd(self.player)] + obstacle_cmds(
            self.obstacle,
            self.player.x as int,
        );
        assert(cmds@ =~= head);
        let n = self.powerups.len();
        let mut i: usize = 0;
        while i < n
            invariant
                0 <= i <= n,
                n == self.powerups@.len(),
                forall|k: int|
                    0 <= k < self.powerups@.len() ==> i32::MIN <= (#[trigger] self.powerups@[k]).x
                        - self.player.x && self.powerups@[k].x - self.player.x + PLAYER_OFFSET
                        <= i32::MAX,
                head == seq![player_cmd(self.player)] + obstacle_cmds(
                    self.obstacle,
                    self.player.x as int,
                ),
                cmds@ == head + powerup_cmds(
                    self.powerups@.take(i as int),
                    self.player.x as int,
                ),
            decreases n - i,
        {
            let c = self.powerups[i].render(self.player.x);
            cmds.push(c);
            proof {
                assert(cmds@ =~= head + powerup_cmds(
                    self.powerups@.take((i + 1) as int),
                    self.player.x as int,
                ));
            }
            i = i + 1;
        }
        proof {
            assert(self.powerups@.take(n as int) =~= self.powerups@);
            assert(cmds@ =~= field_cmds(self.player, self.obstacle, self.powerups@));
        }
        cmds
    }

    /// One tick of a live run. In order: the
    /// elapsed time accumulates and at most one physics step runs; a flap
    /// input is applied; the frame's draw commands are collected; a
    /// passed obstacle scores and is replaced; the end conditions are
    /// evaluated; at most one powerup activates; stale powerups are
    /// pruned; and with a fixed chance one new powerup spawns.
    pub fn play(&mut self, key: Option<Key>, delta: u32) -> (draws: Vec<DrawCmd>)
        requires
            state_wf(*old(self)),
            old(self).mode is Playing,
            delta <= u32::MAX - FRAME_DURATION,
            old(self).player.x + SCREEN_WIDTH + PLAYER_OFFSET + 1 <= i32::MAX,
            old(self).score <= i32::MAX - 7,
        ensures
            state_wf(*final(self)),
            play_rel(*old(self), *final(self), key, delta),
            draws@ == play_cmds(*old(self), key, delta),
    {
        let ghost pre = *self;
        let mut draws: Vec<DrawCmd> = Vec::new();
        draws.push(DrawCmd::ClearBg { bg: Color::Navy });
        draws.push(DrawCmd::Text { x: 0, y: 0, msg: Msg::FlapHint });
        draws.push(DrawCmd::Text { x: 0, y: 1, msg: Msg::ScoreLine { score: self.score } });
        let ghost stepped = pre.frame_time + delta > FRAME_DURATION;
        let ghost flapped = key == Some(Key::Flap);
        self.frame_time = self.frame_time + delta;
        if self.frame_time > FRAME_DURATION {
            self.frame_time = 0;
            self.player.gravity_and_movement();
        }
        if let Some(Key::Flap) = key {
            self.player.flap();
        }
        proof {
            assert(self.player == stepped_player(pre.player, stepped, flapped));
            assert(player_wf(self.player));
        }
        let mut field = self.render_all();
        draws.append(&mut field);
        proof {
            assert(draws@ =~= play_cmds(pre, key, delta));
        }
        self.pass_obstacle();
        self.end_game(key);
        self.activate_powerup();
        proof {
            let ps = pre.powerups@;
            let j = first_activated(ps, self.player);
            lemma_first_activated_from_range(ps, self.player, 0);
            if j < ps.len() {
                ps.remove_ensures(j);
                assert forall|i: int| 0 <= i < self.powerups@.len() implies powerup_wf(
                    #[trigger] self.powerups@[i],
                ) && self.powerups@[i].x <= i32::MAX - PLAYER_OFFSET by {
                    if i < j {
                        assert(self.powerups@[i] == ps[i]);
                    } else {
                        assert(self.powerups@[i] == ps[i + 1]);
                    }
                }
            }
        }
        self.prune_powerups();
        self.spawn_powerup();
        proof {
            assert(state_wf(*self));
            assert(play_rel(pre, *self, key, delta));
        }
        draws
    }

    /// The main menu: draw it, start a run on a play input, request exit
    /// on a quit input.
    pub fn main_menu(&mut self, key: Option<Key>) -> (out: TickOutput)
        requires
            state_wf(*old(self)),
        ensures
            state_wf(*final(self)),
            menu_rel(*old(self), *final(self), key, out.quitting),
            out.draws@ == menu_cmds(),
    {
        let mut draws: Vec<DrawCmd> = Vec::new();
        draws.push(DrawCmd::Clear);
        draws.push(DrawCmd::TextCentered { y: 5, msg: Msg::MenuTitle });
        draws.push(DrawCmd::TextCentered { y: 8, msg: Msg::MenuPlay });
        draws.push(DrawCmd::TextCentered { y: 9, msg: Msg::MenuQuit });
        let mut quitting = false;
        if let Some(k) = key {
            match k {
                Key::Play => self.restart(),
                Key::Quit => quitting = true,
                _ => {},
            }
        }
        proof {
            assert(draws@ =~= menu_cmds());
        }
        TickOutput { draws, quitting }
    }

    /// The end screen: draw it with the final score, and take the next
    /// action — main menu, play again, or exit.
    pub fn dead(&mut self, key: Option<Key>) -> (out: TickOutput)
        requires
            state_wf(*old(self)),
        ensures
            state_wf(*final(self)),
            dead_rel(*old(self), *final(self), key, out.quitting),
            out.draws@ == dead_cmds(old(self).score),
    {
        let mut draws: Vec<DrawCmd> = Vec::new();
        draws.push(DrawCmd::Clear);
        draws.push(DrawCmd::TextCentered { y: 5, msg: Msg::DeadTitle });
        draws.push(DrawCmd::TextCentered { y: 6, msg: Msg::DeadScore { score: self.score } });
        draws.push(DrawCmd::TextCentered { y: 8, msg: Msg::DeadMenu });
        draws.push(DrawCmd::TextCentered { y: 9, msg: Msg::DeadPlayAgain });
        draws.push(DrawCmd::TextCentered { y: 10, msg: Msg::DeadQuit });
        let mut quitting = false;
        if let Some(k) = key {
            match k {
                Key::MainMenu => self.mode = GameMode::Menu,
                Key::Play => self.restart(),
                Key::Quit => quitting = true,
                _ => {},
            }
        }
        proof {
            assert(draws@ =~= dead_cmds(old(self).score));
        }
        TickOutput { draws, quitting }
    }

    /// One tick of the whole game: dispatch on the current mode.
    pub fn tick(&mut self, key: Option<Key>, delta: u32) -> (out: TickOutput)
        requires
            state_wf(*old(self)),
            delta <= u32::MAX - FRAME_DURATION,
            old(self).player.x + SCREEN_WIDTH + PLAYER_OFFSET + 1 <= i32::MAX,
            old(self).score <= i32::MAX - 7,
        ensures
            state_wf(*final(self)),
            old(self).mode is Menu ==> menu_rel(*old(self), *final(self), key, out.quitting)
                && out.draws@ == menu_cmds(),
            old(self).mode is End ==> dead_rel(*old(self), *final(self), key, out.quitting)
                && out.draws@ == dead_cmds(old(self).score),
            old(self).mode is Playing ==> play_rel(*old(self), *final(self), key, delta)
                && !out.quitting && out.draws@ == play_cmds(*old(self), key, delta),
    {
        match self.mode {
            GameMode::Menu => self.main_menu(key),
            GameMode::End => self.dead(key),
            GameMode::Playing => {
                let draws = self.play(key, delta);
                TickOutput { draws, quitting: false }
            },
        }
    }
}

/// The pool position of the first powerup the player activates, searched
/// in iteration order.
fn first_activated_index(ps: &Vec<Powerup>, p: &Player) -> (r: Option<usize>)
    requires
        forall|i: int| 0 <= i < ps@.len() ==> powerup_wf(#[trigger] ps@[i]),
    ensures
        match r {
            Some(j) => j == first_activated(ps@, *p) && j < ps@.len(),
            None => first_activated(ps@, *p) == ps@.len(),
        },
{
    let n = ps.len();
    let mut i: usize = 0;
    while i < n
        invariant
            0 <= i <= n,
            n == ps@.len(),
            forall|k: int| 0 <= k < ps@.len() ==> powerup_wf(#[trigger] ps@[k]),
            first_activated(ps@, *p) == first_activated_from(ps@, *p, i as int),
        decreases n - i,
    {
        if ps[i].activate(p) {
            assert(first_activated_from(ps@, *p, i as int) == i);
            return Some(i);
        }
        assert(first_activated_from(ps@, *p, i as int) == first_activated_from(
            ps@,
            *p,
            i + 1 as int,
        ));
        i = i + 1;
    }
    None
}

} // verus!
