use flappy_dragon::draw::Color;
use flappy_dragon::draw::DrawCmd;
use flappy_dragon::draw::Msg;
use flappy_dragon::obstacle::Obstacle;
use flappy_dragon::player::Player;
use flappy_dragon::powerup::PowerType;
use flappy_dragon::powerup::Powerup;
use flappy_dragon::state::GameMode;
use flappy_dragon::state::Key;
use flappy_dragon::state::State;

fn playing_state(player: Player, obstacle: Obstacle, score: i32, powerups: Vec<Powerup>) -> State {
    State { player, frame_time: 0, mode: GameMode::Playing, obstacle, score, powerups }
}

#[test]
fn new_session_starts_at_menu() {
    let s = State::new();
    assert!(matches!(s.mode, GameMode::Menu));
    assert_eq!(s.score, 0);
    assert_eq!(s.player.x, 5);
    assert_eq!(s.player.y, 25);
    assert_eq!(s.player.velocity, 0);
    assert_eq!(s.obstacle.x, 80);
    assert_eq!(s.obstacle.size, 20);
    assert!(s.powerups.is_empty());
}

#[test]
fn coin_activation_adds_value_and_removes_coin() {
    let player = Player::new(10, 20);
    let obstacle = Obstacle { x: 50, gap_y: 20, size: 20 };
    let coin = Powerup { x: 10, y: 21, power: PowerType::Coin { value: 5 } };
    let far = Powerup { x: 30, y: 21, power: PowerType::Coin { value: 4 } };
    let mut s = playing_state(player, obstacle, 7, vec![far, coin]);
    s.activate_powerup();
    assert_eq!(s.score, 12);
    assert_eq!(s.powerups.len(), 1);
    assert_eq!(s.powerups[0].x, 30);
}

#[test]
fn noncoin_activation_removes_without_scoring() {
    let player = Player::new(10, 20);
    let obstacle = Obstacle { x: 50, gap_y: 20, size: 20 };
    let slow = Powerup { x: 10, y: 20, power: PowerType::Slow };
    let mut s = playing_state(player, obstacle, 7, vec![slow]);
    s.activate_powerup();
    assert_eq!(s.score, 7);
    assert!(s.powerups.is_empty());
}

#[test]
fn first_activated_powerup_wins() {
    let player = Player::new(10, 20);
    let obstacle = Obstacle { x: 50, gap_y: 20, size: 20 };
    let first = Powerup { x: 10, y: 19, power: PowerType::Coin { value: 3 } };
    let second = Powerup { x: 10, y: 21, power: PowerType::Coin { value: 6 } };
    let mut s = playing_state(player, obstacle, 0, vec![first, second]);
    s.activate_powerup();
    assert_eq!(s.score, 3);
    assert_eq!(s.powerups.len(), 1);
    assert_eq!(s.powerups[0].y, 21);
}

#[test]
fn no_activation_leaves_pool_alone() {
    let player = Player::new(10, 20);
    let obstacle = Obstacle { x: 50, gap_y: 20, size: 20 };
    let far = Powerup { x: 12, y: 20, power: PowerType::Coin { value: 6 } };
    let mut s = playing_state(player, obstacle, 4, vec![far]);
    s.activate_powerup();
    assert_eq!(s.score, 4);
    assert_eq!(s.powerups.len(), 1);
}

#[test]
fn prune_drops_powerups_behind_the_window() {
    let player = Player::new(50, 20);
    let obstacle = Obstacle { x: 90, gap_y: 20, size: 20 };
    let behind = Powerup { x: 40, y: 20, power: PowerType::Slow };
    let ahead = Powerup { x: 41, y: 20, power: PowerType::Gap };
    let mut s = playing_state(player, obstacle, 0, vec![behind, ahead]);
    s.prune_powerups();
    assert_eq!(s.powerups.len(), 1);
    assert_eq!(s.powerups[0].x, 41);
}

#[test]
fn restart_resets_run_but_keeps_pool() {
    let stale = Powerup { x: 500, y: 20, power: PowerType::Coin { value: 2 } };
    let mut s = State {
        player: Player { x: 400, y: 52, velocity: 20 },
        frame_time: 33,
        mode: GameMode::End,
        obstacle: Obstacle { x: 410, gap_y: 15, size: 11 },
        score: 9,
        powerups: vec![stale],
    };
    s.restart();
    assert!(matches!(s.mode, GameMode::Playing));
    assert_eq!(s.score, 0);
    assert_eq!(s.player.x, 5);
    assert_eq!(s.player.y, 25);
    assert_eq!(s.player.velocity, 0);
    assert_eq!(s.frame_time, 0);
    assert_eq!(s.obstacle.x, 80);
    assert_eq!(s.obstacle.size, 20);
    assert!(s.obstacle.gap_y >= 10 && s.obstacle.gap_y < 40);
    // the pool deliberately survives a restart
    assert_eq!(s.powerups.len(), 1);
    assert_eq!(s.powerups[0].x, 500);
}

#[test]
fn passing_an_obstacle_scores_and_tightens_the_next() {
    let player = Player::new(5, 25);
    let obstacle = Obstacle { x: 5, gap_y: 20, size: 20 };
    let mut s = playing_state(player, obstacle, 0, Vec::new());
    // one physics step moves the player to column 6, past the obstacle,
    // with no vertical-band violation (row 25 is inside [10, 30])
    let out = s.tick(None, 76);
    assert!(!out.quitting);
    assert_eq!(s.player.x, 6);
    assert_eq!(s.score, 1);
    assert!(matches!(s.mode, GameMode::Playing));
    assert_eq!(s.obstacle.x, 86);
    assert_eq!(s.obstacle.size, 19);
}

#[test]
fn accumulator_decouples_physics_from_frames() {
    let player = Player::new(5, 25);
    let obstacle = Obstacle { x: 80, gap_y: 20, size: 20 };
    let mut s = playing_state(player, obstacle, 0, Vec::new());
    s.tick(None, 40);
    assert_eq!(s.frame_time, 40);
    assert_eq!(s.player.x, 5); // no step yet
    s.tick(None, 40);
    assert_eq!(s.frame_time, 0); // 80 time units passed the 75-unit step
    assert_eq!(s.player.x, 6); // exactly one step
}

#[test]
fn falling_off_screen_ends_the_run() {
    let player = Player { x: 5, y: 50, velocity: 20 };
    let obstacle = Obstacle { x: 80, gap_y: 20, size: 20 };
    let mut s = playing_state(player, obstacle, 0, Vec::new());
    // the step moves the player to row 52, below the visible screen
    s.tick(None, 76);
    assert_eq!(s.player.y, 52);
    assert!(matches!(s.mode, GameMode::End));
}

#[test]
fn hitting_the_obstacle_ends_the_run() {
    let player = Player { x: 10, y: 0, velocity: 0 };
    let obstacle = Obstacle { x: 10, gap_y: 20, size: 20 };
    let mut s = playing_state(player, obstacle, 0, Vec::new());
    // no physics step: the player stays on the obstacle's column, above the gap
    s.tick(None, 0);
    assert!(matches!(s.mode, GameMode::End));
}

#[test]
fn escape_abandons_the_run() {
    let player = Player::new(5, 25);
    let obstacle = Obstacle { x: 80, gap_y: 20, size: 20 };
    let mut s = playing_state(player, obstacle, 3, Vec::new());
    s.tick(Some(Key::Escape), 0);
    assert!(matches!(s.mode, GameMode::End));
    assert_eq!(s.score, 3);
}

#[test]
fn flap_input_is_applied_during_play() {
    let player = Player::new(5, 25);
    let obstacle = Obstacle { x: 80, gap_y: 20, size: 20 };
    let mut s = playing_state(player, obstacle, 0, Vec::new());
    s.tick(Some(Key::Flap), 0);
    assert_eq!(s.player.velocity, -20);
    assert!(matches!(s.mode, GameMode::Playing));
}

#[test]
fn menu_play_starts_a_run() {
    let mut s = State::new();
    let out = s.tick(Some(Key::Play), 0);
    assert!(!out.quitting);
    assert!(matches!(s.mode, GameMode::Playing));
    assert_eq!(s.score, 0);
}

#[test]
fn menu_quit_requests_exit() {
    let mut s = State::new();
    let out = s.tick(Some(Key::Quit), 0);
    assert!(out.quitting);
    assert!(matches!(s.mode, GameMode::Menu));
}

#[test]
fn menu_ignores_other_keys() {
    let mut s = State::new();
    let out = s.tick(Some(Key::MainMenu), 0);
    assert!(!out.quitting);
    assert!(matches!(s.mode, GameMode::Menu));
    let out2 = s.tick(None, 0);
    assert!(!out2.quitting);
    assert!(matches!(s.mode, GameMode::Menu));
}

#[test]
fn end_screen_offers_all_three_ways_out() {
    let dead_state = || State {
        player: Player { x: 12, y: 52, velocity: 20 },
        frame_time: 0,
        mode: GameMode::End,
        obstacle: Obstacle { x: 20, gap_y: 20, size: 17 },
        score: 6,
        powerups: Vec::new(),
    };
    let mut to_menu = dead_state();
    to_menu.tick(Some(Key::MainMenu), 0);
    assert!(matches!(to_menu.mode, GameMode::Menu));
    assert_eq!(to_menu.score, 6); // back to the menu keeps the state otherwise

    let mut again = dead_state();
    again.tick(Some(Key::Play), 0);
    assert!(matches!(again.mode, GameMode::Playing));
    assert_eq!(again.score, 0);

    let mut quit = dead_state();
    let out = quit.tick(Some(Key::Quit), 0);
    assert!(out.quitting);
    assert!(matches!(quit.mode, GameMode::End));
}

#[test]
fn menu_draws_its_prompts() {
    let mut s = State::new();
    let out = s.tick(None, 0);
    assert_eq!(
        out.draws,
        vec![
            DrawCmd::Clear,
            DrawCmd::TextCentered { y: 5, msg: Msg::MenuTitle },
            DrawCmd::TextCentered { y: 8, msg: Msg::MenuPlay },
            DrawCmd::TextCentered { y: 9, msg: Msg::MenuQuit },
        ]
    );
}

#[test]
fn end_screen_draws_the_final_score() {
    let mut s = State {
        player: Player { x: 12, y: 52, velocity: 20 },
        frame_time: 0,
        mode: GameMode::End,
        obstacle: Obstacle { x: 20, gap_y: 20, size: 17 },
        score: 42,
        powerups: Vec::new(),
    };
    let out = s.tick(None, 0);
    assert_eq!(
        out.draws,
        vec![
            DrawCmd::Clear,
            DrawCmd::TextCentered { y: 5, msg: Msg::DeadTitle },
            DrawCmd::TextCentered { y: 6, msg: Msg::DeadScore { score: 42 } },
            DrawCmd::TextCentered { y: 8, msg: Msg::DeadMenu },
            DrawCmd::TextCentered { y: 9, msg: Msg::DeadPlayAgain },
            DrawCmd::TextCentered { y: 10, msg: Msg::DeadQuit },
        ]
    );
}

#[test]
fn play_draws_header_player_obstacle_and_powerups() {
    let wall = bracket_lib::prelude::to_cp437('|');
    let avatar = bracket_lib::prelude::to_cp437('@');
    let star = bracket_lib::prelude::to_cp437('*');
    let player = Player::new(5, 25);
    let obstacle = Obstacle { x: 80, gap_y: 20, size: 20 };
    let pu = Powerup { x: 30, y: 12, power: PowerType::Gravity };
    let mut s = playing_state(player, obstacle, 3, vec![pu]);
    let out = s.tick(None, 0);
    let draws = out.draws;
    assert_eq!(draws[0], DrawCmd::ClearBg { bg: Color::Navy });
    assert_eq!(draws[1], DrawCmd::Text { x: 0, y: 0, msg: Msg::FlapHint });
    assert_eq!(draws[2], DrawCmd::Text { x: 0, y: 1, msg: Msg::ScoreLine { score: 3 } });
    assert_eq!(
        draws[3],
        DrawCmd::Glyph { x: 10, y: 25, fg: Color::Green, bg: Color::Black, glyph: avatar }
    );
    // the obstacle's column sits at screen x = 80 - 5 + 10 = 85; the gap
    // band [10, 30] is left open: rows 0..10 above, rows 30..50 below
    assert_eq!(
        draws[4],
        DrawCmd::Glyph { x: 85, y: 0, fg: Color::Red, bg: Color::Black, glyph: wall }
    );
    assert_eq!(
        draws[13],
        DrawCmd::Glyph { x: 85, y: 9, fg: Color::Red, bg: Color::Black, glyph: wall }
    );
    assert_eq!(
        draws[14],
        DrawCmd::Glyph { x: 85, y: 30, fg: Color::Red, bg: Color::Black, glyph: wall }
    );
    assert_eq!(
        draws[33],
        DrawCmd::Glyph { x: 85, y: 49, fg: Color::Red, bg: Color::Black, glyph: wall }
    );
    // the powerup at world column 30 sits at screen x = 30 - 5 + 10 = 35
    assert_eq!(
        draws[34],
        DrawCmd::Glyph { x: 35, y: 12, fg: Color::Yellow, bg: Color::Black, glyph: star }
    );
    assert_eq!(draws.len(), 35);
}

#[test]
fn powerup_glyphs_match_their_kind() {
    let coin = Powerup { x: 20, y: 30, power: PowerType::Coin { value: 4 } };
    let four = bracket_lib::prelude::to_cp437('4');
    assert_eq!(
        coin.render(15),
        DrawCmd::Glyph { x: 15, y: 30, fg: Color::Yellow, bg: Color::Black, glyph: four }
    );
    let gap = Powerup { x: 20, y: 30, power: PowerType::Gap };
    assert_eq!(
        gap.render(15),
        DrawCmd::Glyph { x: 15, y: 30, fg: Color::Yellow, bg: Color::Black, glyph: 23 }
    );
    let slow = Powerup { x: 20, y: 30, power: PowerType::Slow };
    let arrow = bracket_lib::prelude::to_cp437('>');
    assert_eq!(
        slow.render(15),
        DrawCmd::Glyph { x: 15, y: 30, fg: Color::Yellow, bg: Color::Black, glyph: arrow }
    );
}
