use flappy_dragon::player::Player;
use flappy_dragon::player::FLAP_IMPULSE;
use flappy_dragon::player::VELOCITY_CAP;

#[test]
fn gravity_accelerates_and_scrolls() {
    let mut p = Player::new(5, 25);
    p.gravity_and_movement();
    assert_eq!(p.velocity, 2);
    // 0.2 cells/step truncates to a whole-cell displacement of 0
    assert_eq!(p.y, 25);
    assert_eq!(p.x, 6);
}

#[test]
fn flap_sets_velocity_exactly() {
    let mut p = Player::new(5, 25);
    p.flap();
    assert_eq!(p.velocity, FLAP_IMPULSE);
    // regardless of prior value: flap again from a falling state
    for _ in 0..7 {
        p.gravity_and_movement();
    }
    p.flap();
    assert_eq!(p.velocity, FLAP_IMPULSE);
    assert_eq!(p.velocity, -20);
}

#[test]
fn velocity_reaches_cap_in_ten_steps_and_holds() {
    let mut p = Player::new(5, 25);
    for _ in 0..9 {
        p.gravity_and_movement();
        assert!(p.velocity < VELOCITY_CAP);
    }
    p.gravity_and_movement();
    assert_eq!(p.velocity, VELOCITY_CAP);
    for _ in 0..5 {
        p.gravity_and_movement();
        assert_eq!(p.velocity, VELOCITY_CAP);
    }
}

#[test]
fn velocity_never_decreases_under_gravity() {
    let mut p = Player::new(5, 25);
    p.flap();
    let mut last = p.velocity;
    for _ in 0..30 {
        p.gravity_and_movement();
        assert!(p.velocity >= last);
        assert!(p.velocity <= VELOCITY_CAP);
        last = p.velocity;
    }
}

#[test]
fn vertical_position_never_negative() {
    let mut p = Player::new(5, 0);
    p.flap();
    for _ in 0..30 {
        p.gravity_and_movement();
        assert!(p.y >= 0);
    }
    // rising fast from the ceiling clamps at 0
    let mut q = Player::new(5, 1);
    q.flap();
    q.gravity_and_movement();
    assert_eq!(q.y, 0);
}
