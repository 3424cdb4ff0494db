use flappy::{Player, START_VELOCITY};

#[test]
fn new_player_starts_falling() {
    let p = Player::new(5, 25);
    assert_eq!((p.x, p.y, p.velocity), (5, 25, START_VELOCITY));
    assert_eq!(START_VELOCITY, 20);
}

#[test]
fn step_at_start_velocity_keeps_velocity() {
    let mut p = Player::new(5, 25);
    p.gravity_and_move();
    assert_eq!((p.x, p.y), (6, 27));
    assert_eq!(p.velocity, 20);
}

#[test]
fn step_from_slow_velocity_accelerates_and_truncates() {
    let mut p = Player { x: 5, y: 25, velocity: 5 };
    p.gravity_and_move();
    assert_eq!(p.velocity, 7);
    assert_eq!((p.x, p.y), (6, 25));
}

#[test]
fn step_accelerates_at_the_threshold_and_not_above() {
    let mut p = Player { x: 0, y: 0, velocity: 10 };
    p.gravity_and_move();
    assert_eq!(p.velocity, 12);
    assert_eq!(p.y, 1);
    p.gravity_and_move();
    assert_eq!(p.velocity, 12);
    assert_eq!(p.y, 2);
}

#[test]
fn step_clamps_at_top_row() {
    let mut p = Player { x: 3, y: -2, velocity: 0 };
    p.gravity_and_move();
    assert_eq!((p.x, p.y, p.velocity), (4, 0, 2));
}

#[test]
fn step_truncates_negative_velocity_toward_zero() {
    let mut p = Player { x: 0, y: 10, velocity: -17 };
    p.gravity_and_move();
    assert_eq!(p.velocity, -15);
    assert_eq!(p.y, 9);
}

#[test]
fn flap_zeroes_velocity_and_lifts_two() {
    let mut p = Player { x: 7, y: 30, velocity: 12 };
    p.flap();
    assert_eq!((p.x, p.y, p.velocity), (7, 28, 0));
    let mut q = Player { x: 0, y: 0, velocity: -4 };
    q.flap();
    assert_eq!((q.x, q.y, q.velocity), (0, -2, 0));
}

#[test]
fn free_fall_is_monotone() {
    let mut p = Player { x: 0, y: 0, velocity: 0 };
    let mut last = p;
    let mut speeds = Vec::new();
    for _ in 0..20 {
        p.gravity_and_move();
        assert!(p.velocity >= last.velocity);
        if last.velocity > 10 {
            assert_eq!(p.velocity, last.velocity);
        }
        assert!(p.y >= last.y);
        assert!(p.y >= 0);
        assert_eq!(p.x, last.x + 1);
        speeds.push(p.velocity);
        last = p;
    }
    assert_eq!(&speeds[..7], &[2, 4, 6, 8, 10, 12, 12]);
}
