use flappy_core::player::orientation_mdeg;
use flappy_core::player::player_system;
use flappy_core::player::Player;

#[test]
fn euler_integration_scenario() {
    // Velocity at the flap impulse (292.5 units/s), dt = 100 ms, gravity
    // 450 units/s^2: the velocity drops to 247.5 and y rises by 29.25.
    let mut p = Player::new();
    assert_eq!(p.velocity, 292_500);
    assert_eq!(p.y, 0);
    player_system(&mut p, 100, false);
    assert_eq!(p.velocity, 247_500);
    assert_eq!(p.y, 29_250_000);
}

#[test]
fn gravity_strictly_decreases_velocity() {
    let mut p = Player::new();
    let mut last = p.velocity;
    for _ in 0..20 {
        player_system(&mut p, 16, false);
        assert!(p.velocity < last);
        assert_eq!(p.velocity, last - 450 * 16);
        last = p.velocity;
    }
}

#[test]
fn flap_overwrites_velocity() {
    let mut p = Player::new();
    for _ in 0..40 {
        player_system(&mut p, 50, false);
    }
    assert!(p.velocity < 0);
    // The flap resets to exactly BUMP before the tick's gravity, not
    // additively on top of the old velocity.
    player_system(&mut p, 10, true);
    assert_eq!(p.velocity, 292_500 - 450 * 10);
    assert_eq!(p.angle, 30_000);

    let mut q = Player::new();
    player_system(&mut q, 10, true);
    assert_eq!(q.velocity, p.velocity);
}

#[test]
fn orientation_values() {
    // Full climb at the flap impulse.
    assert_eq!(orientation_mdeg(292_500), 30_000);
    // Linear in the climb range.
    assert_eq!(orientation_mdeg(146_250), 15_000);
    assert_eq!(orientation_mdeg(0), 0);
    // Pinned at the steep dive at and below the free-fall threshold.
    assert_eq!(orientation_mdeg(-427_500), 270_000);
    assert_eq!(orientation_mdeg(-1_000_000_000), 270_000);
    // Sweeping between level and the dive in the falling range.
    let a = orientation_mdeg(-213_750);
    assert_eq!(a, 360_000 - 45_000);
}

#[test]
fn orientation_bounded_over_sweep() {
    let mut v: i64 = -600_000;
    while v <= 292_500 {
        let a = orientation_mdeg(v);
        assert!((0..=360_000).contains(&a));
        v += 1_500;
    }
}
