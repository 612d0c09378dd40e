use flappy_core::rocks::rock_spawn_system;
use flappy_core::rocks::rock_system;
use flappy_core::rocks::spawn_rocks;
use flappy_core::rocks::Rock;
use flappy_core::rocks::RockKind;
use flappy_core::rocks::RockTimer;
use flappy_core::rocks::SpawnDraws;
use flappy_core::sim::Score;

fn spawn_pair(scale_milli: u64) -> Vec<Rock> {
    let mut rocks: Vec<Rock> = Vec::new();
    spawn_rocks(&mut rocks, scale_milli, 2);
    rocks
}

#[test]
fn both_layout_scenario() {
    // The spawner fires with scale input 1.0 and the "both" layout: the
    // scale shrinks to 0.7, one rock is anchored to each screen edge with
    // the fixed gap between them, and both carry velocity 250 units/s.
    let mut timer = RockTimer::new();
    assert_eq!(timer.duration_ms, 0);
    let mut rocks: Vec<Rock> = Vec::new();
    let draws = SpawnDraws { scale_milli: 1000, rock_type: 2, next_delay_ms: 777 };
    // The initial countdown is zero, so it fires at t = 0.
    rock_spawn_system(&mut timer, &mut rocks, 0, draws);
    assert_eq!(rocks.len(), 2);

    let bottom = &rocks[0];
    let top = &rocks[1];
    assert_eq!(bottom.kind, RockKind::PointingUp);
    assert_eq!(top.kind, RockKind::PointingDown);
    assert_eq!(bottom.scale_milli, 700);
    assert_eq!(top.scale_milli, 700);
    assert_eq!(bottom.velocity_milli, 250_000);
    assert_eq!(top.velocity_milli, 250_000);
    assert_eq!(bottom.x, 460_000_000);
    assert_eq!(top.x, 460_000_000);

    // Anchored flush with the screen edges (height 480, rock height 239
    // scaled by 0.7).
    assert_eq!(bottom.y, -240_000_000 + 119_500 * 700);
    assert_eq!(top.y, 240_000_000 - 119_500 * 700);

    // The gap between the inner tips: the full height minus two scaled
    // rock heights.
    let bottom_tip = bottom.y + 119_500 * 700;
    let top_tip = top.y - 119_500 * 700;
    assert_eq!(top_tip - bottom_tip, 480_000_000 - 2 * 239_000 * 700);

    // The countdown restarts with the drawn duration.
    assert_eq!(timer.duration_ms, 777);
    assert_eq!(timer.elapsed_ms, 0);
}

#[test]
fn timer_only_counts_down_until_it_fires() {
    let mut timer = RockTimer { duration_ms: 1000, elapsed_ms: 0 };
    let mut rocks: Vec<Rock> = Vec::new();
    let draws = SpawnDraws { scale_milli: 800, rock_type: 0, next_delay_ms: 500 };
    rock_spawn_system(&mut timer, &mut rocks, 300, draws);
    assert_eq!(rocks.len(), 0);
    assert_eq!(timer.elapsed_ms, 300);
    rock_spawn_system(&mut timer, &mut rocks, 700, draws);
    assert_eq!(rocks.len(), 1);
    assert_eq!(rocks[0].kind, RockKind::PointingDown);
    assert_eq!(rocks[0].scale_milli, 800);
    assert_eq!(timer.duration_ms, 500);
}

#[test]
fn spawn_draws_stay_in_their_ranges() {
    let mut rng = rand::thread_rng();
    for _ in 0..50 {
        let d = SpawnDraws::draw(&mut rng);
        assert!((700..1200).contains(&d.scale_milli));
        assert!(d.rock_type <= 2);
        assert!((400..1500).contains(&d.next_delay_ms));
    }
}

#[test]
fn pair_crossing_in_one_tick_scores_once() {
    let mut rocks = spawn_pair(1000);
    // Put both rocks just right of the player (x = -200 units); one tick
    // of 100 ms at 250 units/s scrolls them 25 units left, past it.
    rocks[0].x = -190_000_000;
    rocks[1].x = -190_000_000;
    let mut score = Score(0);
    rock_system(&mut rocks, &mut score, 100, 1000);
    assert_eq!(score.0, 1);
    assert!(rocks[0].has_scored);
    assert!(rocks[1].has_scored);
    // A scored rock never awards again.
    rock_system(&mut rocks, &mut score, 100, 1000);
    assert_eq!(score.0, 1);
}

#[test]
fn rocks_below_threshold_are_destroyed() {
    let mut rocks = spawn_pair(1000);
    rocks[0].x = -507_000_000;
    rocks[0].has_scored = true;
    rocks[1].x = 100_000_000;
    rocks[1].has_scored = true;
    let mut score = Score(3);
    // 100 ms at 250 units/s: 25 units of scroll pushes the first rock
    // below the -508 unit threshold; the second survives.
    rock_system(&mut rocks, &mut score, 100, 1000);
    assert_eq!(rocks.len(), 1);
    assert_eq!(rocks[0].x, 100_000_000 - 25_000_000);
    assert_eq!(score.0, 3);
    for r in &rocks {
        assert!(r.x >= -508_000_000);
    }
}

#[test]
fn single_layouts_spawn_one_rock() {
    let mut rocks: Vec<Rock> = Vec::new();
    spawn_rocks(&mut rocks, 900, 0);
    assert_eq!(rocks.len(), 1);
    assert_eq!(rocks[0].kind, RockKind::PointingDown);
    assert_eq!(rocks[0].scale_milli, 900);
    spawn_rocks(&mut rocks, 1100, 1);
    assert_eq!(rocks.len(), 2);
    assert_eq!(rocks[1].kind, RockKind::PointingUp);
    assert_eq!(rocks[1].y, -240_000_000 + 119_500 * 1100);
}
