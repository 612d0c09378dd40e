use flappy_core::rocks::RockTimer;
use flappy_core::rocks::SpawnDraws;
use flappy_core::sim::Score;
use flappy_core::sim::SimState;
use flappy_core::state::transition;
use flappy_core::state::Banner;
use flappy_core::state::GameState;
use flappy_core::state::StateError;

fn draws() -> SpawnDraws {
    SpawnDraws { scale_milli: 1000, rock_type: 2, next_delay_ms: 1000 }
}

#[test]
fn transition_accepts_only_documented_edges() {
    assert_eq!(transition(GameState::Start, GameState::Playing), Ok(GameState::Playing));
    assert_eq!(transition(GameState::Playing, GameState::GameOver), Ok(GameState::GameOver));
    assert_eq!(transition(GameState::GameOver, GameState::Start), Ok(GameState::Start));
    assert_eq!(
        transition(GameState::Start, GameState::GameOver),
        Err(StateError::InvalidTransition)
    );
    assert_eq!(
        transition(GameState::Playing, GameState::Paused),
        Err(StateError::InvalidTransition)
    );
    assert_eq!(
        transition(GameState::GameOver, GameState::Playing),
        Err(StateError::InvalidTransition)
    );
    assert_eq!(transition(GameState::Start, GameState::Start), Err(StateError::InvalidTransition));
}

#[test]
fn fresh_session_starts_on_start_screen() {
    let s = SimState::new();
    assert_eq!(s.state, GameState::Start);
    assert_eq!(s.score.0, 0);
    assert_eq!(s.player.velocity, 292_500);
    assert_eq!(s.player.y, 0);
    assert!(s.rocks.is_empty());
    assert_eq!(s.banners, vec![Banner::GetReady, Banner::TapLeft, Banner::TapRight]);
    assert_eq!(s.backgrounds.len(), 6);
}

#[test]
fn start_advances_only_on_click() {
    let mut s = SimState::new();
    s.tick_with_draws(100, false, draws());
    assert_eq!(s.state, GameState::Start);
    s.tick_with_draws(100, true, draws());
    assert_eq!(s.state, GameState::Playing);
    // The Start decorations are despawned on the way out.
    assert!(s.banners.is_empty());
    // The click was consumed by the transition: the player has not been
    // integrated or flapped this tick.
    assert_eq!(s.player.velocity, 292_500);
    assert_eq!(s.player.y, 0);
}

#[test]
fn paused_suspends_everything() {
    let mut s = SimState::new();
    s.tick_with_draws(0, true, draws());
    s.tick_with_draws(16, false, draws());
    let velocity = s.player.velocity;
    let rocks_len = s.rocks.len();
    s.state = GameState::Paused;
    s.tick_with_draws(500, true, draws());
    assert_eq!(s.state, GameState::Paused);
    assert_eq!(s.player.velocity, velocity);
    assert_eq!(s.rocks.len(), rocks_len);
}

#[test]
fn game_over_click_runs_full_reset() {
    let mut s = SimState::new();
    s.tick_with_draws(0, true, draws());
    // First Playing tick: the zero countdown fires and spawns the pair.
    s.tick_with_draws(16, false, draws());
    assert_eq!(s.rocks.len(), 2);
    s.score = Score(7);
    s.player.y = 123_000_000;
    s.state = GameState::GameOver;
    s.banners.push(Banner::GameOverText);

    // No click: nothing moves.
    s.tick_with_draws(100, false, draws());
    assert_eq!(s.state, GameState::GameOver);
    assert_eq!(s.score.0, 7);

    // Click: back to Start with the full reset.
    s.tick_with_draws(100, true, draws());
    assert_eq!(s.state, GameState::Start);
    assert_eq!(s.score.0, 0);
    assert_eq!(s.player.velocity, 292_500);
    assert_eq!(s.player.y, 0);
    assert_eq!(s.player.angle, 0);
    assert!(s.rocks.is_empty());
    assert!(s.banners.is_empty());
    assert_eq!(s.timer.elapsed_ms, 0);
}

#[test]
fn first_playing_tick_spawns_and_restarts_timer() {
    let mut s = SimState::new();
    s.tick_with_draws(0, true, draws());
    assert_eq!(s.timer, RockTimer { duration_ms: 0, elapsed_ms: 0 });
    s.tick_with_draws(16, false, draws());
    assert_eq!(s.rocks.len(), 2);
    assert_eq!(s.timer, RockTimer { duration_ms: 1000, elapsed_ms: 0 });
    // Until the countdown runs out again, no further spawn.
    s.tick_with_draws(500, false, draws());
    assert_eq!(s.rocks.len(), 2);
    assert_eq!(s.timer.elapsed_ms, 500);
}

#[test]
fn backgrounds_scroll_and_wrap() {
    let mut s = SimState::new();
    s.tick_with_draws(0, true, draws());
    let before = s.backgrounds[0].x;
    s.tick_with_draws(1000, false, draws());
    // Sky layer: 150 units/s for one second.
    assert_eq!(s.backgrounds[0].x, before - 150_000_000);
    // Scroll a segment past a full tile width: it wraps two widths right.
    s.backgrounds[0].x = -800_000_001;
    s.tick_with_draws(0, false, draws());
    assert_eq!(s.backgrounds[0].x, -800_000_001 + 1_600_000_000);
}

#[test]
fn session_with_random_draws_keeps_invariants() {
    let mut s = SimState::new();
    s.tick(0, true);
    let mut last_score = 0u64;
    for i in 0..200 {
        s.tick(16, i % 50 == 0);
        if s.state == GameState::GameOver {
            break;
        }
        assert!(s.score.0 >= last_score);
        assert!(s.score.0 <= last_score + 1);
        last_score = s.score.0;
        for r in &s.rocks {
            assert!(r.x >= -508_000_000);
            assert!(r.x <= 460_000_000);
        }
    }
}
