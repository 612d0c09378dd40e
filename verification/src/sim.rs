//! The simulation context: the singleton state one session owns, and the
//! per-tick step that gates every system on the lifecycle state.
//!
//! The host loop supplies each tick's elapsed time and one edge-triggered
//! click; a click that drives a Start or GameOver transition is consumed by
//! that transition and never doubles as a flap, because only a Playing tick
//! reads it as a flap.

use vstd::prelude::*;

use crate::background::backgrounds_wf;
use crate::background::bg_looped_x;
use crate::background::bg_scrolled_x;
use crate::background::horizontal_movement;
use crate::background::loop_background;
use crate::background::spawn_background;
use crate::background::Background;
use crate::player::player_after;
use crate::player::player_system;
use crate::player::Player;
use crate::rocks::collision_system;
use crate::rocks::effective_scale;
use crate::rocks::lifecycle_gain;
use crate::rocks::lifecycle_spec;
use crate::rocks::registry_wf;
use crate::rocks::rock_hit;
use crate::rocks::rock_spawn_system;
use crate::rocks::rock_system;
use crate::rocks::spawned_rock;
use crate::rocks::Rock;
use crate::rocks::RockKind;
use crate::rocks::RockTimer;
use crate::rocks::SpawnDraws;
use crate::scroll_amount_spec;
use crate::state::setup_game_over;
use crate::state::setup_start;
use crate::state::state_cleanup_system;
use crate::state::wait_for_click;
use crate::state::Banner;
use crate::state::GameState;
use crate::BUMP_MILLI;
use crate::DT_MAX_MS;
use crate::GAME_SPEED_MILLI;
use crate::SPEED_MAX_MILLI;

verus! {

/// The session score: a monotonically non-decreasing counter of obstacles
/// passed, reset to zero when a fresh game begins.
#[derive(Debug, Clone, Copy, Eq, PartialEq, Structural)]
pub struct Score(pub u64);

/// The whole simulation state a session owns: the lifecycle state, the
/// player, the score, the spawn timer, the live obstacle registry, the
/// background segments, the state-bound decorations, and the game-speed
/// multiplier.
#[derive(Debug)]
pub struct SimState {
    pub state: GameState,
    pub player: Player,
    pub score: Score,
    pub timer: RockTimer,
    pub rocks: Vec<Rock>,
    pub backgrounds: Vec<Background>,
    pub banners: Vec<Banner>,
    pub speed_milli: u64,
}

/// The six background segments a fresh session starts with: two for the
/// sky layer (800 units wide, 150 units/s) and two for each ground strip
/// (808 units wide, 300 units/s), each pair one tile width apart.
pub open spec fn initial_backgrounds() -> Seq<Background> {
    seq![
        Background { x: 0i64, y: 0i64, width_micro: 800_000_000i64, velocity_milli: 150_000u64 },
        Background {
            x: 800_000_000i64,
            y: 0i64,
            width_micro: 800_000_000i64,
            velocity_milli: 150_000u64,
        },
        Background {
            x: 0i64,
            y: -204_500_000i64,
            width_micro: 808_000_000i64,
            velocity_milli: 300_000u64,
        },
        Background {
            x: 808_000_000i64,
            y: -204_500_000i64,
            width_micro: 808_000_000i64,
            velocity_milli: 300_000u64,
        },
        Background {
            x: -132_000_000i64,
            y: 203_500_000i64,
            width_micro: 808_000_000i64,
            velocity_milli: 300_000u64,
        },
        Background {
            x: 676_000_000i64,
            y: 203_500_000i64,
            width_micro: 808_000_000i64,
            velocity_milli: 300_000u64,
        },
    ]
}

/// How the obstacle registry changes over one Playing tick: first the
/// lifecycle pass over the rocks that already existed, then — if the
/// countdown ran out — the freshly spawned layout appended. A rock spawned
/// this tick is never scrolled, scored or destroyed this tick.
pub open spec fn playing_rocks_rel(
    pre_rocks: Seq<Rock>,
    post_rocks: Seq<Rock>,
    dt: int,
    speed: int,
    timer: RockTimer,
    draws: SpawnDraws,
) -> bool {
    let survivors = lifecycle_spec(pre_rocks, dt, speed);
    if timer.fires(dt) {
        let eff = effective_scale(draws.scale_milli as int, draws.rock_type as int);
        &&& forall|i: int| 0 <= i < survivors.len() ==> post_rocks[i] == survivors[i]
        &&& draws.rock_type == 0 ==> post_rocks.len() == survivors.len() + 1 && spawned_rock(
            post_rocks[survivors.len() as int],
            RockKind::PointingDown,
            eff,
        )
        &&& draws.rock_type == 1 ==> post_rocks.len() == survivors.len() + 1 && spawned_rock(
            post_rocks[survivors.len() as int],
            RockKind::PointingUp,
            eff,
        )
        &&& draws.rock_type == 2 ==> post_rocks.len() == survivors.len() + 2 && spawned_rock(
            post_rocks[survivors.len() as int],
            RockKind::PointingUp,
            eff,
        ) && spawned_rock(post_rocks[survivors.len() as int + 1], RockKind::PointingDown, eff)
    } else {
        post_rocks == survivors
    }
}

/// One Playing tick, in full: player physics first (so the collision test
/// reads the post-integration position and orientation), then background
/// scrolling and wraparound, then the lifecycle pass and scoring over the
/// pre-existing rocks, then the spawner, and last the collision scan over
/// every live rock, which on a hit drives the machine to GameOver and
/// spawns its banner.
pub open spec fn playing_tick_rel(
    pre: SimState,
    post: SimState,
    dt: int,
    clicked: bool,
    draws: SpawnDraws,
) -> bool {
    let p1 = player_after(pre.player, clicked, dt);
    let gain = lifecycle_gain(pre.rocks@, dt, pre.speed_milli as int);
    let hit = exists|i: int|
        0 <= i < post.rocks@.len() && rock_hit(p1, #[trigger] post.rocks@[i]);
    &&& post.player == p1
    &&& post.backgrounds@.len() == pre.backgrounds@.len()
    &&& forall|i: int| 0 <= i < pre.backgrounds@.len() ==> post.backgrounds@[i] == (Background {
        x: bg_looped_x(
            bg_scrolled_x(
                pre.backgrounds@[i].x as int,
                scroll_amount_spec(
                    dt,
                    pre.speed_milli as int,
                    pre.backgrounds@[i].velocity_milli as int,
                ),
            ),
            pre.backgrounds@[i].width_micro as int,
        ) as i64,
        ..pre.backgrounds@[i]
    })
    &&& playing_rocks_rel(pre.rocks@, post.rocks@, dt, pre.speed_milli as int, pre.timer, draws)
    &&& post.score.0 == if gain && pre.score.0 < u64::MAX {
        pre.score.0 + 1
    } else {
        pre.score.0 as int
    }
    &&& post.timer == if pre.timer.fires(dt) {
        RockTimer { duration_ms: draws.next_delay_ms, elapsed_ms: 0u64 }
    } else {
        RockTimer {
            duration_ms: pre.timer.duration_ms,
            elapsed_ms: (pre.timer.elapsed_ms + dt) as u64,
        }
    }
    &&& post.state == if hit {
        GameState::GameOver
    } else {
        GameState::Playing
    }
    &&& post.banners@ == if hit {
        pre.banners@.push(Banner::GameOverText)
    } else {
        pre.banners@
    }
    &&& post.speed_milli == pre.speed_milli
}

/// What one tick does, for every lifecycle state. A waiting state consumes
/// the click that leaves it: the same click never also flaps, because the
/// flap is read only by a tick that starts in Playing. Leaving GameOver
/// runs the full reset; Paused suspends everything.
pub open spec fn tick_rel(
    pre: SimState,
    post: SimState,
    dt: int,
    clicked: bool,
    draws: SpawnDraws,
) -> bool {
    match pre.state {
        GameState::Start => if clicked {
            &&& post.state == GameState::Playing
            &&& post.banners@ == Seq::<Banner>::empty()
            &&& post.player == pre.player
            &&& post.score == pre.score
            &&& post.timer == pre.timer
            &&& post.rocks == pre.rocks
            &&& post.backgrounds == pre.backgrounds
            &&& post.speed_milli == pre.speed_milli
        } else {
            post == pre
        },
        GameState::Paused => post == pre,
        GameState::GameOver => if clicked {
            &&& post.state == GameState::Start
            &&& post.banners@ == Seq::<Banner>::empty()
            &&& post.score.0 == 0
            &&& post.player == (Player { velocity: BUMP_MILLI, y: 0i64, angle: 0i64 })
            &&& post.rocks@ == Seq::<Rock>::empty()
            &&& post.timer == (RockTimer {
                duration_ms: pre.timer.duration_ms,
                elapsed_ms: 0u64,
            })
            &&& post.backgrounds == pre.backgrounds
            &&& post.speed_milli == pre.speed_milli
        } else {
            post == pre
        },
        GameState::Playing => playing_tick_rel(pre, post, dt, clicked, draws),
    }
}

impl SimState {
    /// Well-formedness of every component the tick relies on.
    pub open spec fn wf(self) -> bool {
        &&& self.player.wf()
        &&& self.timer.wf()
        &&& registry_wf(self.rocks@)
        &&& backgrounds_wf(self.backgrounds@)
        &&& self.speed_milli <= SPEED_MAX_MILLI
    }

    /// A fresh session: on the Start screen with its decorations, the
    /// player at the origin carrying one flap impulse, no score, no rocks,
    /// the spawn countdown at zero (so the first Playing tick spawns at
    /// once), and the three background layers in place.
    pub fn new() -> (s: SimState)
        ensures
            s.wf(),
            s.state == GameState::Start,
            s.player == (Player { velocity: BUMP_MILLI, y: 0i64, angle: 0i64 }),
            s.score.0 == 0,
            s.timer == (RockTimer { duration_ms: 0u64, elapsed_ms: 0u64 }),
            s.rocks@ == Seq::<Rock>::empty(),
            s.banners@ == seq![Banner::GetReady, Banner::TapLeft, Banner::TapRight],
            s.backgrounds@ == initial_backgrounds(),
            s.speed_milli == GAME_SPEED_MILLI,
    {
        let mut backgrounds: Vec<Background> = Vec::new();
        spawn_background(&mut backgrounds, 0, 0, 800_000_000, 150_000);
        spawn_background(&mut backgrounds, 0, -204_500_000, 808_000_000, 300_000);
        spawn_background(&mut backgrounds, -132_000_000, 203_500_000, 808_000_000, 300_000);
        proof {
            assert(backgrounds@ =~= initial_backgrounds());
        }
        let mut banners: Vec<Banner> = Vec::new();
        setup_start(&mut banners);
        proof {
            assert(banners@ =~= seq![Banner::GetReady, Banner::TapLeft, Banner::TapRight]);
        }
        let s = SimState {
            state: GameState::Start,
            player: Player::new(),
            score: Score(0),
            timer: RockTimer::new(),
            rocks: Vec::new(),
            backgrounds,
            banners,
            speed_milli: GAME_SPEED_MILLI,
        };
        proof {
            assert(s.rocks@ =~= Seq::<Rock>::empty());
        }
        s
    }

    /// The full reset run on leaving GameOver: rewind the spawn countdown,
    /// put the player back at the origin with a level orientation and one
    /// flap impulse of velocity, destroy every live rock, and zero the
    /// score.
    pub fn reset_game(&mut self)
        requires
            old(self).wf(),
        ensures
            final(self).wf(),
            final(self).player == (Player { velocity: BUMP_MILLI, y: 0i64, angle: 0i64 }),
            final(self).score.0 == 0,
            final(self).rocks@ == Seq::<Rock>::empty(),
            final(self).timer == (RockTimer {
                duration_ms: old(self).timer.duration_ms,
                elapsed_ms: 0u64,
            }),
            final(self).state == old(self).state,
            final(self).banners == old(self).banners,
            final(self).backgrounds == old(self).backgrounds,
            final(self).speed_milli == old(self).speed_milli,
    {
        self.timer.reset();
        self.player = Player { velocity: BUMP_MILLI, y: 0, angle: 0 };
        self.rocks.clear();
        self.score = Score(0);
        proof {
            assert(self.rocks@ =~= Seq::<Rock>::empty());
        }
    }

    /// One simulation tick with the spawner's random draws supplied by the
    /// caller, so that tests can inject deterministic sequences: the
    /// deterministic heart of the simulation.
    pub fn tick_with_draws(&mut self, dt_ms: u64, clicked: bool, draws: SpawnDraws)
        requires
            old(self).wf(),
            dt_ms <= DT_MAX_MS,
            draws.wf(),
        ensures
            final(self).wf(),
            tick_rel(*old(self), *final(self), dt_ms as int, clicked, draws),
    {
        match self.state {
            GameState::Start => {
                if wait_for_click(&mut self.state, clicked) {
                    state_cleanup_system(&mut self.banners);
                }
            },
            GameState::Paused => {},
            GameState::GameOver => {
                if wait_for_click(&mut self.state, clicked) {
                    state_cleanup_system(&mut self.banners);
                    self.reset_game();
                }
            },
            GameState::Playing => {
                let ghost pre = *old(self);
                player_system(&mut self.player, dt_ms, clicked);
                let speed = self.speed_milli;
                horizontal_movement(&mut self.backgrounds, dt_ms, speed);
                loop_background(&mut self.backgrounds);
                rock_system(&mut self.rocks, &mut self.score, dt_ms, speed);
                rock_spawn_system(&mut self.timer, &mut self.rocks, dt_ms, draws);
                let hit = collision_system(&self.player, &self.rocks);
                if hit {
                    self.state = GameState::GameOver;
                    setup_game_over(&mut self.banners);
                }
            },
        }
    }

    /// One simulation tick against the thread-local random source: what
    /// the host loop calls. Whatever the generator returns, the tick obeys
    /// the deterministic relation for some in-range draws.
    pub fn tick(&mut self, dt_ms: u64, clicked: bool)
        requires
            old(self).wf(),
            dt_ms <= DT_MAX_MS,
        ensures
            final(self).wf(),
            exists|draws: SpawnDraws|
                #[trigger] draws.wf() && tick_rel(
                    *old(self),
                    *final(self),
                    dt_ms as int,
                    clicked,
                    draws,
                ),
            old(self).state == GameState::Start ==> final(self).state == if clicked {
                GameState::Playing
            } else {
                GameState::Start
            },
            old(self).state == GameState::Paused ==> *final(self) == *old(self),
            old(self).state == GameState::GameOver ==> final(self).state == if clicked {
                GameState::Start
            } else {
                GameState::GameOver
            },
            old(self).state == GameState::GameOver && clicked ==> final(self).score.0 == 0
                && final(self).rocks@.len() == 0 && final(self).player == (Player {
                velocity: BUMP_MILLI,
                y: 0i64,
                angle: 0i64,
            }),
    {
        let mut rng = crate::rng::fresh_rng();
        let draws = SpawnDraws::draw(&mut rng);
        self.tick_with_draws(dt_ms, clicked, draws);
    }
}


/// Law: from the Start screen the machine moves only on an edge-triggered
/// click, and only into Playing.
pub proof fn lemma_start_transition(
    pre: SimState,
    post: SimState,
    dt: int,
    clicked: bool,
    draws: SpawnDraws,
)
    requires
        tick_rel(pre, post, dt, clicked, draws),
        pre.state == GameState::Start,
    ensures
        post.state == if clicked {
            GameState::Playing
        } else {
            GameState::Start
        },
{
}

/// Law: a click on the GameOver screen drives the machine back to Start
/// and runs the full reset: the score is zero, the player is back at the
/// origin with one flap impulse of velocity and a level orientation, and
/// the obstacle registry is empty.
pub proof fn lemma_game_over_click_resets(
    pre: SimState,
    post: SimState,
    dt: int,
    draws: SpawnDraws,
)
    requires
        tick_rel(pre, post, dt, true, draws),
        pre.state == GameState::GameOver,
    ensures
        post.state == GameState::Start,
        post.score.0 == 0,
        post.player.velocity == BUMP_MILLI,
        post.player.y == 0,
        post.player.angle == 0,
        post.rocks@.len() == 0,
{
}

/// Law: a tick never lowers the score, and raises it by at most one.
pub proof fn lemma_score_monotone(
    pre: SimState,
    post: SimState,
    dt: int,
    clicked: bool,
    draws: SpawnDraws,
)
    requires
        tick_rel(pre, post, dt, clicked, draws),
        pre.state == GameState::Playing,
    ensures
        pre.score.0 <= post.score.0 <= pre.score.0 + 1,
{
}

} // verus!
