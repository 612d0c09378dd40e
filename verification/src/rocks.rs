//! Obstacles ("rocks"): the timer-driven spawner, horizontal scrolling,
//! off-screen despawning, pass-through scoring, and the collision check
//! against the player.

use vstd::prelude::*;

use crate::geom::box_points_spec;
use crate::geom::in_bounds;
use crate::geom::is_convex;
use crate::geom::oriented_box;
use crate::geom::separated;
use crate::geom::test_collision;
use crate::geom::CollisionPolygon;
use crate::geom::Vec2;
use crate::player::Player;
use crate::rng::rng_range;
use crate::scroll_amount;
use crate::scroll_amount_spec;
use crate::sim::Score;
use crate::DT_MAX_MS;
use crate::HVEL_MAX_MILLI;
use crate::PLAYER_HALF_HEIGHT_MILLI;
use crate::PLAYER_HALF_WIDTH_MILLI;
use crate::PLAYER_X_MICRO;
use crate::SPEED_MAX_MILLI;

verus! {

/// Where a new rock appears: just off the right edge of the screen
/// (width/2 + 60 units), in micro-units.
pub const ROCK_SPAWN_X_MICRO: i64 = 460_000_000;
/// A rock scrolled past this x position is off the left edge by a safety
/// margin (half the screen plus a rock width) and is destroyed.
pub const ROCK_MIN_X_MICRO: i64 = -508_000_000;
/// The horizontal scroll velocity every rock is spawned with, in
/// milli-units per second (250 units/s).
pub const ROCK_VELOCITY_MILLI: u64 = 250_000;
/// Half the unscaled rock height, in milli-units (239/2 units).
pub const ROCK_HALF_HEIGHT_MILLI: i64 = 119_500;
/// Half the screen height, in micro-units.
pub const SCREEN_HALF_HEIGHT_MICRO: i64 = 240_000_000;
/// Shortest spawn delay drawn after the timer fires, in milliseconds.
pub const SPAWN_DELAY_MIN_MS: u64 = 400;
/// One past the longest spawn delay drawn, in milliseconds.
pub const SPAWN_DELAY_MAX_MS: u64 = 1500;
/// Smallest scale factor drawn, in thousandths.
pub const SCALE_MIN_MILLI: u64 = 700;
/// One past the largest scale factor drawn, in thousandths.
pub const SCALE_MAX_MILLI: u64 = 1200;

/// Which fixed template a rock's collision polygon comes from: a spike
/// pointing up sits on the bottom edge; one pointing down hangs from the
/// top edge.
#[derive(Debug, Clone, Copy, Eq, PartialEq, Structural)]
pub enum RockKind {
    PointingUp,
    PointingDown,
}

/// The countdown until the next spawn: fires once `elapsed_ms` reaches
/// `duration_ms`, then is restarted with a freshly drawn duration.
#[derive(Debug, Clone, Copy, Eq, PartialEq, Structural)]
pub struct RockTimer {
    pub duration_ms: u64,
    pub elapsed_ms: u64,
}

impl RockTimer {
    pub open spec fn wf(self) -> bool {
        &&& self.duration_ms < SPAWN_DELAY_MAX_MS
        &&& self.elapsed_ms <= self.duration_ms
    }

    /// Whether this tick's elapsed time makes the countdown run out.
    pub open spec fn fires(self, dt_ms: int) -> bool {
        self.elapsed_ms + dt_ms >= self.duration_ms
    }

    /// The initial timer: zero duration, so it fires on the first Playing
    /// tick and spawns the first rock at once.
    pub fn new() -> (t: RockTimer)
        ensures
            t == (RockTimer { duration_ms: 0u64, elapsed_ms: 0u64 }),
            t.wf(),
    {
        RockTimer { duration_ms: 0, elapsed_ms: 0 }
    }

    /// Rewinds the countdown, keeping the current duration.
    pub fn reset(&mut self)
        ensures
            *final(self) == (RockTimer { duration_ms: old(self).duration_ms, elapsed_ms: 0u64 }),
            old(self).wf() ==> final(self).wf(),
    {
        self.elapsed_ms = 0;
    }
}

/// The random values one spawner firing consumes: a scale factor in
/// thousandths, a layout mode (0 top-only, 1 bottom-only, 2 both), and the
/// next countdown duration in milliseconds.
#[derive(Debug, Clone, Copy, Eq, PartialEq, Structural)]
pub struct SpawnDraws {
    pub scale_milli: u64,
    pub rock_type: u8,
    pub next_delay_ms: u64,
}

impl SpawnDraws {
    pub open spec fn wf(self) -> bool {
        &&& SCALE_MIN_MILLI <= self.scale_milli < SCALE_MAX_MILLI
        &&& self.rock_type <= 2
        &&& SPAWN_DELAY_MIN_MS <= self.next_delay_ms < SPAWN_DELAY_MAX_MS
    }

    /// Draws a fresh set of spawn values from the thread-local generator.
    /// Only the ranges are known of the result; the spawning logic itself
    /// is deterministic in these values.
    pub fn draw(rng: &mut rand::rngs::ThreadRng) -> (d: SpawnDraws)
        ensures
            d.wf(),
    {
        let scale_milli = rng_range(rng, SCALE_MIN_MILLI, SCALE_MAX_MILLI);
        let rock_type = rng_range(rng, 0, 3) as u8;
        let next_delay_ms = rng_range(rng, SPAWN_DELAY_MIN_MS, SPAWN_DELAY_MAX_MS);
        SpawnDraws { scale_milli, rock_type, next_delay_ms }
    }
}

/// A live obstacle: position in micro-units, its drawn scale in
/// thousandths, its fixed scroll velocity, its collision polygon (the
/// scaled template), and whether it has already awarded a point.
#[derive(Debug)]
pub struct Rock {
    pub x: i64,
    pub y: i64,
    pub scale_milli: u64,
    pub velocity_milli: u64,
    pub kind: RockKind,
    pub polygon: CollisionPolygon,
    pub has_scored: bool,
}

/// The collision template of a rock kind, scaled vertically by the scale
/// factor in thousandths; the x dimension is not scaled. A template
/// x coordinate in milli-units times 1000 is micro-units; a y coordinate in
/// milli-units times the scale in thousandths is micro-units, both exact.
pub open spec fn scaled_template(kind: RockKind, scale: int) -> Seq<Vec2> {
    match kind {
        RockKind::PointingUp => seq![
            Vec2 { x: -48_000_000i64, y: (-ROCK_HALF_HEIGHT_MILLI * scale) as i64 },
            Vec2 { x: 48_000_000i64, y: (-ROCK_HALF_HEIGHT_MILLI * scale) as i64 },
            Vec2 { x: 12_000_000i64, y: (ROCK_HALF_HEIGHT_MILLI * scale) as i64 },
        ],
        RockKind::PointingDown => seq![
            Vec2 { x: 12_000_000i64, y: (-ROCK_HALF_HEIGHT_MILLI * scale) as i64 },
            Vec2 { x: -48_000_000i64, y: (ROCK_HALF_HEIGHT_MILLI * scale) as i64 },
            Vec2 { x: 48_000_000i64, y: (ROCK_HALF_HEIGHT_MILLI * scale) as i64 },
        ],
    }
}

impl Rock {
    pub open spec fn wf(self) -> bool {
        &&& ROCK_MIN_X_MICRO <= self.x <= ROCK_SPAWN_X_MICRO
        &&& -1_000_000_000 <= self.y <= 1_000_000_000
        &&& 1 <= self.scale_milli <= 2000
        &&& self.velocity_milli <= HVEL_MAX_MILLI
        &&& self.polygon.points@ == scaled_template(self.kind, self.scale_milli as int)
        &&& self.polygon.wf()
    }
}

pub open spec fn registry_wf(rocks: Seq<Rock>) -> bool {
    forall|i: int| 0 <= i < rocks.len() ==> (#[trigger] rocks[i]).wf()
}

/// The scaled templates are strictly convex triangles within the collision
/// engine's bounds, for every admitted scale.
proof fn lemma_template_wf(kind: RockKind, scale: int)
    requires
        1 <= scale <= 2000,
    ensures
        is_convex(scaled_template(kind, scale)),
        in_bounds(scaled_template(kind, scale)),
{
    let pts = scaled_template(kind, scale);
    assert(pts.len() == 3);
    let yl = -ROCK_HALF_HEIGHT_MILLI * scale;
    let yh = ROCK_HALF_HEIGHT_MILLI * scale;
    assert(-300_000_000 <= yl <= 300_000_000);
    assert(239_000 <= yh - yl <= 478_000_000);
    let c0 = crate::geom::corner_cross(pts, 0);
    let c1 = crate::geom::corner_cross(pts, 1);
    let c2 = crate::geom::corner_cross(pts, 2);
    match kind {
        RockKind::PointingUp => {
            assert(c0 > 0) by (nonlinear_arith)
                requires
                    c0 == (pts[1].x - pts[0].x) * (pts[2].y - pts[0].y) - (pts[1].y - pts[0].y) * (
                    pts[2].x - pts[0].x),
                    pts[1].x - pts[0].x == 96_000_000,
                    pts[1].y - pts[0].y == 0,
                    pts[2].y - pts[0].y == yh - yl,
                    yh - yl > 0,
            ;
            assert(c1 > 0) by (nonlinear_arith)
                requires
                    c1 == (pts[2].x - pts[1].x) * (pts[0].y - pts[1].y) - (pts[2].y - pts[1].y) * (
                    pts[0].x - pts[1].x),
                    pts[0].y - pts[1].y == 0,
                    pts[2].y - pts[1].y == yh - yl,
                    pts[0].x - pts[1].x == -96_000_000,
                    yh - yl > 0,
            ;
            assert(c2 > 0) by (nonlinear_arith)
                requires
                    c2 == (pts[0].x - pts[2].x) * (pts[1].y - pts[2].y) - (pts[0].y - pts[2].y) * (
                    pts[1].x - pts[2].x),
                    pts[0].x - pts[2].x == -60_000_000,
                    pts[1].y - pts[2].y == yl - yh,
                    pts[0].y - pts[2].y == yl - yh,
                    pts[1].x - pts[2].x == 36_000_000,
                    yl - yh < 0,
            ;
            assert(forall|i: int| 0 <= i < pts.len() ==> #[trigger] crate::geom::corner_cross(
                pts,
                i,
            ) > 0) by {
                assert(crate::geom::corner_cross(pts, 0) == c0);
                assert(crate::geom::corner_cross(pts, 1) == c1);
                assert(crate::geom::corner_cross(pts, 2) == c2);
            }
        },
        RockKind::PointingDown => {
            assert(c0 < 0) by (nonlinear_arith)
                requires
                    c0 == (pts[1].x - pts[0].x) * (pts[2].y - pts[0].y) - (pts[1].y - pts[0].y) * (
                    pts[2].x - pts[0].x),
                    pts[1].x - pts[0].x == -60_000_000,
                    pts[1].y - pts[0].y == yh - yl,
                    pts[2].y - pts[0].y == yh - yl,
                    pts[2].x - pts[0].x == 36_000_000,
                    yh - yl > 0,
            ;
            assert(c1 < 0) by (nonlinear_arith)
                requires
                    c1 == (pts[2].x - pts[1].x) * (pts[0].y - pts[1].y) - (pts[2].y - pts[1].y) * (
                    pts[0].x - pts[1].x),
                    pts[2].x - pts[1].x == 96_000_000,
                    pts[0].y - pts[1].y == yl - yh,
                    pts[2].y - pts[1].y == 0,
                    yl - yh < 0,
            ;
            assert(c2 < 0) by (nonlinear_arith)
                requires
                    c2 == (pts[0].x - pts[2].x) * (pts[1].y - pts[2].y) - (pts[0].y - pts[2].y) * (
                    pts[1].x - pts[2].x),
                    pts[0].x - pts[2].x == -36_000_000,
                    pts[1].y - pts[2].y == 0,
                    pts[0].y - pts[2].y == yl - yh,
                    pts[1].x - pts[2].x == -96_000_000,
                    yl - yh < 0,
            ;
            assert(forall|i: int| 0 <= i < pts.len() ==> #[trigger] crate::geom::corner_cross(
                pts,
                i,
            ) < 0) by {
                assert(crate::geom::corner_cross(pts, 0) == c0);
                assert(crate::geom::corner_cross(pts, 1) == c1);
                assert(crate::geom::corner_cross(pts, 2) == c2);
            }
        },
    }
    assert(forall|i: int| 0 <= i < pts.len() ==> crate::geom::in_bounds_pt(#[trigger] pts[i]));
}

/// Builds the collision polygon of a rock: the kind's template, scaled.
/// The templates are fixed constants proven convex, so the construction
/// cannot in fact fail; a malformed template would be rejected by
/// `CollisionPolygon::try_new` at spawn time.
fn make_collision_polygon(kind: RockKind, scale_milli: u64) -> (p: CollisionPolygon)
    requires
        1 <= scale_milli <= 2000,
    ensures
        p.points@ == scaled_template(kind, scale_milli as int),
        p.wf(),
{
    let ys: i64 = ROCK_HALF_HEIGHT_MILLI * (scale_milli as i64);
    let mut points: Vec<Vec2> = Vec::new();
    match kind {
        RockKind::PointingUp => {
            points.push(Vec2 { x: -48_000_000, y: -ys });
            points.push(Vec2 { x: 48_000_000, y: -ys });
            points.push(Vec2 { x: 12_000_000, y: ys });
        },
        RockKind::PointingDown => {
            points.push(Vec2 { x: 12_000_000, y: -ys });
            points.push(Vec2 { x: -48_000_000, y: ys });
            points.push(Vec2 { x: 48_000_000, y: ys });
        },
    }
    proof {
        assert(points@ =~= scaled_template(kind, scale_milli as int));
        lemma_template_wf(kind, scale_milli as int);
    }
    match CollisionPolygon::try_new(points) {
        Some(p) => p,
        None => {
            proof {
                assert(false);
            }
            vstd::pervasive::unreached()
        },
    }
}

/// The scale actually applied to a spawn: the "both" layout shrinks the
/// drawn scale by a fixed 0.7 for visual balance.
pub open spec fn effective_scale(scale: int, rock_type: int) -> int {
    if rock_type == 2 {
        scale * 700 / 1000
    } else {
        scale
    }
}

/// Where a rock of the given kind and scale is anchored vertically: flush
/// with the bottom edge (pointing up) or the top edge (pointing down).
pub open spec fn spawn_y(kind: RockKind, scale: int) -> int {
    match kind {
        RockKind::PointingUp => -SCREEN_HALF_HEIGHT_MICRO + ROCK_HALF_HEIGHT_MILLI * scale,
        RockKind::PointingDown => SCREEN_HALF_HEIGHT_MICRO - ROCK_HALF_HEIGHT_MILLI * scale,
    }
}

/// What a freshly spawned rock of the given kind and effective scale looks
/// like: at the spawn position, unscored, carrying the fixed scroll
/// velocity and the scaled template polygon.
pub open spec fn spawned_rock(r: Rock, kind: RockKind, scale: int) -> bool {
    &&& r.x == ROCK_SPAWN_X_MICRO
    &&& r.y == spawn_y(kind, scale)
    &&& r.scale_milli == scale
    &&& r.velocity_milli == ROCK_VELOCITY_MILLI
    &&& r.kind == kind
    &&& !r.has_scored
    &&& r.polygon.points@ == scaled_template(kind, scale)
}

/// Emits the rocks of one spawner firing: layout 0 hangs one rock from the
/// top, layout 1 stands one on the bottom, layout 2 does both (bottom
/// first), shrunk and leaving a fixed gap scaled by the drawn factor.
pub fn spawn_rocks(rocks: &mut Vec<Rock>, scale_milli: u64, rock_type: u8)
    requires
        SCALE_MIN_MILLI <= scale_milli < SCALE_MAX_MILLI,
        rock_type <= 2,
        registry_wf(old(rocks)@),
    ensures
        registry_wf(final(rocks)@),
        forall|i: int| 0 <= i < old(rocks)@.len() ==> final(rocks)@[i] == old(rocks)@[i],
        ({
            let eff = effective_scale(scale_milli as int, rock_type as int);
            &&& rock_type == 0 ==> final(rocks)@.len() == old(rocks)@.len() + 1 && spawned_rock(
                final(rocks)@[old(rocks)@.len() as int],
                RockKind::PointingDown,
                eff,
            )
            &&& rock_type == 1 ==> final(rocks)@.len() == old(rocks)@.len() + 1 && spawned_rock(
                final(rocks)@[old(rocks)@.len() as int],
                RockKind::PointingUp,
                eff,
            )
            &&& rock_type == 2 ==> final(rocks)@.len() == old(rocks)@.len() + 2 && spawned_rock(
                final(rocks)@[old(rocks)@.len() as int],
                RockKind::PointingUp,
                eff,
            ) && spawned_rock(
                final(rocks)@[old(rocks)@.len() as int + 1],
                RockKind::PointingDown,
                eff,
            )
        }),
{
    let eff: u64 = if rock_type == 2 {
        let shrunk = scale_milli * 700 / 1000;
        proof {
            vstd::arithmetic::div_mod::lemma_div_is_ordered(490_000, scale_milli * 700, 1000);
            vstd::arithmetic::div_mod::lemma_div_is_ordered(scale_milli * 700, 839_300, 1000);
        }
        shrunk
    } else {
        scale_milli
    };
    let half: i64 = ROCK_HALF_HEIGHT_MILLI * (eff as i64);
    if rock_type != 0 {
        let polygon = make_collision_polygon(RockKind::PointingUp, eff);
        rocks.push(
            Rock {
                x: ROCK_SPAWN_X_MICRO,
                y: -SCREEN_HALF_HEIGHT_MICRO + half,
                scale_milli: eff,
                velocity_milli: ROCK_VELOCITY_MILLI,
                kind: RockKind::PointingUp,
                polygon,
                has_scored: false,
            },
        );
    }
    if rock_type != 1 {
        let polygon = make_collision_polygon(RockKind::PointingDown, eff);
        rocks.push(
            Rock {
                x: ROCK_SPAWN_X_MICRO,
                y: SCREEN_HALF_HEIGHT_MICRO - half,
                scale_milli: eff,
                velocity_milli: ROCK_VELOCITY_MILLI,
                kind: RockKind::PointingDown,
                polygon,
                has_scored: false,
            },
        );
    }
}

/// One tick of the spawner: advance the countdown by the elapsed time;
/// when it runs out, emit the drawn layout and restart the countdown with
/// the drawn duration. A tick that does not fire changes nothing but the
/// countdown.
pub fn rock_spawn_system(
    timer: &mut RockTimer,
    rocks: &mut Vec<Rock>,
    dt_ms: u64,
    draws: SpawnDraws,
)
    requires
        old(timer).wf(),
        registry_wf(old(rocks)@),
        dt_ms <= DT_MAX_MS,
        draws.wf(),
    ensures
        final(timer).wf(),
        registry_wf(final(rocks)@),
        forall|i: int| 0 <= i < old(rocks)@.len() ==> final(rocks)@[i] == old(rocks)@[i],
        old(timer).fires(dt_ms as int) ==> {
            let eff = effective_scale(draws.scale_milli as int, draws.rock_type as int);
            &&& *final(timer) == (RockTimer { duration_ms: draws.next_delay_ms, elapsed_ms: 0u64 })
            &&& draws.rock_type == 0 ==> final(rocks)@.len() == old(rocks)@.len() + 1
                && spawned_rock(final(rocks)@[old(rocks)@.len() as int], RockKind::PointingDown, eff)
            &&& draws.rock_type == 1 ==> final(rocks)@.len() == old(rocks)@.len() + 1
                && spawned_rock(final(rocks)@[old(rocks)@.len() as int], RockKind::PointingUp, eff)
            &&& draws.rock_type == 2 ==> final(rocks)@.len() == old(rocks)@.len() + 2
                && spawned_rock(final(rocks)@[old(rocks)@.len() as int], RockKind::PointingUp, eff)
                && spawned_rock(final(rocks)@[old(rocks)@.len() as int + 1], RockKind::PointingDown, eff)
        },
        !old(timer).fires(dt_ms as int) ==> final(rocks)@ == old(rocks)@ && *final(timer) == (
        RockTimer { duration_ms: old(timer).duration_ms, elapsed_ms: (old(timer).elapsed_ms
            + dt_ms) as u64 }),
{
    if dt_ms >= timer.duration_ms - timer.elapsed_ms {
        spawn_rocks(rocks, draws.scale_milli, draws.rock_type);
        *timer = RockTimer { duration_ms: draws.next_delay_ms, elapsed_ms: 0 };
    } else {
        timer.elapsed_ms = timer.elapsed_ms + dt_ms;
    }
}

/// A rock's state after one tick of scrolling, with the pass-through mark:
/// a rock now behind the player's fixed x position is marked scored.
pub open spec fn step_rock(r: Rock, dt: int, speed: int) -> Rock {
    let amt = scroll_amount_spec(dt, speed, r.velocity_milli as int);
    Rock {
        x: (r.x - amt) as i64,
        has_scored: r.has_scored || r.x - amt < PLAYER_X_MICRO,
        ..r
    }
}

/// Whether the rock survives the tick: it is destroyed once its scrolled
/// position falls below the minimum x threshold.
pub open spec fn rock_kept(r: Rock, dt: int, speed: int) -> bool {
    r.x - scroll_amount_spec(dt, speed, r.velocity_milli as int) >= ROCK_MIN_X_MICRO
}

/// Whether the rock makes this tick award a point: it survives, has not
/// scored before, and its scrolled position has passed the player.
pub open spec fn rock_eligible(r: Rock, dt: int, speed: int) -> bool {
    &&& rock_kept(r, dt, speed)
    &&& !r.has_scored
    &&& r.x - scroll_amount_spec(dt, speed, r.velocity_milli as int) < PLAYER_X_MICRO
}

/// The registry after one tick: every rock scrolled and marked, the ones
/// past the minimum threshold dropped, order kept.
pub open spec fn lifecycle_spec(rocks: Seq<Rock>, dt: int, speed: int) -> Seq<Rock>
    decreases rocks.len(),
{
    if rocks.len() == 0 {
        Seq::empty()
    } else {
        let rest = lifecycle_spec(rocks.drop_first(), dt, speed);
        if rock_kept(rocks[0], dt, speed) {
            seq![step_rock(rocks[0], dt, speed)] + rest
        } else {
            rest
        }
    }
}

/// Whether the tick awards a point: some rock is eligible. However many
/// rocks cross the player in one tick — in particular both rocks of a
/// spawned pair — the score is incremented at most once per tick.
pub open spec fn lifecycle_gain(rocks: Seq<Rock>, dt: int, speed: int) -> bool {
    exists|i: int| 0 <= i < rocks.len() && rock_eligible(#[trigger] rocks[i], dt, speed)
}

/// Appending a rock to the input appends its processed form (if kept) to
/// the output.
proof fn lemma_lifecycle_snoc(s: Seq<Rock>, r: Rock, dt: int, speed: int)
    ensures
        lifecycle_spec(s.push(r), dt, speed) == lifecycle_spec(s, dt, speed) + (if rock_kept(
            r,
            dt,
            speed,
        ) {
            seq![step_rock(r, dt, speed)]
        } else {
            Seq::<Rock>::empty()
        }),
    decreases s.len(),
{
    let tail = if rock_kept(r, dt, speed) {
        seq![step_rock(r, dt, speed)]
    } else {
        Seq::<Rock>::empty()
    };
    if s.len() == 0 {
        assert(s.push(r).drop_first() =~= Seq::<Rock>::empty());
        assert(s.push(r)[0] == r);
        assert(lifecycle_spec(Seq::<Rock>::empty(), dt, speed) == Seq::<Rock>::empty());
        assert(s =~= Seq::<Rock>::empty());
        assert(lifecycle_spec(s.push(r), dt, speed) =~= tail);
        assert(lifecycle_spec(s, dt, speed) + tail =~= tail);
    } else {
        assert(s.push(r).drop_first() =~= s.drop_first().push(r));
        lemma_lifecycle_snoc(s.drop_first(), r, dt, speed);
        assert(s.push(r)[0] == s[0]);
        if rock_kept(s[0], dt, speed) {
            assert(lifecycle_spec(s.push(r), dt, speed) == seq![step_rock(s[0], dt, speed)]
                + (lifecycle_spec(s.drop_first(), dt, speed) + tail));
            assert(seq![step_rock(s[0], dt, speed)] + (lifecycle_spec(s.drop_first(), dt, speed)
                + tail) =~= (seq![step_rock(s[0], dt, speed)] + lifecycle_spec(
                s.drop_first(),
                dt,
                speed,
            )) + tail);
        }
    }
}

/// One tick of obstacle lifecycle and scoring: scroll every rock left,
/// destroy the ones past the minimum x threshold, mark the ones that
/// passed the player, and award at most one point for the whole tick.
pub fn rock_system(rocks: &mut Vec<Rock>, score: &mut Score, dt_ms: u64, speed_milli: u64)
    requires
        registry_wf(old(rocks)@),
        dt_ms <= DT_MAX_MS,
        speed_milli <= SPEED_MAX_MILLI,
    ensures
        final(rocks)@ == lifecycle_spec(old(rocks)@, dt_ms as int, speed_milli as int),
        registry_wf(final(rocks)@),
        final(score).0 == if lifecycle_gain(old(rocks)@, dt_ms as int, speed_milli as int) && old(
            score,
        ).0 < u64::MAX {
            old(score).0 + 1
        } else {
            old(score).0 as int
        },
{
    let ghost orig = rocks@;
    let ghost dt = dt_ms as int;
    let ghost speed = speed_milli as int;
    let mut pending: Vec<Rock> = Vec::new();
    core::mem::swap(rocks, &mut pending);
    let mut gained = false;
    let mut i: usize = 0;
    let n = pending.len();
    proof {
        assert(pending@ =~= orig.skip(0));
        assert(orig.take(0) =~= Seq::<Rock>::empty());
    }
    while i < n
        invariant
            n == orig.len(),
            i <= n,
            dt == dt_ms as int,
            speed == speed_milli as int,
            dt_ms <= DT_MAX_MS,
            speed_milli <= SPEED_MAX_MILLI,
            registry_wf(orig),
            pending@ == orig.skip(i as int),
            rocks@ == lifecycle_spec(orig.take(i as int), dt, speed),
            registry_wf(rocks@),
            gained == exists|t: int| 0 <= t < i && rock_eligible(#[trigger] orig[t], dt, speed),
        decreases n - i,
    {
        let r = pending.remove(0);
        proof {
            assert(orig.skip(i as int)[0] == orig[i as int]);
            assert(r == orig[i as int]);
            assert(orig.skip(i as int).drop_first() =~= orig.skip(i as int + 1));
            assert((orig[i as int]).wf());
            lemma_lifecycle_snoc(orig.take(i as int), orig[i as int], dt, speed);
            assert(orig.take(i as int).push(orig[i as int]) =~= orig.take(i as int + 1));
        }
        let amt = scroll_amount(dt_ms, speed_milli, r.velocity_milli);
        let new_x: i64 = r.x - (amt as i64);
        if new_x >= ROCK_MIN_X_MICRO {
            let crossed = new_x < PLAYER_X_MICRO;
            if crossed && !r.has_scored {
                gained = true;
            }
            let stepped = Rock { x: new_x, has_scored: r.has_scored || crossed, ..r };
            proof {
                assert(stepped == step_rock(orig[i as int], dt, speed));
                assert(stepped.wf());
            }
            rocks.push(stepped);
            proof {
                assert(rocks@ =~= lifecycle_spec(orig.take(i as int), dt, speed) + seq![stepped]);
            }
        }
        i += 1;
    }
    proof {
        assert(orig.take(n as int) =~= orig);
    }
    if gained {
        if score.0 < u64::MAX {
            score.0 = score.0 + 1;
        }
    }
}

/// Law: after one lifecycle pass, no rock below the minimum x threshold
/// remains in the registry — every survivor sits at or above it.
pub proof fn lemma_despawned_rocks_absent(rocks: Seq<Rock>, dt: int, speed: int)
    requires
        0 <= dt,
        0 <= speed,
    ensures
        forall|i: int| 0 <= i < lifecycle_spec(rocks, dt, speed).len() ==> (
        #[trigger] lifecycle_spec(rocks, dt, speed)[i]).x >= ROCK_MIN_X_MICRO,
    decreases rocks.len(),
{
    if rocks.len() > 0 {
        lemma_despawned_rocks_absent(rocks.drop_first(), dt, speed);
        let r = rocks[0];
        let amt = scroll_amount_spec(dt, speed, r.velocity_milli as int);
        assert(amt >= 0) by (nonlinear_arith)
            requires
                amt == dt * speed * (r.velocity_milli as int) / 1000,
                0 <= dt,
                0 <= speed,
                0 <= r.velocity_milli as int,
        ;
        if rock_kept(r, dt, speed) {
            assert(step_rock(r, dt, speed).x == r.x - amt);
            assert(forall|i: int| 0 <= i < lifecycle_spec(rocks.drop_first(), dt, speed).len()
                ==> lifecycle_spec(rocks, dt, speed)[i + 1] == (
                #[trigger] lifecycle_spec(rocks.drop_first(), dt, speed)[i]));
        }
    }
}

/// Law: the score rises by at most one per tick, whatever crosses the
/// player. In particular, when both rocks of a spawned pair cross the
/// player in the same tick, the tick awards exactly one point, not two.
pub proof fn lemma_pair_scores_once(
    rocks: Seq<Rock>,
    dt: int,
    speed: int,
    i: int,
    j: int,
    score: u64,
)
    requires
        0 <= i < rocks.len(),
        0 <= j < rocks.len(),
        i != j,
        rock_eligible(rocks[i], dt, speed),
        rock_eligible(rocks[j], dt, speed),
        score < u64::MAX,
    ensures
        ({
            let after = if lifecycle_gain(rocks, dt, speed) && score < u64::MAX {
                score + 1
            } else {
                score as int
            };
            after == score + 1
        }),
{
    assert(lifecycle_gain(rocks, dt, speed));
}

/// The player's oriented collision rectangle, in world space.
pub open spec fn player_box(p: Player) -> Seq<Vec2> {
    box_points_spec(
        PLAYER_X_MICRO as int,
        p.y as int,
        PLAYER_HALF_WIDTH_MILLI as int,
        PLAYER_HALF_HEIGHT_MILLI as int,
        p.angle as int,
    )
}

/// Whether the player's rectangle strictly overlaps the rock's translated
/// polygon under the separating-axis classification.
pub open spec fn rock_hit(p: Player, r: Rock) -> bool {
    !separated(player_box(p), Vec2 { x: 0, y: 0 }, r.polygon.points@, Vec2 { x: r.x, y: r.y })
}

/// The collision test between the player and one rock: the player's
/// rectangle, oriented by the velocity-derived angle, against the rock's
/// polygon translated (never rotated) to the rock's position.
pub fn is_rock_collision(player: &Player, rock: &Rock) -> (hit: bool)
    requires
        player.wf(),
        rock.wf(),
    ensures
        hit == rock_hit(*player, *rock),
{
    let pbox = oriented_box(
        PLAYER_X_MICRO,
        player.y,
        PLAYER_HALF_WIDTH_MILLI,
        PLAYER_HALF_HEIGHT_MILLI,
        player.angle,
    );
    test_collision(&pbox, Vec2::new(0, 0), &rock.polygon, Vec2::new(rock.x, rock.y))
}

/// Tests the player against every live rock; the first hit ends the scan
/// and is the terminal condition driving the state machine to GameOver.
pub fn collision_system(player: &Player, rocks: &Vec<Rock>) -> (hit: bool)
    requires
        player.wf(),
        registry_wf(rocks@),
    ensures
        hit == exists|i: int| 0 <= i < rocks@.len() && rock_hit(*player, #[trigger] rocks@[i]),
{
    let n = rocks.len();
    let mut i: usize = 0;
    while i < n
        invariant
            n == rocks@.len(),
            i <= n,
            player.wf(),
            registry_wf(rocks@),
            forall|j: int| 0 <= j < i ==> !rock_hit(*player, #[trigger] rocks@[j]),
        decreases n - i,
    {
        if is_rock_collision(player, &rocks[i]) {
            return true;
        }
        i += 1;
    }
    false
}

} // verus!
