//! Player physics: flap impulses, gravity integration, and the mapping from
//! vertical velocity to orientation.

use vstd::prelude::*;

use crate::BUMP_MILLI;
use crate::CLIMB_MDEG;
use crate::DIVE_MDEG;
use crate::DT_MAX_MS;
use crate::FREE_FALL_MILLI;
use crate::FULL_TURN_MDEG;
use crate::GRAVITY_MILLI_PER_MS;
use crate::QUARTER_TURN_MDEG;
use crate::VEL_FLOOR_MILLI;
use crate::Y_LIMIT_MICRO;

verus! {

/// The player: vertical velocity in milli-units/s, vertical position in
/// micro-units, and the orientation derived from the velocity, in
/// millidegrees. The horizontal position is fixed at `PLAYER_X_MICRO` and the
/// collision rectangle's half-extents are the `PLAYER_HALF_*` constants, so
/// neither is a field.
#[derive(Debug, Clone, Copy, Eq, PartialEq, Structural)]
pub struct Player {
    pub velocity: i64,
    pub y: i64,
    pub angle: i64,
}

/// Orientation as a pure function of velocity, in millidegrees:
/// - at or above zero, the angle climbs linearly with velocity, reaching
///   `CLIMB_MDEG` at `BUMP_MILLI`;
/// - between the free-fall threshold and zero, it sweeps from a full turn
///   (facing level) down toward `DIVE_MDEG`;
/// - at or below the free-fall threshold, it stays pinned at `DIVE_MDEG`.
pub open spec fn orientation_mdeg_spec(v: int) -> int {
    if v >= 0 {
        v * (CLIMB_MDEG as int) / (BUMP_MILLI as int)
    } else if v > FREE_FALL_MILLI {
        FULL_TURN_MDEG - (-v) * (QUARTER_TURN_MDEG as int) / (-(FREE_FALL_MILLI as int))
    } else {
        DIVE_MDEG as int
    }
}

/// Velocity after applying a flap event: a flap overwrites the velocity with
/// the fixed impulse `BUMP_MILLI`; it never adds to it.
pub open spec fn vel_after_flap(v: int, flap: bool) -> int {
    if flap {
        BUMP_MILLI as int
    } else {
        v
    }
}

/// Velocity saturates at `VEL_FLOOR_MILLI` instead of overflowing.
pub open spec fn clamp_velocity(v: int) -> int {
    if v < VEL_FLOOR_MILLI {
        VEL_FLOOR_MILLI as int
    } else {
        v
    }
}

/// Vertical position saturates at `Y_LIMIT_MICRO` in magnitude instead of
/// overflowing.
pub open spec fn clamp_y(y: int) -> int {
    if y < -Y_LIMIT_MICRO {
        -Y_LIMIT_MICRO as int
    } else if y > Y_LIMIT_MICRO {
        Y_LIMIT_MICRO as int
    } else {
        y
    }
}

/// Velocity at the end of a tick: flap first, then lose
/// `GRAVITY_MILLI_PER_MS` per millisecond.
pub open spec fn vel_after_tick(v: int, flap: bool, dt_ms: int) -> int {
    clamp_velocity(vel_after_flap(v, flap) - GRAVITY_MILLI_PER_MS * dt_ms)
}

/// Vertical position at the end of a tick: the post-flap velocity, before the
/// gravity loss, carries the player for the whole tick (explicit Euler).
pub open spec fn y_after_tick(y: int, v: int, flap: bool, dt_ms: int) -> int {
    clamp_y(y + vel_after_flap(v, flap) * dt_ms)
}

impl Player {
    /// Well-formedness: the velocity never exceeds the flap impulse (a flap
    /// sets it there and gravity only lowers it), and velocity, position and
    /// angle stay within their saturation bounds.
    pub open spec fn wf(self) -> bool {
        &&& VEL_FLOOR_MILLI <= self.velocity <= BUMP_MILLI
        &&& -Y_LIMIT_MICRO <= self.y <= Y_LIMIT_MICRO
        &&& 0 <= self.angle <= FULL_TURN_MDEG
    }

    /// A fresh player: at the origin, carrying one flap impulse, level.
    pub fn new() -> (p: Player)
        ensures
            p.wf(),
            p.velocity == BUMP_MILLI,
            p.y == 0,
            p.angle == 0,
    {
        Player { velocity: BUMP_MILLI, y: 0, angle: 0 }
    }
}

/// The player at the end of one Playing tick: the flap (if any) overwrites
/// the velocity first; the post-flap velocity carries the player and sets
/// the orientation; then gravity lowers the velocity.
pub open spec fn player_after(p: Player, flap: bool, dt_ms: int) -> Player {
    Player {
        velocity: vel_after_tick(p.velocity as int, flap, dt_ms) as i64,
        y: y_after_tick(p.y as int, p.velocity as int, flap, dt_ms) as i64,
        angle: orientation_mdeg_spec(vel_after_flap(p.velocity as int, flap)) as i64,
    }
}

/// One tick of player physics: apply the flap event, derive the
/// orientation from the post-flap velocity, integrate the position by
/// explicit Euler, and apply gravity to the velocity.
pub fn player_system(player: &mut Player, dt_ms: u64, flap: bool)
    requires
        old(player).wf(),
        dt_ms <= DT_MAX_MS,
    ensures
        final(player).wf(),
        *final(player) == player_after(*old(player), flap, dt_ms as int),
        final(player).velocity == vel_after_tick(old(player).velocity as int, flap, dt_ms as int),
        final(player).y == y_after_tick(
            old(player).y as int,
            old(player).velocity as int,
            flap,
            dt_ms as int,
        ),
        final(player).angle == orientation_mdeg_spec(
            vel_after_flap(old(player).velocity as int, flap),
        ),
{
    if flap {
        player.velocity = BUMP_MILLI;
    }
    player.angle = orientation_mdeg(player.velocity);
    assert(-100_000_000_000_000_000 <= player.velocity * dt_ms <= 100_000_000_000_000_000)
        by (nonlinear_arith)
        requires
            -1_000_000_000_000 <= player.velocity <= 1_000_000_000_000,
            0 <= dt_ms <= 100_000,
    ;
    let dy: i64 = player.velocity * (dt_ms as i64);
    let moved: i64 = player.y + dy;
    player.y = if moved < -Y_LIMIT_MICRO {
        -Y_LIMIT_MICRO
    } else if moved > Y_LIMIT_MICRO {
        Y_LIMIT_MICRO
    } else {
        moved
    };
    let lowered: i64 = player.velocity - GRAVITY_MILLI_PER_MS * (dt_ms as i64);
    player.velocity = if lowered < VEL_FLOOR_MILLI {
        VEL_FLOOR_MILLI
    } else {
        lowered
    };
}

/// Law: on a tick with elapsed time and no flap event, the velocity
/// decreases by exactly `GRAVITY_MILLI_PER_MS * dt_ms` — strictly, whenever
/// any time elapsed — as long as the unreachable saturation floor is not
/// hit.
pub proof fn lemma_gravity_strictly_decreases(v: int, dt_ms: int)
    requires
        dt_ms > 0,
        v - GRAVITY_MILLI_PER_MS * dt_ms >= VEL_FLOOR_MILLI,
    ensures
        vel_after_tick(v, false, dt_ms) == v - GRAVITY_MILLI_PER_MS * dt_ms,
        vel_after_tick(v, false, dt_ms) < v,
{
}

/// Law: a flap event sets the velocity to exactly `BUMP_MILLI`, overwriting
/// whatever it was — never adding to it. Two players with different
/// velocities end a flapping tick with the same velocity.
pub proof fn lemma_flap_overwrites(v1: int, v2: int, dt_ms: int)
    ensures
        vel_after_flap(v1, true) == BUMP_MILLI,
        vel_after_tick(v1, true, dt_ms) == vel_after_tick(v2, true, dt_ms),
{
}

/// Law: orientation is a deterministic, bounded function of the velocity
/// alone. For every velocity the state machine can produce (at most the
/// flap impulse), it stays within one full turn; at the flap impulse it is
/// the full climb angle; at or below the free-fall threshold it is pinned
/// at the steep-dive angle.
pub proof fn lemma_orientation_bounded(v: int)
    requires
        v <= BUMP_MILLI,
    ensures
        0 <= orientation_mdeg_spec(v) <= FULL_TURN_MDEG,
        v == BUMP_MILLI ==> orientation_mdeg_spec(v) == CLIMB_MDEG,
        v <= FREE_FALL_MILLI ==> orientation_mdeg_spec(v) == DIVE_MDEG,
{
    if v >= 0 {
        vstd::arithmetic::div_mod::lemma_div_is_ordered(0, v * 30_000, 292_500);
        vstd::arithmetic::div_mod::lemma_div_is_ordered(v * 30_000, 8_775_000_000, 292_500);
    } else if v > FREE_FALL_MILLI {
        vstd::arithmetic::div_mod::lemma_div_is_ordered(0, (-v) * 90_000, 427_500);
        vstd::arithmetic::div_mod::lemma_div_is_ordered((-v) * 90_000, 38_474_910_000, 427_500);
    }
}

/// Dividing a slightly larger numerator moves the quotient up by at most
/// one, when the increase is at most the divisor.
proof fn lemma_div_step(x: int, a: int, d: int)
    requires
        0 <= x,
        0 <= a <= d,
        0 < d,
    ensures
        x / d <= (x + a) / d <= x / d + 1,
{
    vstd::arithmetic::div_mod::lemma_fundamental_div_mod(x, d);
    vstd::arithmetic::div_mod::lemma_mod_bound(x, d);
    let q = x / d;
    let r = x % d;
    if r + a < d {
        assert(x + a == d * q + (r + a));
        vstd::arithmetic::div_mod::lemma_div_multiples_vanish_fancy(q, r + a, d);
    } else {
        assert(d * (q + 1) == d * q + d) by (nonlinear_arith);
        assert(x + a == d * (q + 1) + (r + a - d));
        vstd::arithmetic::div_mod::lemma_div_multiples_vanish_fancy(q + 1, r + a - d, d);
    }
    vstd::arithmetic::div_mod::lemma_div_is_ordered(x, x + a, d);
}

/// Law: orientation is continuous in the velocity. One milli-unit of
/// velocity moves the angle by at most one millidegree, except at the
/// wrap from just-below-level to level, where the angle drops by exactly
/// one full turn — the same direction on the circle.
pub proof fn lemma_orientation_continuous(v: int)
    requires
        v + 1 <= BUMP_MILLI,
    ensures
        0 <= orientation_mdeg_spec(v + 1) - orientation_mdeg_spec(v) <= 1 || orientation_mdeg_spec(
            v + 1,
        ) - orientation_mdeg_spec(v) == -FULL_TURN_MDEG,
{
    if v >= 0 {
        assert((v + 1) * 30_000 == v * 30_000 + 30_000) by (nonlinear_arith);
        lemma_div_step(v * 30_000, 30_000, 292_500);
    } else if v == -1 {
        assert(orientation_mdeg_spec(v) == FULL_TURN_MDEG - 90_000int / 427_500);
        vstd::arithmetic::div_mod::lemma_basic_div(90_000int, 427_500int);
    } else if v > FREE_FALL_MILLI {
        assert((-v) * 90_000 == (-(v + 1)) * 90_000 + 90_000) by (nonlinear_arith);
        lemma_div_step((-(v + 1)) * 90_000, 90_000, 427_500);
    } else if v + 1 > FREE_FALL_MILLI {
        assert(v == FREE_FALL_MILLI);
        assert(orientation_mdeg_spec(v + 1) == FULL_TURN_MDEG - 427_499 * 90_000 / 427_500);
        assert(427_499 * 90_000 == 38_474_910_000);
        assert(38_474_910_000int == 427_500 * 89_999 + 337_500);
        vstd::arithmetic::div_mod::lemma_div_multiples_vanish_fancy(89_999, 337_500, 427_500);
    }
}

/// Orientation as an executable function of velocity.
pub fn orientation_mdeg(velocity: i64) -> (angle: i64)
    requires
        velocity <= BUMP_MILLI,
    ensures
        angle == orientation_mdeg_spec(velocity as int),
        0 <= angle <= FULL_TURN_MDEG,
{
    if velocity >= 0 {
        let scaled: u64 = (velocity as u64) * 30_000;
        (scaled / 292_500) as i64
    } else if velocity > FREE_FALL_MILLI {
        let magnitude: u64 = (-velocity) as u64;
        let swept: i64 = ((magnitude * 90_000) / 427_500) as i64;
        FULL_TURN_MDEG - swept
    } else {
        DIVE_MDEG
    }
}

} // verus!
