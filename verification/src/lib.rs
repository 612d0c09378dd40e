//! Simulation core of a side-scrolling "flappy" glider game.
//!
//! The core is a deterministic, fixed-point model of the game: player physics
//! (gravity and flap impulses), a convex-polygon collision engine, a
//! timer-driven obstacle spawner, obstacle lifecycle and scoring, scrolling
//! backgrounds, and a four-state lifecycle machine. Rendering, asset loading
//! and input-device plumbing are external collaborators: the host hands the
//! core one elapsed-time value and one edge-triggered click per tick, and
//! reads entity positions back out.
//!
//! All quantities are integers in fixed-point units:
//! - lengths and positions: micro-units (one world unit = 1_000_000);
//! - velocities: milli-units per second (one unit/s = 1_000);
//! - elapsed time: milliseconds;
//! - angles: millidegrees (a full turn = 360_000);
//! - scale factors and trigonometric values: thousandths.
//!
//! With these units one tick of explicit Euler integration is exact:
//! a velocity in milli-units/s times a duration in ms is a displacement in
//! micro-units, with no rounding.

use vstd::prelude::*;

pub mod background;
pub mod geom;
pub mod player;
pub mod rng;
pub mod rocks;
pub mod sim;
pub mod state;
pub mod trig;

verus! {

/// Screen width in micro-units (800 world units).
pub const WIDTH_MICRO: i64 = 800_000_000;
/// Screen height in micro-units (480 world units).
pub const HEIGHT_MICRO: i64 = 480_000_000;

/// Downward acceleration in milli-units per second per second (450 units/s^2).
pub const GRAVITY_MILLI: i64 = 450_000;
/// Velocity lost per millisecond of a tick, in milli-units per second.
/// Equal to `GRAVITY_MILLI / 1000`, so one tick subtracts exactly
/// `GRAVITY_MILLI_PER_MS * dt_ms` from the velocity.
pub const GRAVITY_MILLI_PER_MS: i64 = 450;
/// The flap impulse in milli-units per second: `GRAVITY * 0.65`.
pub const BUMP_MILLI: i64 = 292_500;
/// At or below this velocity the player is in free fall and faces straight
/// down: `BUMP - GRAVITY * 1.6`.
pub const FREE_FALL_MILLI: i64 = -427_500;

/// The player's fixed horizontal position in micro-units (-200 units).
pub const PLAYER_X_MICRO: i64 = -200_000_000;
/// Half the width of the player's collision rectangle in milli-units
/// (a quarter of the 88-unit sprite).
pub const PLAYER_HALF_WIDTH_MILLI: i64 = 22_000;
/// Half the height of the player's collision rectangle in milli-units
/// (a quarter of the 73-unit sprite).
pub const PLAYER_HALF_HEIGHT_MILLI: i64 = 18_250;

/// Largest elapsed time a single tick may carry, in milliseconds.
pub const DT_MAX_MS: u64 = 100_000;
/// Velocity saturates here instead of overflowing; unreachable in any
/// session of realistic length.
pub const VEL_FLOOR_MILLI: i64 = -1_000_000_000_000;
/// Vertical position saturates at this magnitude instead of overflowing;
/// more than a million screen heights away.
pub const Y_LIMIT_MICRO: i64 = 1_000_000_000_000_000;

/// Orientation at a full climb (velocity = BUMP): 30 degrees.
pub const CLIMB_MDEG: i64 = 30_000;
/// Orientation in free fall: 270 degrees, facing straight down.
pub const DIVE_MDEG: i64 = 270_000;
/// One full turn in millidegrees.
pub const FULL_TURN_MDEG: i64 = 360_000;
/// A quarter turn in millidegrees.
pub const QUARTER_TURN_MDEG: i64 = 90_000;

/// The global game-speed multiplier in thousandths; 1000 is normal speed.
pub const GAME_SPEED_MILLI: u64 = 1_000;
/// Largest admitted game-speed multiplier, in thousandths.
pub const SPEED_MAX_MILLI: u64 = 1_000_000;
/// Largest admitted horizontal scroll velocity, in milli-units per second.
pub const HVEL_MAX_MILLI: u64 = 1_000_000;

/// How far an entity with the given horizontal velocity scrolls left in one
/// tick, in micro-units: elapsed milliseconds times velocity, scaled by the
/// game-speed multiplier in thousandths.
pub open spec fn scroll_amount_spec(dt_ms: int, speed_milli: int, velocity_milli: int) -> int {
    dt_ms * speed_milli * velocity_milli / 1000
}

/// Executable scroll displacement; exact for the normal game speed of 1000.
pub fn scroll_amount(dt_ms: u64, speed_milli: u64, velocity_milli: u64) -> (amt: u64)
    requires
        dt_ms <= DT_MAX_MS,
        speed_milli <= SPEED_MAX_MILLI,
        velocity_milli <= HVEL_MAX_MILLI,
    ensures
        amt == scroll_amount_spec(dt_ms as int, speed_milli as int, velocity_milli as int),
        amt <= 100_000_000_000_000_000,
{
    assert(0 <= dt_ms * speed_milli <= 100_000_000_000) by (nonlinear_arith)
        requires
            dt_ms <= 100_000,
            speed_milli <= 1_000_000,
    ;
    assert(dt_ms * speed_milli * velocity_milli <= 100_000_000_000_000_000) by (nonlinear_arith)
        requires
            dt_ms * speed_milli <= 100_000_000_000,
            velocity_milli <= 1_000_000,
            0 <= dt_ms * speed_milli,
    ;
    dt_ms * speed_milli * velocity_milli / 1000
}

} // verus!
