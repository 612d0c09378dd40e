//! Fixed-point trigonometry in thousandths, used to orient the player's
//! collision rectangle. A quarter wave is defined by linear interpolation
//! between exact milli-sine values at 15-degree knots; the full circle
//! follows by symmetry. This piecewise-linear definition is the library's
//! rotation model: deterministic, bounded, and exactly stated.

use vstd::prelude::*;

verus! {

/// Milli-sine values at the 15-degree knots of the first quadrant.
pub open spec fn sin_table(k: int) -> int {
    if k <= 0 {
        0
    } else if k == 1 {
        259
    } else if k == 2 {
        500
    } else if k == 3 {
        707
    } else if k == 4 {
        866
    } else if k == 5 {
        966
    } else {
        1000
    }
}

/// Milli-sine over the first quadrant (`0 <= d <= 90_000` millidegrees):
/// linear interpolation between the knots of `sin_table`.
pub open spec fn sin_quarter_spec(d: int) -> int
    recommends
        0 <= d <= 90_000,
{
    let k = d / 15_000;
    let r = d % 15_000;
    sin_table(k) + (sin_table(k + 1) - sin_table(k)) * r / 15_000
}

/// Milli-sine over the full circle (`0 <= d <= 360_000` millidegrees),
/// by quarter-wave symmetry.
pub open spec fn sin_mdeg_spec(d: int) -> int
    recommends
        0 <= d <= 360_000,
{
    if d <= 90_000 {
        sin_quarter_spec(d)
    } else if d <= 180_000 {
        sin_quarter_spec(180_000 - d)
    } else if d <= 270_000 {
        -sin_quarter_spec(d - 180_000)
    } else {
        -sin_quarter_spec(360_000 - d)
    }
}

/// Milli-cosine over the full circle: the sine a quarter turn ahead.
pub open spec fn cos_mdeg_spec(d: int) -> int
    recommends
        0 <= d <= 360_000,
{
    if d <= 270_000 {
        sin_mdeg_spec(d + 90_000)
    } else {
        sin_mdeg_spec(d - 270_000)
    }
}

/// The interpolated quarter wave stays within its two surrounding knots.
proof fn lemma_interp_bounds(diff: int, r: int)
    requires
        0 <= diff <= 259,
        0 <= r < 15_000,
    ensures
        0 <= diff * r / 15_000 <= diff,
{
    assert(diff * r >= 0) by (nonlinear_arith)
        requires
            0 <= diff,
            0 <= r,
    ;
    assert(diff * r <= diff * 14_999) by (nonlinear_arith)
        requires
            0 <= diff,
            r <= 14_999,
    ;
    vstd::arithmetic::div_mod::lemma_div_is_ordered(0, diff * r, 15_000);
    vstd::arithmetic::div_mod::lemma_div_is_ordered(diff * r, diff * 14_999, 15_000);
    assert(diff * 14_999 / 15_000 <= diff) by (nonlinear_arith)
        requires
            0 <= diff,
    ;
}

/// The quarter wave is bounded by 0 and 1000.
pub proof fn lemma_sin_quarter_range(d: int)
    requires
        0 <= d <= 90_000,
    ensures
        0 <= sin_quarter_spec(d) <= 1000,
{
    let k = d / 15_000;
    let r = d % 15_000;
    vstd::arithmetic::div_mod::lemma_div_is_ordered(0, d, 15_000);
    vstd::arithmetic::div_mod::lemma_div_is_ordered(d, 90_000, 15_000);
    vstd::arithmetic::div_mod::lemma_mod_bound(d, 15_000);
    lemma_interp_bounds(sin_table(k + 1) - sin_table(k), r);
}

/// From 30 degrees on, the quarter wave is at least one half.
pub proof fn lemma_sin_quarter_lower(d: int)
    requires
        30_000 <= d <= 90_000,
    ensures
        500 <= sin_quarter_spec(d),
{
    let k = d / 15_000;
    let r = d % 15_000;
    vstd::arithmetic::div_mod::lemma_div_is_ordered(30_000, d, 15_000);
    vstd::arithmetic::div_mod::lemma_div_is_ordered(d, 90_000, 15_000);
    vstd::arithmetic::div_mod::lemma_mod_bound(d, 15_000);
    lemma_interp_bounds(sin_table(k + 1) - sin_table(k), r);
}

/// At every angle, sine and cosine are never simultaneously small: the sum of
/// their squares is at least a quarter of the unit square. In particular a
/// rotation never collapses to the zero vector.
pub proof fn lemma_rot_nonzero(d: int)
    requires
        0 <= d <= 360_000,
    ensures
        sin_mdeg_spec(d) * sin_mdeg_spec(d) + cos_mdeg_spec(d) * cos_mdeg_spec(d) >= 250_000,
{
    let s = sin_mdeg_spec(d);
    let c = cos_mdeg_spec(d);
    // In each quadrant |sin| and |cos| are the quarter wave at two arguments
    // that sum to a quarter turn, so one argument is at least 45 degrees.
    if d <= 90_000 {
        if d >= 45_000 {
            lemma_sin_quarter_lower(d);
            assert(s >= 500);
        } else {
            lemma_sin_quarter_lower(90_000 - d);
            assert(c >= 500);
        }
    } else if d <= 180_000 {
        if 180_000 - d >= 45_000 {
            lemma_sin_quarter_lower(180_000 - d);
            assert(s >= 500);
        } else {
            lemma_sin_quarter_lower(d - 90_000);
            assert(c <= -500);
        }
    } else if d <= 270_000 {
        if d - 180_000 >= 45_000 {
            lemma_sin_quarter_lower(d - 180_000);
            assert(s <= -500);
        } else {
            lemma_sin_quarter_lower(270_000 - d);
            assert(c <= -500);
        }
    } else {
        if 360_000 - d >= 45_000 {
            lemma_sin_quarter_lower(360_000 - d);
            assert(s <= -500);
        } else {
            lemma_sin_quarter_lower(d - 270_000);
            assert(c >= 500);
        }
    }
    assert(s * s + c * c >= 250_000) by (nonlinear_arith)
        requires
            s >= 500 || s <= -500 || c >= 500 || c <= -500,
    ;
}

/// Executable quarter-wave sine.
fn sin_quarter(d: u64) -> (s: i64)
    requires
        d <= 90_000,
    ensures
        s == sin_quarter_spec(d as int),
        0 <= s <= 1000,
{
    proof {
        lemma_sin_quarter_range(d as int);
    }
    let k: u64 = d / 15_000;
    let r: u64 = d % 15_000;
    if k == 0 {
        (259 * r / 15_000) as i64
    } else if k == 1 {
        (259 + 241 * r / 15_000) as i64
    } else if k == 2 {
        (500 + 207 * r / 15_000) as i64
    } else if k == 3 {
        (707 + 159 * r / 15_000) as i64
    } else if k == 4 {
        (866 + 100 * r / 15_000) as i64
    } else if k == 5 {
        (966 + 34 * r / 15_000) as i64
    } else {
        1000
    }
}

/// Executable full-circle milli-sine.
pub fn sin_mdeg(d: i64) -> (s: i64)
    requires
        0 <= d <= 360_000,
    ensures
        s == sin_mdeg_spec(d as int),
        -1000 <= s <= 1000,
{
    if d <= 90_000 {
        sin_quarter(d as u64)
    } else if d <= 180_000 {
        sin_quarter((180_000 - d) as u64)
    } else if d <= 270_000 {
        -sin_quarter((d - 180_000) as u64)
    } else {
        -sin_quarter((360_000 - d) as u64)
    }
}

/// Executable full-circle milli-cosine.
pub fn cos_mdeg(d: i64) -> (c: i64)
    requires
        0 <= d <= 360_000,
    ensures
        c == cos_mdeg_spec(d as int),
        -1000 <= c <= 1000,
{
    if d <= 270_000 {
        sin_mdeg(d + 90_000)
    } else {
        sin_mdeg(d - 270_000)
    }
}

} // verus!
