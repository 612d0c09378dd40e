//! The collision engine: convex polygons over integer coordinates and a
//! separating-axis intersection test with zero margin.
//!
//! Two convex shapes count as colliding only when they strictly overlap:
//! a pair that merely touches (distance zero, no overlap) admits a
//! separating axis with `<=` and is reported as not colliding.

use vstd::prelude::*;

verus! {

/// A 2D point or vector in micro-units.
#[derive(Clone, Copy, PartialEq, Eq, Structural, Debug)]
pub struct Vec2 {
    pub x: i64,
    pub y: i64,
}

/// Coordinates admitted by the collision engine, in micro-units. Far beyond
/// anything the simulation produces; keeps every projection inside i128.
pub const COORD_LIMIT_MICRO: i64 = 500_000_000_000_000_000;

/// Centers handed to `oriented_box` stay within this bound, so that the
/// corners stay within `COORD_LIMIT_MICRO`.
pub const BOX_CENTER_LIMIT_MICRO: i64 = 10_000_000_000_000_000;

/// Largest half-extent `oriented_box` admits, in milli-units.
pub const BOX_HALF_EXTENT_MAX_MILLI: i64 = 1_000_000;

impl Vec2 {
    pub fn new(x: i64, y: i64) -> (v: Vec2)
        ensures
            v.x == x,
            v.y == y,
    {
        Vec2 { x, y }
    }
}

pub open spec fn in_bounds_pt(p: Vec2) -> bool {
    &&& -COORD_LIMIT_MICRO <= p.x <= COORD_LIMIT_MICRO
    &&& -COORD_LIMIT_MICRO <= p.y <= COORD_LIMIT_MICRO
}

pub open spec fn in_bounds(ps: Seq<Vec2>) -> bool {
    forall|i: int| 0 <= i < ps.len() ==> in_bounds_pt(#[trigger] ps[i])
}

/// Twice the signed area of the triangle `o`, `a`, `b`: positive when the
/// turn from `o a` to `o b` is counter-clockwise.
pub open spec fn cross(o: Vec2, a: Vec2, b: Vec2) -> int {
    (a.x - o.x) * (b.y - o.y) - (a.y - o.y) * (b.x - o.x)
}

/// The turn taken at corner `i` of the closed polygon `ps`.
pub open spec fn corner_cross(ps: Seq<Vec2>, i: int) -> int
    recommends
        ps.len() >= 1,
        0 <= i < ps.len(),
{
    cross(
        ps[i],
        ps[(i + 1) % (ps.len() as int)],
        ps[(i + 2) % (ps.len() as int)],
    )
}

/// Strictly convex with a consistent winding: every corner turns the same
/// way, and no three consecutive points are collinear. Degenerate point sets
/// (repeated points, collinear runs) are excluded.
pub open spec fn is_convex(ps: Seq<Vec2>) -> bool {
    &&& ps.len() >= 3
    &&& {
        ||| forall|i: int| 0 <= i < ps.len() ==> #[trigger] corner_cross(ps, i) > 0
        ||| forall|i: int| 0 <= i < ps.len() ==> #[trigger] corner_cross(ps, i) < 0
    }
}

/// The projection of the translated point `p + off` onto the axis
/// `(nx, ny)`.
pub open spec fn proj(nx: int, ny: int, p: Vec2, off: Vec2) -> int {
    nx * (p.x + off.x) + ny * (p.y + off.y)
}

pub open spec fn all_proj_at_most(nx: int, ny: int, ps: Seq<Vec2>, off: Vec2, c: int) -> bool {
    forall|i: int| 0 <= i < ps.len() ==> #[trigger] proj(nx, ny, ps[i], off) <= c
}

pub open spec fn all_proj_at_least(nx: int, ny: int, ps: Seq<Vec2>, off: Vec2, c: int) -> bool {
    forall|i: int| 0 <= i < ps.len() ==> #[trigger] proj(nx, ny, ps[i], off) >= c
}

/// The axis `(nx, ny)` separates the two translated point sets, touching
/// allowed: some threshold puts all of one at or below it and all of the
/// other at or above it.
pub open spec fn axis_separates(
    nx: int,
    ny: int,
    a: Seq<Vec2>,
    a_off: Vec2,
    b: Seq<Vec2>,
    b_off: Vec2,
) -> bool {
    ||| exists|c: int| all_proj_at_most(nx, ny, a, a_off, c) && all_proj_at_least(nx, ny, b, b_off, c)
    ||| exists|c: int| all_proj_at_most(nx, ny, b, b_off, c) && all_proj_at_least(nx, ny, a, a_off, c)
}

/// The outward-facing normal direction of edge `k` of `ps` (a quarter-turn
/// of the edge vector; its facing depends on the winding, which the
/// separation test does not care about).
pub open spec fn edge_nx(ps: Seq<Vec2>, k: int) -> int
    recommends
        ps.len() >= 1,
        0 <= k < ps.len(),
{
    -(ps[(k + 1) % (ps.len() as int)].y - ps[k].y)
}

pub open spec fn edge_ny(ps: Seq<Vec2>, k: int) -> int
    recommends
        ps.len() >= 1,
        0 <= k < ps.len(),
{
    ps[(k + 1) % (ps.len() as int)].x - ps[k].x
}

/// The separating-axis classification of two translated convex polygons:
/// disjoint or merely touching exactly when some edge of either polygon
/// yields a separating axis.
pub open spec fn separated(a: Seq<Vec2>, a_off: Vec2, b: Seq<Vec2>, b_off: Vec2) -> bool {
    ||| exists|k: int|
        0 <= k < a.len() && #[trigger] axis_separates(edge_nx(a, k), edge_ny(a, k), a, a_off, b, b_off)
    ||| exists|k: int|
        0 <= k < b.len() && #[trigger] axis_separates(edge_nx(b, k), edge_ny(b, k), a, a_off, b, b_off)
}

/// A convex collision polygon in entity-local space; translated, never
/// rotated, into world space by the owning entity's position.
#[derive(Debug)]
pub struct CollisionPolygon {
    pub points: Vec<Vec2>,
}

impl CollisionPolygon {
    /// Well-formed: strictly convex with at least three points, all within
    /// the engine's coordinate bound.
    pub open spec fn wf(self) -> bool {
        &&& is_convex(self.points@)
        &&& in_bounds(self.points@)
    }

    /// Builds a collision polygon, rejecting fewer than three points,
    /// non-convex or degenerate point sets, and out-of-range coordinates:
    /// such a point list is a configuration error, caught at construction
    /// time rather than at collision time.
    pub fn try_new(points: Vec<Vec2>) -> (r: Option<CollisionPolygon>)
        ensures
            r is Some <==> is_convex(points@) && in_bounds(points@),
            r matches Some(p) ==> p.points == points && p.wf(),
    {
        if !points_in_bounds(&points) {
            return None;
        }
        if check_convex(&points) {
            Some(CollisionPolygon { points })
        } else {
            None
        }
    }
}

fn points_in_bounds(points: &Vec<Vec2>) -> (ok: bool)
    ensures
        ok == in_bounds(points@),
{
    let n = points.len();
    let mut i: usize = 0;
    let mut ok = true;
    while i < n
        invariant
            n == points@.len(),
            i <= n,
            ok == (forall|j: int| 0 <= j < i ==> in_bounds_pt(#[trigger] points@[j])),
        decreases n - i,
    {
        let p = points[i];
        if p.x < -COORD_LIMIT_MICRO || p.x > COORD_LIMIT_MICRO || p.y < -COORD_LIMIT_MICRO
            || p.y > COORD_LIMIT_MICRO {
            ok = false;
        }
        i += 1;
    }
    ok
}

/// `a * b` stays within the product of the two magnitudes.
proof fn lemma_abs_mul_le(a: int, b: int, ma: int, mb: int)
    requires
        -ma <= a <= ma,
        -mb <= b <= mb,
        0 <= ma,
        0 <= mb,
    ensures
        -(ma * mb) <= a * b <= ma * mb,
{
    assert(-(ma * mb) <= a * b <= ma * mb) by (nonlinear_arith)
        requires
            -ma <= a <= ma,
            -mb <= b <= mb,
            0 <= ma,
            0 <= mb,
    ;
}

/// `x % n` for `x` in `[0, 2n)` without general modulus reasoning.
proof fn lemma_mod_in_range(x: int, n: int)
    requires
        0 < n,
        0 <= x < 2 * n,
    ensures
        x % n == if x < n { x } else { x - n },
{
    if x < n {
        vstd::arithmetic::div_mod::lemma_small_mod(x as nat, n as nat);
    } else {
        vstd::arithmetic::div_mod::lemma_mod_sub_multiples_vanish(x, n);
        vstd::arithmetic::div_mod::lemma_small_mod((x - n) as nat, n as nat);
    }
}

fn cross_exec(o: Vec2, a: Vec2, b: Vec2) -> (c: i128)
    requires
        in_bounds_pt(o),
        in_bounds_pt(a),
        in_bounds_pt(b),
    ensures
        c == cross(o, a, b),
{
    let ax: i128 = a.x as i128 - o.x as i128;
    let ay: i128 = a.y as i128 - o.y as i128;
    let bx: i128 = b.x as i128 - o.x as i128;
    let by: i128 = b.y as i128 - o.y as i128;
    proof {
        lemma_abs_mul_le(ax as int, by as int, 1_000_000_000_000_000_000, 1_000_000_000_000_000_000);
        lemma_abs_mul_le(ay as int, bx as int, 1_000_000_000_000_000_000, 1_000_000_000_000_000_000);
    }
    ax * by - ay * bx
}

fn check_convex(points: &Vec<Vec2>) -> (c: bool)
    requires
        in_bounds(points@),
    ensures
        c == is_convex(points@),
{
    let n = points.len();
    if n < 3 {
        return false;
    }
    let mut all_pos = true;
    let mut all_neg = true;
    let mut i: usize = 0;
    while i < n
        invariant
            n == points@.len(),
            3 <= n,
            i <= n,
            in_bounds(points@),
            all_pos == (forall|j: int| 0 <= j < i ==> #[trigger] corner_cross(points@, j) > 0),
            all_neg == (forall|j: int| 0 <= j < i ==> #[trigger] corner_cross(points@, j) < 0),
        decreases n - i,
    {
        let i1 = if i + 1 == n { 0 } else { i + 1 };
        let i2 = if i1 + 1 == n { 0 } else { i1 + 1 };
        proof {
            lemma_mod_in_range(i + 1, n as int);
            lemma_mod_in_range(i + 2, n as int);
            assert(i1 as int == (i + 1) % (n as int));
            assert(i2 as int == (i + 2) % (n as int));
        }
        let c = cross_exec(points[i], points[i1], points[i2]);
        proof {
            assert(c == corner_cross(points@, i as int));
        }
        if c <= 0 {
            all_pos = false;
        }
        if c >= 0 {
            all_neg = false;
        }
        i += 1;
    }
    all_pos || all_neg
}

fn proj_exec(nx: i64, ny: i64, p: Vec2, off: Vec2) -> (d: i128)
    requires
        -2 * COORD_LIMIT_MICRO <= nx <= 2 * COORD_LIMIT_MICRO,
        -2 * COORD_LIMIT_MICRO <= ny <= 2 * COORD_LIMIT_MICRO,
        in_bounds_pt(p),
        in_bounds_pt(off),
    ensures
        d == proj(nx as int, ny as int, p, off),
{
    let wx: i128 = p.x as i128 + off.x as i128;
    let wy: i128 = p.y as i128 + off.y as i128;
    let nxw: i128 = nx as i128;
    let nyw: i128 = ny as i128;
    proof {
        lemma_abs_mul_le(nxw as int, wx as int, 1_000_000_000_000_000_000, 1_000_000_000_000_000_000);
        lemma_abs_mul_le(nyw as int, wy as int, 1_000_000_000_000_000_000, 1_000_000_000_000_000_000);
    }
    nxw * wx + nyw * wy
}

/// Least and greatest projection of the translated points onto the axis,
/// each with a witness index.
fn extremes(nx: i64, ny: i64, ps: &Vec<Vec2>, off: Vec2) -> (r: (i128, usize, i128, usize))
    requires
        ps@.len() >= 1,
        -2 * COORD_LIMIT_MICRO <= nx <= 2 * COORD_LIMIT_MICRO,
        -2 * COORD_LIMIT_MICRO <= ny <= 2 * COORD_LIMIT_MICRO,
        in_bounds(ps@),
        in_bounds_pt(off),
    ensures
        0 <= r.1 < ps@.len() && r.0 == proj(nx as int, ny as int, ps@[r.1 as int], off),
        0 <= r.3 < ps@.len() && r.2 == proj(nx as int, ny as int, ps@[r.3 as int], off),
        forall|j: int| 0 <= j < ps@.len() ==> r.0 <= #[trigger] proj(nx as int, ny as int, ps@[j], off),
        forall|j: int| 0 <= j < ps@.len() ==> #[trigger] proj(nx as int, ny as int, ps@[j], off) <= r.2,
{
    let n = ps.len();
    let first = proj_exec(nx, ny, ps[0], off);
    let mut lo = first;
    let mut lo_i: usize = 0;
    let mut hi = first;
    let mut hi_i: usize = 0;
    let mut j: usize = 1;
    while j < n
        invariant
            n == ps@.len(),
            1 <= j <= n,
            -2 * COORD_LIMIT_MICRO <= nx <= 2 * COORD_LIMIT_MICRO,
            -2 * COORD_LIMIT_MICRO <= ny <= 2 * COORD_LIMIT_MICRO,
            in_bounds(ps@),
            in_bounds_pt(off),
            0 <= lo_i < j && lo == proj(nx as int, ny as int, ps@[lo_i as int], off),
            0 <= hi_i < j && hi == proj(nx as int, ny as int, ps@[hi_i as int], off),
            forall|t: int| 0 <= t < j ==> lo <= #[trigger] proj(nx as int, ny as int, ps@[t], off),
            forall|t: int| 0 <= t < j ==> #[trigger] proj(nx as int, ny as int, ps@[t], off) <= hi,
        decreases n - j,
    {
        let d = proj_exec(nx, ny, ps[j], off);
        if d < lo {
            lo = d;
            lo_i = j;
        }
        if d > hi {
            hi = d;
            hi_i = j;
        }
        j += 1;
    }
    (lo, lo_i, hi, hi_i)
}

/// Does some edge of `edges` yield an axis that separates the two polygons?
fn edges_separate(
    edges: &Vec<Vec2>,
    a: &Vec<Vec2>,
    a_off: Vec2,
    b: &Vec<Vec2>,
    b_off: Vec2,
) -> (found: bool)
    requires
        edges@.len() >= 1,
        a@.len() >= 1,
        b@.len() >= 1,
        in_bounds(edges@),
        in_bounds(a@),
        in_bounds(b@),
        in_bounds_pt(a_off),
        in_bounds_pt(b_off),
    ensures
        found == exists|k: int|
            0 <= k < edges@.len() && #[trigger] axis_separates(
                edge_nx(edges@, k),
                edge_ny(edges@, k),
                a@,
                a_off,
                b@,
                b_off,
            ),
{
    let n = edges.len();
    let mut k: usize = 0;
    while k < n
        invariant
            n == edges@.len(),
            k <= n,
            a@.len() >= 1,
            b@.len() >= 1,
            in_bounds(edges@),
            in_bounds(a@),
            in_bounds(b@),
            in_bounds_pt(a_off),
            in_bounds_pt(b_off),
            forall|t: int| 0 <= t < k ==> !#[trigger] axis_separates(
                edge_nx(edges@, t),
                edge_ny(edges@, t),
                a@,
                a_off,
                b@,
                b_off,
            ),
        decreases n - k,
    {
        let k1 = if k + 1 == n { 0 } else { k + 1 };
        proof {
            lemma_mod_in_range(k + 1, n as int);
            assert(k1 as int == (k + 1) % (n as int));
        }
        let p0 = edges[k];
        let p1 = edges[k1];
        let nx: i64 = -(p1.y - p0.y);
        let ny: i64 = p1.x - p0.x;
        let ghost nxs = edge_nx(edges@, k as int);
        let ghost nys = edge_ny(edges@, k as int);
        proof {
            assert(nxs == nx as int);
            assert(nys == ny as int);
        }
        let (lo_a, lo_ai, hi_a, hi_ai) = extremes(nx, ny, a, a_off);
        let (lo_b, lo_bi, hi_b, hi_bi) = extremes(nx, ny, b, b_off);
        if hi_a <= lo_b {
            proof {
                assert(all_proj_at_most(nxs, nys, a@, a_off, hi_a as int));
                assert(all_proj_at_least(nxs, nys, b@, b_off, hi_a as int));
                assert(axis_separates(nxs, nys, a@, a_off, b@, b_off));
            }
            return true;
        }
        if hi_b <= lo_a {
            proof {
                assert(all_proj_at_most(nxs, nys, b@, b_off, hi_b as int));
                assert(all_proj_at_least(nxs, nys, a@, a_off, hi_b as int));
                assert(axis_separates(nxs, nys, a@, a_off, b@, b_off));
            }
            return true;
        }
        proof {
            if axis_separates(nxs, nys, a@, a_off, b@, b_off) {
                if exists|c: int|
                    all_proj_at_most(nxs, nys, a@, a_off, c) && all_proj_at_least(
                        nxs,
                        nys,
                        b@,
                        b_off,
                        c,
                    ) {
                    let c = choose|c: int|
                        all_proj_at_most(nxs, nys, a@, a_off, c) && all_proj_at_least(
                            nxs,
                            nys,
                            b@,
                            b_off,
                            c,
                        );
                    assert(proj(nxs, nys, a@[hi_ai as int], a_off) <= c);
                    assert(proj(nxs, nys, b@[lo_bi as int], b_off) >= c);
                    assert(false);
                } else {
                    let c = choose|c: int|
                        all_proj_at_most(nxs, nys, b@, b_off, c) && all_proj_at_least(
                            nxs,
                            nys,
                            a@,
                            a_off,
                            c,
                        );
                    assert(proj(nxs, nys, b@[hi_bi as int], b_off) <= c);
                    assert(proj(nxs, nys, a@[lo_ai as int], a_off) >= c);
                    assert(false);
                }
            }
        }
        k += 1;
    }
    false
}

/// The collision test between two translated convex polygons: true exactly
/// when the shapes strictly overlap under the separating-axis
/// classification. A pair that only touches is separated by the touching
/// edge's axis and reports false.
pub fn test_collision(
    a: &CollisionPolygon,
    a_off: Vec2,
    b: &CollisionPolygon,
    b_off: Vec2,
) -> (hit: bool)
    requires
        a.wf(),
        b.wf(),
        in_bounds_pt(a_off),
        in_bounds_pt(b_off),
    ensures
        hit == !separated(a.points@, a_off, b.points@, b_off),
{
    let sep_a = edges_separate(&a.points, &a.points, a_off, &b.points, b_off);
    if sep_a {
        return false;
    }
    let sep_b = edges_separate(&b.points, &a.points, a_off, &b.points, b_off);
    !sep_b
}

/// The four corners of a rectangle centered at `(cx, cy)` with the given
/// half-extents (milli-units) and rotated by `angle` millidegrees, in
/// counter-clockwise order. A half-extent in milli-units times a
/// trigonometric value in thousandths is a length in micro-units, so the
/// corners are exact.
pub open spec fn box_points_spec(cx: int, cy: int, half_w: int, half_h: int, angle: int) -> Seq<
    Vec2,
> {
    let c = crate::trig::cos_mdeg_spec(angle);
    let s = crate::trig::sin_mdeg_spec(angle);
    seq![
        Vec2 { x: (cx + half_w * c - half_h * s) as i64, y: (cy + half_w * s + half_h * c) as i64 },
        Vec2 { x: (cx - half_w * c - half_h * s) as i64, y: (cy - half_w * s + half_h * c) as i64 },
        Vec2 { x: (cx - half_w * c + half_h * s) as i64, y: (cy - half_w * s - half_h * c) as i64 },
        Vec2 { x: (cx + half_w * c + half_h * s) as i64, y: (cy + half_w * s - half_h * c) as i64 },
    ]
}

/// Each corner of a rotated rectangle turns by the same positive amount:
/// four times the product of the half-extents and the squared length of the
/// rotation vector. One corner per lemma, keeping each query small.
proof fn lemma_box_turn0(w: int, h: int, c: int, s: int)
    ensures
        (-2 * (w * c)) * (-2 * (w * s) - 2 * (h * c)) - (-2 * (w * s)) * (-2 * (w * c) + 2 * (h * s)) == 4 * w * h * (c * c + s * s),
{
    assert((-2 * (w * c)) * (-2 * (w * s) - 2 * (h * c)) == 4 * ((w * c) * (w * s)) + 4 * ((w * c)
        * (h * c))) by (nonlinear_arith);
    assert((-2 * (w * s)) * (-2 * (w * c) + 2 * (h * s)) == 4 * ((w * s) * (w * c)) - 4 * ((w * s)
        * (h * s))) by (nonlinear_arith);
    assert((w * c) * (h * c) == w * h * (c * c)) by (nonlinear_arith);
    assert((w * s) * (h * s) == w * h * (s * s)) by (nonlinear_arith);
    assert((w * c) * (w * s) == (w * s) * (w * c)) by (nonlinear_arith);
    assert(4 * (w * h * (c * c)) + 4 * (w * h * (s * s)) == 4 * w * h * (c * c + s * s))
        by (nonlinear_arith);
}

proof fn lemma_box_turn1(w: int, h: int, c: int, s: int)
    ensures
        (2 * (h * s)) * (2 * (w * s) - 2 * (h * c)) - (-2 * (h * c)) * (2 * (w * c) + 2 * (h * s)) == 4 * w * h * (c * c + s * s),
{
    assert((2 * (h * s)) * (2 * (w * s) - 2 * (h * c)) == 4 * ((h * s) * (w * s)) - 4 * ((h * s)
        * (h * c))) by (nonlinear_arith);
    assert((-2 * (h * c)) * (2 * (w * c) + 2 * (h * s)) == -4 * ((h * c) * (w * c)) - 4 * ((h * c)
        * (h * s))) by (nonlinear_arith);
    assert((h * s) * (w * s) == w * h * (s * s)) by (nonlinear_arith);
    assert((h * c) * (w * c) == w * h * (c * c)) by (nonlinear_arith);
    assert((h * s) * (h * c) == (h * c) * (h * s)) by (nonlinear_arith);
    assert(4 * (w * h * (s * s)) + 4 * (w * h * (c * c)) == 4 * w * h * (c * c + s * s))
        by (nonlinear_arith);
}

proof fn lemma_box_turn2(w: int, h: int, c: int, s: int)
    ensures
        (2 * (w * c)) * (2 * (w * s) + 2 * (h * c)) - (2 * (w * s)) * (2 * (w * c) - 2 * (h * s)) == 4 * w * h * (c * c + s * s),
{
    assert((2 * (w * c)) * (2 * (w * s) + 2 * (h * c)) == 4 * ((w * c) * (w * s)) + 4 * ((w * c)
        * (h * c))) by (nonlinear_arith);
    assert((2 * (w * s)) * (2 * (w * c) - 2 * (h * s)) == 4 * ((w * s) * (w * c)) - 4 * ((w * s)
        * (h * s))) by (nonlinear_arith);
    assert((w * c) * (h * c) == w * h * (c * c)) by (nonlinear_arith);
    assert((w * s) * (h * s) == w * h * (s * s)) by (nonlinear_arith);
    assert((w * c) * (w * s) == (w * s) * (w * c)) by (nonlinear_arith);
    assert(4 * (w * h * (c * c)) + 4 * (w * h * (s * s)) == 4 * w * h * (c * c + s * s))
        by (nonlinear_arith);
}

proof fn lemma_box_turn3(w: int, h: int, c: int, s: int)
    ensures
        (-2 * (h * s)) * (-2 * (w * s) + 2 * (h * c)) - (2 * (h * c)) * (-2 * (w * c) - 2 * (h * s)) == 4 * w * h * (c * c + s * s),
{
    assert((-2 * (h * s)) * (-2 * (w * s) + 2 * (h * c)) == 4 * ((h * s) * (w * s)) - 4 * ((h * s)
        * (h * c))) by (nonlinear_arith);
    assert((2 * (h * c)) * (-2 * (w * c) - 2 * (h * s)) == -4 * ((h * c) * (w * c)) - 4 * ((h * c)
        * (h * s))) by (nonlinear_arith);
    assert((h * s) * (w * s) == w * h * (s * s)) by (nonlinear_arith);
    assert((h * c) * (w * c) == w * h * (c * c)) by (nonlinear_arith);
    assert((h * s) * (h * c) == (h * c) * (h * s)) by (nonlinear_arith);
    assert(4 * (w * h * (s * s)) + 4 * (w * h * (c * c)) == 4 * w * h * (c * c + s * s))
        by (nonlinear_arith);
}

/// Builds the oriented collision rectangle of an entity: its center, its
/// half-extents, and its orientation in millidegrees. The result is convex
/// whatever the angle, because the fixed-point sine and cosine are never
/// simultaneously zero.
pub fn oriented_box(cx: i64, cy: i64, half_w_milli: i64, half_h_milli: i64, angle_mdeg: i64) -> (p:
    CollisionPolygon)
    requires
        0 < half_w_milli <= BOX_HALF_EXTENT_MAX_MILLI,
        0 < half_h_milli <= BOX_HALF_EXTENT_MAX_MILLI,
        0 <= angle_mdeg <= 360_000,
        -BOX_CENTER_LIMIT_MICRO <= cx <= BOX_CENTER_LIMIT_MICRO,
        -BOX_CENTER_LIMIT_MICRO <= cy <= BOX_CENTER_LIMIT_MICRO,
    ensures
        p.points@ == box_points_spec(
            cx as int,
            cy as int,
            half_w_milli as int,
            half_h_milli as int,
            angle_mdeg as int,
        ),
        p.wf(),
{
    let c = crate::trig::cos_mdeg(angle_mdeg);
    let s = crate::trig::sin_mdeg(angle_mdeg);
    proof {
        lemma_abs_mul_le(half_w_milli as int, c as int, 1_000_000, 1000);
        lemma_abs_mul_le(half_w_milli as int, s as int, 1_000_000, 1000);
        lemma_abs_mul_le(half_h_milli as int, c as int, 1_000_000, 1000);
        lemma_abs_mul_le(half_h_milli as int, s as int, 1_000_000, 1000);
    }
    let wc: i64 = half_w_milli * c;
    let ws: i64 = half_w_milli * s;
    let hc: i64 = half_h_milli * c;
    let hs: i64 = half_h_milli * s;
    let p0 = Vec2 { x: cx + wc - hs, y: cy + ws + hc };
    let p1 = Vec2 { x: cx - wc - hs, y: cy - ws + hc };
    let p2 = Vec2 { x: cx - wc + hs, y: cy - ws - hc };
    let p3 = Vec2 { x: cx + wc + hs, y: cy + ws - hc };
    let mut points: Vec<Vec2> = Vec::new();
    points.push(p0);
    points.push(p1);
    points.push(p2);
    points.push(p3);
    proof {
        let w = half_w_milli as int;
        let h = half_h_milli as int;
        let ci = c as int;
        let si = s as int;
        let pts = points@;
        assert(pts.len() == 4);
        assert(pts =~= box_points_spec(cx as int, cy as int, w, h, angle_mdeg as int));
        crate::trig::lemma_rot_nonzero(angle_mdeg as int);
        lemma_box_turn0(w, h, ci, si);
        lemma_box_turn1(w, h, ci, si);
        lemma_box_turn2(w, h, ci, si);
        lemma_box_turn3(w, h, ci, si);
        let turn = 4 * w * h * (ci * ci + si * si);
        assert(turn > 0) by (nonlinear_arith)
            requires
                w >= 1,
                h >= 1,
                ci * ci + si * si >= 250_000,
                turn == 4 * w * h * (ci * ci + si * si),
        ;
        assert(pts[0] == p0 && pts[1] == p1 && pts[2] == p2 && pts[3] == p3);
        assert(p1.x - p0.x == -2 * (w * ci));
        assert(p1.y - p0.y == -2 * (w * si));
        assert(p2.x - p0.x == -2 * (w * ci) + 2 * (h * si));
        assert(p2.y - p0.y == -2 * (w * si) - 2 * (h * ci));
        assert(corner_cross(pts, 0) == cross(p0, p1, p2));
        assert(corner_cross(pts, 0) == turn);
        assert(p2.x - p1.x == 2 * (h * si));
        assert(p2.y - p1.y == -2 * (h * ci));
        assert(p3.x - p1.x == 2 * (w * ci) + 2 * (h * si));
        assert(p3.y - p1.y == 2 * (w * si) - 2 * (h * ci));
        assert(corner_cross(pts, 1) == cross(p1, p2, p3));
        assert(corner_cross(pts, 1) == turn);
        assert(p3.x - p2.x == 2 * (w * ci));
        assert(p3.y - p2.y == 2 * (w * si));
        assert(p0.x - p2.x == 2 * (w * ci) - 2 * (h * si));
        assert(p0.y - p2.y == 2 * (w * si) + 2 * (h * ci));
        assert(corner_cross(pts, 2) == cross(p2, p3, p0));
        assert(corner_cross(pts, 2) == turn);
        assert(p0.x - p3.x == -2 * (h * si));
        assert(p0.y - p3.y == 2 * (h * ci));
        assert(p1.x - p3.x == -2 * (w * ci) - 2 * (h * si));
        assert(p1.y - p3.y == -2 * (w * si) + 2 * (h * ci));
        assert(corner_cross(pts, 3) == cross(p3, p0, p1));
        assert(corner_cross(pts, 3) == turn);
        assert forall|i: int| 0 <= i < pts.len() implies #[trigger] corner_cross(pts, i) > 0 by {
            if i == 0 {
                assert(corner_cross(pts, 0) == turn);
            } else if i == 1 {
                assert(corner_cross(pts, 1) == turn);
            } else if i == 2 {
                assert(corner_cross(pts, 2) == turn);
            } else {
                assert(corner_cross(pts, 3) == turn);
            }
        }
        assert(is_convex(pts));
    }
    CollisionPolygon { points }
}

} // verus!



