//! Rays cast across the level, and their intersection with boxes.
//!
//! A ray meets a closed box when some point `origin + t * dir` with `t >= 0`
//! lies in it. With integer data every bound on `t` is a fraction, so the
//! statement quantifies over `t = n / m`.
use vstd::prelude::*;

use crate::geometry::{Direction, Point};

verus! {

/// A half-line from `origin` along `dir`.
#[derive(Clone, Copy, Debug, PartialEq, Eq, Structural)]
pub struct Ray {
    pub origin: Point,
    pub dir: Direction,
}

/// On one axis, the point at parameter `n / m` is within `h` of the centre,
/// `p` being the origin's offset from the centre and `d` the direction.
pub open spec fn axis_holds(p: int, d: int, h: int, n: int, m: int) -> bool {
    -(m * h) <= m * p + n * d && m * p + n * d <= m * h
}

/// The point of `ray` at parameter `n / m` (`n >= 0`, `m > 0`) lies in the
/// closed box of the given centre and half-extents.
pub open spec fn hits_at(ray: Ray, center: Point, hw: int, hh: int, n: int, m: int) -> bool {
    &&& m > 0
    &&& n >= 0
    &&& axis_holds(ray.origin.x - center.x, ray.dir.x as int, hw, n, m)
    &&& axis_holds(ray.origin.y - center.y, ray.dir.y as int, hh, n, m)
}

/// Some point of the ray lies in the closed box.
pub open spec fn ray_meets_box(ray: Ray, center: Point, hw: int, hh: int) -> bool {
    exists|n: int, m: int| #[trigger] hits_at(ray, center, hw, hh, n, m)
}

/// `a / b <= c / e`, for positive denominators.
pub open spec fn frac_le(a: int, b: int, c: int, e: int) -> bool {
    a * e <= c * b
}

/// On an axis where the direction is not zero, the parameters that keep the
/// point within `h` of the centre form the interval `[lo / den, hi / den]`.
pub open spec fn span_lo(p: int, d: int, h: int) -> int {
    if d > 0 { -h - p } else { p - h }
}

pub open spec fn span_hi(p: int, d: int, h: int) -> int {
    if d > 0 { h - p } else { p + h }
}

pub open spec fn span_den(d: int) -> int {
    if d > 0 { d } else { -d }
}

/// On an axis where the direction is zero, the offset itself must be in range.
pub open spec fn still_within(p: int, h: int) -> bool {
    -h <= p && p <= h
}

/// Every lower bound on the parameter (zero included) is at most every
/// upper bound: the criterion that the executable test evaluates.
pub open spec fn spans_meet(px: int, dx: int, hx: int, py: int, dy: int, hy: int) -> bool {
    if dx == 0 && dy == 0 {
        still_within(px, hx) && still_within(py, hy)
    } else if dx == 0 {
        still_within(px, hx) && span_hi(py, dy, hy) >= 0
    } else if dy == 0 {
        still_within(py, hy) && span_hi(px, dx, hx) >= 0
    } else {
        &&& span_hi(px, dx, hx) >= 0
        &&& span_hi(py, dy, hy) >= 0
        &&& frac_le(span_lo(px, dx, hx), span_den(dx), span_hi(py, dy, hy), span_den(dy))
        &&& frac_le(span_lo(py, dy, hy), span_den(dy), span_hi(px, dx, hx), span_den(dx))
    }
}

proof fn lemma_frac_trans(a: int, b: int, c: int, d: int, e: int, f: int)
    requires
        b > 0,
        d > 0,
        f > 0,
        frac_le(a, b, c, d),
        frac_le(c, d, e, f),
    ensures
        frac_le(a, b, e, f),
{
    assert(a * f <= e * b) by (nonlinear_arith)
        requires
            b > 0,
            d > 0,
            f > 0,
            a * d <= c * b,
            c * f <= e * d,
    {
        assert(a * d * f <= c * b * f);
        assert(c * f * b <= e * d * b);
        assert(a * f * d <= e * b * d);
    }
}

proof fn lemma_axis_span(p: int, d: int, h: int, n: int, m: int)
    requires
        d != 0,
        m > 0,
    ensures
        axis_holds(p, d, h, n, m) <==> (frac_le(span_lo(p, d, h), span_den(d), n, m)
            && frac_le(n, m, span_hi(p, d, h), span_den(d))),
{
    if d > 0 {
        assert((-h - p) * m == -(m * h) - m * p) by (nonlinear_arith);
        assert((h - p) * m == m * h - m * p) by (nonlinear_arith);
    } else {
        assert((p - h) * m == m * p - m * h) by (nonlinear_arith);
        assert((p + h) * m == m * p + m * h) by (nonlinear_arith);
        assert(n * (-d) == -(n * d)) by (nonlinear_arith);
    }
}

proof fn lemma_axis_still(p: int, h: int, n: int, m: int)
    requires
        m > 0,
    ensures
        axis_holds(p, 0, h, n, m) <==> still_within(p, h),
{
    assert(n * 0 == 0);
    if still_within(p, h) {
        assert(-(m * h) <= m * p && m * p <= m * h) by (nonlinear_arith)
            requires
                m > 0,
                -h <= p,
                p <= h,
        ;
    }
    if -(m * h) <= m * p && m * p <= m * h {
        assert(still_within(p, h)) by (nonlinear_arith)
            requires
                m > 0,
                -(m * h) <= m * p,
                m * p <= m * h,
        ;
    }
}

/// A witness from the criterion: the largest lower bound on the parameter.
proof fn lemma_meet_gives_hit(ray: Ray, center: Point, hw: int, hh: int)
    requires
        hw >= 0,
        hh >= 0,
        spans_meet(
            ray.origin.x - center.x,
            ray.dir.x as int,
            hw,
            ray.origin.y - center.y,
            ray.dir.y as int,
            hh,
        ),
    ensures
        ray_meets_box(ray, center, hw, hh),
{
    let px = ray.origin.x - center.x;
    let py = ray.origin.y - center.y;
    let dx = ray.dir.x as int;
    let dy = ray.dir.y as int;
    if dx == 0 && dy == 0 {
        lemma_axis_still(px, hw, 0, 1);
        lemma_axis_still(py, hh, 0, 1);
        assert(hits_at(ray, center, hw, hh, 0, 1));
    } else if dx == 0 {
        lemma_bounded_and_still(ray, center, hw, hh, false);
    } else if dy == 0 {
        lemma_bounded_and_still(ray, center, hw, hh, true);
    } else {
        let (lx, ux, ex) = (span_lo(px, dx, hw), span_hi(px, dx, hw), span_den(dx));
        let (ly, uy, ey) = (span_lo(py, dy, hh), span_hi(py, dy, hh), span_den(dy));
        assert(lx <= ux && ly <= uy);
        if lx <= 0 && ly <= 0 {
            lemma_axis_span(px, dx, hw, 0, 1);
            lemma_axis_span(py, dy, hh, 0, 1);
            assert(hits_at(ray, center, hw, hh, 0, 1));
        } else if lx > 0 && frac_le(ly, ey, lx, ex) {
            assert(frac_le(lx, ex, ux, ex)) by (nonlinear_arith)
                requires
                    lx <= ux,
                    ex > 0,
            ;
            lemma_axis_span(px, dx, hw, lx, ex);
            lemma_axis_span(py, dy, hh, lx, ex);
            assert(hits_at(ray, center, hw, hh, lx, ex));
        } else {
            assert(ly > 0 && frac_le(lx, ex, ly, ey)) by (nonlinear_arith)
                requires
                    ex > 0,
                    ey > 0,
                    lx > 0 || ly > 0,
                    !(lx > 0 && ly * ex <= lx * ey),
                    frac_le(lx, ex, ly, ey) == (lx * ey <= ly * ex),
            ;
            assert(frac_le(ly, ey, uy, ey)) by (nonlinear_arith)
                requires
                    ly <= uy,
                    ey > 0,
            ;
            lemma_axis_span(px, dx, hw, ly, ey);
            lemma_axis_span(py, dy, hh, ly, ey);
            assert(hits_at(ray, center, hw, hh, ly, ey));
        }
    }
}

/// The case of one axis with a zero direction, the other not: `x_moves`
/// tells which axis moves.
proof fn lemma_bounded_and_still(ray: Ray, center: Point, hw: int, hh: int, x_moves: bool)
    requires
        hw >= 0,
        hh >= 0,
        x_moves ==> ray.dir.y == 0 && ray.dir.x != 0,
        !x_moves ==> ray.dir.x == 0 && ray.dir.y != 0,
        spans_meet(
            ray.origin.x - center.x,
            ray.dir.x as int,
            hw,
            ray.origin.y - center.y,
            ray.dir.y as int,
            hh,
        ),
    ensures
        ray_meets_box(ray, center, hw, hh),
{
    let px = ray.origin.x - center.x;
    let py = ray.origin.y - center.y;
    let dx = ray.dir.x as int;
    let dy = ray.dir.y as int;
    let (p, d, h) = if x_moves { (px, dx, hw) } else { (py, dy, hh) };
    let (lo, hi, den) = (span_lo(p, d, h), span_hi(p, d, h), span_den(d));
    assert(lo <= hi);
    if lo <= 0 {
        lemma_axis_span(p, d, h, 0, 1);
        lemma_axis_still(px, hw, 0, 1);
        lemma_axis_still(py, hh, 0, 1);
        assert(hits_at(ray, center, hw, hh, 0, 1));
    } else {
        assert(frac_le(lo, den, hi, den)) by (nonlinear_arith)
            requires
                lo <= hi,
                den > 0,
        ;
        lemma_axis_span(p, d, h, lo, den);
        lemma_axis_still(px, hw, lo, den);
        lemma_axis_still(py, hh, lo, den);
        assert(hits_at(ray, center, hw, hh, lo, den));
    }
}

/// Any point of the ray in the box meets every pair of bounds.
proof fn lemma_hit_gives_meet(ray: Ray, center: Point, hw: int, hh: int, n: int, m: int)
    requires
        hits_at(ray, center, hw, hh, n, m),
    ensures
        spans_meet(
            ray.origin.x - center.x,
            ray.dir.x as int,
            hw,
            ray.origin.y - center.y,
            ray.dir.y as int,
            hh,
        ),
{
    let px = ray.origin.x - center.x;
    let py = ray.origin.y - center.y;
    let dx = ray.dir.x as int;
    let dy = ray.dir.y as int;
    if dx == 0 {
        lemma_axis_still(px, hw, n, m);
    } else {
        lemma_axis_span(px, dx, hw, n, m);
        lemma_upper_not_negative(span_hi(px, dx, hw), span_den(dx), n, m);
    }
    if dy == 0 {
        lemma_axis_still(py, hh, n, m);
    } else {
        lemma_axis_span(py, dy, hh, n, m);
        lemma_upper_not_negative(span_hi(py, dy, hh), span_den(dy), n, m);
    }
    if dx != 0 && dy != 0 {
        lemma_frac_trans(
            span_lo(px, dx, hw),
            span_den(dx),
            n,
            m,
            span_hi(py, dy, hh),
            span_den(dy),
        );
        lemma_frac_trans(
            span_lo(py, dy, hh),
            span_den(dy),
            n,
            m,
            span_hi(px, dx, hw),
            span_den(dx),
        );
    }
}

proof fn lemma_upper_not_negative(hi: int, den: int, n: int, m: int)
    requires
        den > 0,
        m > 0,
        n >= 0,
        frac_le(n, m, hi, den),
    ensures
        hi >= 0,
{
    assert(hi >= 0) by (nonlinear_arith)
        requires
            den > 0,
            m > 0,
            n >= 0,
            n * den <= hi * m,
    ;
}


/// The ray starts beyond one face of the box and does not turn back towards
/// it on that axis.
pub open spec fn points_away(ray: Ray, center: Point, hw: int, hh: int) -> bool {
    ||| ray.origin.x - center.x < -hw && ray.dir.x <= 0
    ||| ray.origin.x - center.x > hw && ray.dir.x >= 0
    ||| ray.origin.y - center.y < -hh && ray.dir.y <= 0
    ||| ray.origin.y - center.y > hh && ray.dir.y >= 0
}

proof fn lemma_axis_away(p: int, d: int, h: int, n: int, m: int)
    requires
        m > 0,
        n >= 0,
        (p < -h && d <= 0) || (p > h && d >= 0),
    ensures
        !axis_holds(p, d, h, n, m),
{
    if p < -h && d <= 0 {
        assert(m * p + n * d < -(m * h)) by (nonlinear_arith)
            requires
                m > 0,
                n >= 0,
                p < -h,
                d <= 0,
        ;
    } else {
        assert(m * p + n * d > m * h) by (nonlinear_arith)
            requires
                m > 0,
                n >= 0,
                p > h,
                d >= 0,
        ;
    }
}

/// A ray that starts outside a box, beyond one of its faces, and does not
/// move back towards that face never meets the box.
pub proof fn lemma_pointing_away_misses(ray: Ray, center: Point, hw: int, hh: int)
    requires
        points_away(ray, center, hw, hh),
    ensures
        !ray_meets_box(ray, center, hw, hh),
{
    assert forall|n: int, m: int| !#[trigger] hits_at(ray, center, hw, hh, n, m) by {
        if m > 0 && n >= 0 {
            let px = ray.origin.x - center.x;
            let py = ray.origin.y - center.y;
            if (px < -hw && ray.dir.x <= 0) || (px > hw && ray.dir.x >= 0) {
                lemma_axis_away(px, ray.dir.x as int, hw, n, m);
            } else {
                lemma_axis_away(py, ray.dir.y as int, hh, n, m);
            }
        }
    }
}

/// Offsets, directions and half-extents fit these bounds once widened to i128.
const OFFSET_BOUND: i128 = 0x1_0000_0000;
const DIR_BOUND: i128 = 0x8000_0000_0000_0000;
const HALF_BOUND: i128 = 0x8000_0000;

fn axis_span(p: i128, d: i128, h: i128) -> (r: (i128, i128, i128))
    requires
        d != 0,
        -OFFSET_BOUND <= p <= OFFSET_BOUND,
        -DIR_BOUND <= d <= DIR_BOUND,
        0 <= h <= HALF_BOUND,
    ensures
        r.0 == span_lo(p as int, d as int, h as int),
        r.1 == span_hi(p as int, d as int, h as int),
        r.2 == span_den(d as int),
{
    if d > 0 {
        (-h - p, h - p, d)
    } else {
        (p - h, p + h, -d)
    }
}

fn frac_le_exec(a: i128, b: i128, c: i128, e: i128) -> (r: bool)
    requires
        -4 * OFFSET_BOUND <= a <= 4 * OFFSET_BOUND,
        -4 * OFFSET_BOUND <= c <= 4 * OFFSET_BOUND,
        0 < b <= DIR_BOUND,
        0 < e <= DIR_BOUND,
    ensures
        r == frac_le(a as int, b as int, c as int, e as int),
{
    proof {
        let big: int = 4 * OFFSET_BOUND * DIR_BOUND;
        assert(-big <= a * e <= big) by (nonlinear_arith)
            requires
                -4 * OFFSET_BOUND <= a <= 4 * OFFSET_BOUND,
                0 < e <= DIR_BOUND,
                big == 4 * OFFSET_BOUND * DIR_BOUND,
        ;
        assert(-big <= c * b <= big) by (nonlinear_arith)
            requires
                -4 * OFFSET_BOUND <= c <= 4 * OFFSET_BOUND,
                0 < b <= DIR_BOUND,
                big == 4 * OFFSET_BOUND * DIR_BOUND,
        ;
    }
    a * e <= c * b
}

/// Whether `ray` meets the closed box of the given centre and half-extents.
pub fn intersects(ray: &Ray, center: Point, half_width: i32, half_height: i32) -> (r: bool)
    requires
        half_width >= 0,
        half_height >= 0,
    ensures
        r == ray_meets_box(*ray, center, half_width as int, half_height as int),
{
    let px: i128 = ray.origin.x as i128 - center.x as i128;
    let py: i128 = ray.origin.y as i128 - center.y as i128;
    let dx: i128 = ray.dir.x as i128;
    let dy: i128 = ray.dir.y as i128;
    let hx: i128 = half_width as i128;
    let hy: i128 = half_height as i128;
    let r = if dx == 0 && dy == 0 {
        -hx <= px && px <= hx && -hy <= py && py <= hy
    } else if dx == 0 {
        let (_, hi, _) = axis_span(py, dy, hy);
        -hx <= px && px <= hx && hi >= 0
    } else if dy == 0 {
        let (_, hi, _) = axis_span(px, dx, hx);
        -hy <= py && py <= hy && hi >= 0
    } else {
        let (lx, ux, ex) = axis_span(px, dx, hx);
        let (ly, uy, ey) = axis_span(py, dy, hy);
        ux >= 0 && uy >= 0 && frac_le_exec(lx, ex, uy, ey) && frac_le_exec(ly, ey, ux, ex)
    };
    proof {
        let (hw, hh) = (half_width as int, half_height as int);
        if r {
            lemma_meet_gives_hit(*ray, center, hw, hh);
        }
        if ray_meets_box(*ray, center, hw, hh) {
            let (n, m) = choose|n: int, m: int| #[trigger] hits_at(*ray, center, hw, hh, n, m);
            lemma_hit_gives_meet(*ray, center, hw, hh, n, m);
        }
    }
    r
}

} // verus!
