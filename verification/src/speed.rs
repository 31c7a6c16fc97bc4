//! Scaling a drawn direction to the ball speed.
//!
//! The reset controller draws a direction as an integer pair from a square
//! range and the ball leaves with that direction at the configured speed.
//! The normalisation is exact integer arithmetic: the direction is measured
//! with an integer square root of its squared length, scaled a thousandfold
//! so that the relative measurement error is at most one part in a thousand.

use vstd::prelude::*;
use crate::geometry::BALL_SPEED;

verus! {

/// Each drawn direction component lies in `[-DIR_RANGE, DIR_RANGE]`.
pub const DIR_RANGE: i64 = 1000;

/// `r` is the integer square root of `n`.
pub open spec fn is_isqrt(n: int, r: int) -> bool {
    &&& 0 <= r
    &&& r * r <= n
    &&& n < (r + 1) * (r + 1)
}

/// The integer square root of `n`, as a spec value.
pub open spec fn spec_isqrt(n: int) -> int {
    choose|r: int| is_isqrt(n, r)
}

/// A number has at most one integer square root.
pub proof fn lemma_isqrt_unique(n: int, r1: int, r2: int)
    requires
        is_isqrt(n, r1),
        is_isqrt(n, r2),
    ensures
        r1 == r2,
{
    if r1 < r2 {
        assert((r1 + 1) * (r1 + 1) <= r2 * r2) by (nonlinear_arith)
            requires 0 <= r1 && r1 < r2;
    }
    if r2 < r1 {
        assert((r2 + 1) * (r2 + 1) <= r1 * r1) by (nonlinear_arith)
            requires 0 <= r2 && r2 < r1;
    }
}

/// Any witness of `is_isqrt` is the `spec_isqrt` value.
pub proof fn lemma_isqrt_is(n: int, r: int)
    requires
        is_isqrt(n, r),
    ensures
        spec_isqrt(n) == r,
{
    assert(is_isqrt(n, spec_isqrt(n))) by {
        assert(exists|x: int| is_isqrt(n, x));
    }
    lemma_isqrt_unique(n, spec_isqrt(n), r);
}

/// Integer square root by binary search.
pub fn isqrt(n: u64) -> (r: u64)
    requires
        n <= 4_000_000_000_000,
    ensures
        is_isqrt(n as int, r as int),
        r as int == spec_isqrt(n as int),
        r <= 2_000_000,
{
    let mut lo: u64 = 0;
    let mut hi: u64 = 2_000_001;
    assert(n < hi * hi) by (nonlinear_arith)
        requires
            n <= 4_000_000_000_000,
            hi == 2_000_001;
    while lo + 1 < hi
        invariant
            lo * lo <= n,
            n < hi * hi,
            lo < hi <= 2_000_001,
        decreases hi - lo,
    {
        let mid: u64 = lo + (hi - lo) / 2;
        assert(lo < mid < hi);
        assert(mid * mid <= 4_000_004_000_001) by (nonlinear_arith)
            requires mid <= 2_000_001;
        if mid * mid <= n {
            lo = mid;
        } else {
            hi = mid;
        }
    }
    proof {
        lemma_isqrt_is(n as int, lo as int);
    }
    lo
}

/// Every non-negative number has an integer square root.
pub proof fn lemma_isqrt_exists(n: int)
    requires
        n >= 0,
    ensures
        is_isqrt(n, spec_isqrt(n)),
    decreases n,
{
    if n == 0 {
        assert(is_isqrt(0, 0));
        lemma_isqrt_is(0, 0);
    } else {
        lemma_isqrt_exists(n - 1);
        let r = spec_isqrt(n - 1);
        if n < (r + 1) * (r + 1) {
            assert(is_isqrt(n, r));
            lemma_isqrt_is(n, r);
        } else {
            assert(n == (r + 1) * (r + 1));
            assert((r + 1 + 1) * (r + 1 + 1) > (r + 1) * (r + 1)) by (nonlinear_arith)
                requires
                    r >= 0;
            assert(is_isqrt(n, r + 1));
            lemma_isqrt_is(n, r + 1);
        }
    }
}

/// Squared length of a direction, scaled by a thousand in each axis.
pub open spec fn scaled_norm_sq(dx: int, dy: int) -> int {
    (dx * dx + dy * dy) * 1_000_000
}

/// One component of the direction `d` brought to ball speed, where `m` is
/// the scaled length of the whole direction: the magnitude is rounded
/// toward zero and the sign of `d` is kept.
pub open spec fn scaled_speed(d: int, m: int) -> int {
    if d < 0 {
        -((-d) * (BALL_SPEED * 1000) / m)
    } else {
        d * (BALL_SPEED * 1000) / m
    }
}

/// Scales the drawn direction `(dx, dy)` to a velocity of the ball speed.
pub fn scale_to_speed(dx: i64, dy: i64) -> (v: (i64, i64))
    requires
        -DIR_RANGE <= dx <= DIR_RANGE,
        -DIR_RANGE <= dy <= DIR_RANGE,
        !(dx == 0 && dy == 0),
    ensures
        v.0 as int == scaled_speed(dx as int, spec_isqrt(scaled_norm_sq(dx as int, dy as int))),
        v.1 as int == scaled_speed(dy as int, spec_isqrt(scaled_norm_sq(dx as int, dy as int))),
        -600_000 <= v.0 <= 600_000,
        -600_000 <= v.1 <= 600_000,
{
    let adx: u64 = if dx < 0 { (-dx) as u64 } else { dx as u64 };
    let ady: u64 = if dy < 0 { (-dy) as u64 } else { dy as u64 };
    assert(adx * adx + ady * ady <= 2_000_000) by (nonlinear_arith)
        requires
            adx <= 1000,
            ady <= 1000;
    let q: u64 = adx * adx + ady * ady;
    assert(q >= 1) by (nonlinear_arith)
        requires
            adx >= 1 || ady >= 1,
            q == adx * adx + ady * ady;
    let m: u64 = isqrt(q * 1_000_000);
    assert(m >= 1000) by (nonlinear_arith)
        requires
            is_isqrt(q as int * 1_000_000, m as int),
            q >= 1;
    let ux: u64 = adx * 600_000 / m;
    let uy: u64 = ady * 600_000 / m;
    assert(ux <= 600_000 && uy <= 600_000) by (nonlinear_arith)
        requires
            m >= 1000,
            adx <= 1000,
            ady <= 1000,
            ux as int == adx as int * 600_000 / (m as int),
            uy as int == ady as int * 600_000 / (m as int);
    let vx: i64 = if dx < 0 { -(ux as i64) } else { ux as i64 };
    let vy: i64 = if dy < 0 { -(uy as i64) } else { uy as i64 };
    proof {
        assert(adx as int * adx as int == dx as int * dx as int) by (nonlinear_arith)
            requires
                adx as int == dx as int || adx as int == -(dx as int);
        assert(ady as int * ady as int == dy as int * dy as int) by (nonlinear_arith)
            requires
                ady as int == dy as int || ady as int == -(dy as int);
        assert(q as int * 1_000_000 == scaled_norm_sq(dx as int, dy as int));
    }
    (vx, vy)
}

/// The scaled direction has, in squared length, the squared ball speed
/// within one percent: the squared speed is 360000 and the scaled
/// direction's squared length lies in `[357598, 360720]`, whatever
/// direction was drawn.
pub proof fn lemma_scaled_speed_magnitude(dx: int, dy: int)
    requires
        -DIR_RANGE <= dx <= DIR_RANGE,
        -DIR_RANGE <= dy <= DIR_RANGE,
        !(dx == 0 && dy == 0),
    ensures
        ({
            let m = spec_isqrt(scaled_norm_sq(dx, dy));
            let vx = scaled_speed(dx, m);
            let vy = scaled_speed(dy, m);
            357598 <= vx * vx + vy * vy <= 360720
        }),
{
    let a = if dx < 0 { -dx } else { dx };
    let b = if dy < 0 { -dy } else { dy };
    let q = dx * dx + dy * dy;
    assert(q == a * a + b * b && 1 <= q <= 2_000_000) by (nonlinear_arith)
        requires
            -1000 <= dx <= 1000,
            -1000 <= dy <= 1000,
            !(dx == 0 && dy == 0),
            q == dx * dx + dy * dy,
            a == if dx < 0 { -dx } else { dx },
            b == if dy < 0 { -dy } else { dy };
    let n = scaled_norm_sq(dx, dy);
    assert(n == q * 1_000_000);
    let m = spec_isqrt(n);
    let ux = a * 600_000 / m;
    let uy = b * 600_000 / m;
    let vx = scaled_speed(dx, m);
    let vy = scaled_speed(dy, m);

    lemma_isqrt_exists(n);
    assert(m >= 1000) by (nonlinear_arith)
        requires
            0 <= m,
            n < (m + 1) * (m + 1),
            n >= 1_000_000;
    assert(m <= 1_414_213) by (nonlinear_arith)
        requires
            0 <= m,
            m * m <= n,
            n <= 2_000_000_000_000;

    assert(1000 * a <= m && 1000 * b <= m) by (nonlinear_arith)
        requires
            0 <= a,
            0 <= b,
            n == (a * a + b * b) * 1_000_000,
            n < (m + 1) * (m + 1),
            0 <= m;

    vstd::arithmetic::div_mod::lemma_fundamental_div_mod(a * 600_000, m);
    vstd::arithmetic::div_mod::lemma_mod_bound(a * 600_000, m);
    vstd::arithmetic::div_mod::lemma_fundamental_div_mod(b * 600_000, m);
    vstd::arithmetic::div_mod::lemma_mod_bound(b * 600_000, m);
    let ra = (a * 600_000) % m;
    let rb = (b * 600_000) % m;
    assert(a * 600_000 == m * ux + ra && 0 <= ra < m);
    assert(b * 600_000 == m * uy + rb && 0 <= rb < m);

    assert(0 <= ux <= 600) by (nonlinear_arith)
        requires
            a * 600_000 == m * ux + ra,
            0 <= ra < m,
            m >= 1000,
            a >= 0,
            1000 * a <= m;
    assert(0 <= uy <= 600) by (nonlinear_arith)
        requires
            b * 600_000 == m * uy + rb,
            0 <= rb < m,
            m >= 1000,
            b >= 0,
            1000 * b <= m;

    let s = ux * ux + uy * uy;

    // Upper bound: the rounded components do not exceed the exact ones.
    assert(s * (m * m) <= 360_000 * n) by (nonlinear_arith)
        requires
            s == ux * ux + uy * uy,
            a * 600_000 == m * ux + ra,
            b * 600_000 == m * uy + rb,
            0 <= ra,
            0 <= rb,
            0 <= ux,
            0 <= uy,
            0 <= m,
            n == (a * a + b * b) * 1_000_000;
    assert(n <= m * m + 2 * m) by (nonlinear_arith)
        requires
            n < (m + 1) * (m + 1);
    assert(s <= 360720) by (nonlinear_arith)
        requires
            s * (m * m) <= 360_000 * (m * m + 2 * m),
            m >= 1000,
            s >= 0;

    // Lower bound: one more than each rounded component exceeds the exact one.
    assert(((ux + 1) * (ux + 1) + (uy + 1) * (uy + 1)) * (m * m) >= 360_000 * (m * m)) by (nonlinear_arith)
        requires
            a * 600_000 == m * ux + ra,
            b * 600_000 == m * uy + rb,
            0 <= ra < m,
            0 <= rb < m,
            0 <= ux,
            0 <= uy,
            m >= 1000,
            a >= 0,
            b >= 0,
            n == (a * a + b * b) * 1_000_000,
            m * m <= n;
    assert((ux + 1) * (ux + 1) + (uy + 1) * (uy + 1) >= 360_000) by (nonlinear_arith)
        requires
            ((ux + 1) * (ux + 1) + (uy + 1) * (uy + 1)) * (m * m) >= 360_000 * (m * m),
            m >= 1000;
    assert(s >= 357598) by (nonlinear_arith)
        requires
            (ux + 1) * (ux + 1) + (uy + 1) * (uy + 1) >= 360_000,
            s == ux * ux + uy * uy,
            0 <= ux <= 600,
            0 <= uy <= 600;

    assert(vx == ux || vx == -ux);
    assert(vy == uy || vy == -uy);
    assert(vx * vx + vy * vy == s) by (nonlinear_arith)
        requires
            (vx == ux || vx == -ux) && (vy == uy || vy == -uy) && s == ux * ux + uy * uy;
}

} // verus!
