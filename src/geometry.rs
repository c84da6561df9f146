//! Fixed-point vector arithmetic: integer square roots, unit vectors in
//! thousandths, rounding toward zero and the coordinate range.

use vstd::prelude::*;

verus! {

/// One unit of length in a direction vector: direction components are
/// stored in thousandths.
pub const UNIT: i64 = 1000;

/// Largest magnitude a stored coordinate may take, in micro-pixels
/// (a billion pixels, far beyond any window).
pub const COORD_LIMIT: i64 = 1_000_000_000_000_000;

/// Inputs of the integer square root stay below this bound (2 to the 124th).
pub const SQRT_INPUT_LIMIT: u128 = 0x1000_0000_0000_0000_0000_0000_0000_0000;

/// `r` is the integer square root of `n`, rounded down.
pub open spec fn is_floor_sqrt(n: int, r: int) -> bool {
    0 <= r && r * r <= n && n < (r + 1) * (r + 1)
}

/// The integer square root of `n`, rounded down.
pub open spec fn floor_sqrt(n: int) -> int {
    choose|r: int| is_floor_sqrt(n, r)
}

/// Squared length of the vector `(x, y)`.
pub open spec fn norm_sq(x: int, y: int) -> int {
    x * x + y * y
}

/// `v * num / den` rounded toward zero.
pub open spec fn scale_toward_zero(v: int, num: int, den: int) -> int {
    if v >= 0 {
        (v * num) / den
    } else {
        -(((-v) * num) / den)
    }
}

/// `v` clamped to the coordinate range.
pub open spec fn clamp_coord_spec(v: int) -> int {
    if v > COORD_LIMIT {
        COORD_LIMIT as int
    } else if v < -COORD_LIMIT {
        -COORD_LIMIT
    } else {
        v
    }
}

/// The factor a vector is scaled up by before its length is taken: a
/// thousand for a vector whose components are both shorter than a thousand,
/// so that the rounded-down length is never below a thousand, and one
/// otherwise.
pub open spec fn unit_scale(x: int, y: int) -> int {
    if -1000 < x < 1000 && -1000 < y < 1000 {
        1000
    } else {
        1
    }
}

/// The direction of `(x, y)` in thousandths: the vector, scaled up by
/// `unit_scale`, divided by its rounded-down length, each component rounded
/// toward zero. Defined for a vector that is not zero; the result is within
/// a few thousandths of unit length.
pub open spec fn unit_of(x: int, y: int) -> (int, int) {
    let k = unit_scale(x, y);
    let len = floor_sqrt(norm_sq(k * x, k * y));
    (scale_toward_zero(k * x, UNIT as int, len), scale_toward_zero(k * y, UNIT as int, len))
}

proof fn lemma_square_monotonic(a: int, b: int)
    requires
        0 <= a <= b,
    ensures
        a * a <= b * b,
{
    assert(a * a <= b * b) by (nonlinear_arith)
        requires
            0 <= a <= b,
    ;
}

/// Every natural number has a rounded-down square root.
pub proof fn lemma_floor_sqrt_exists(n: int)
    requires
        n >= 0,
    ensures
        is_floor_sqrt(n, floor_sqrt(n)),
    decreases n,
{
    if n == 0 {
        assert(is_floor_sqrt(0, 0));
    } else {
        lemma_floor_sqrt_exists(n - 1);
        let r = floor_sqrt(n - 1);
        if (r + 1) * (r + 1) <= n {
            assert((r + 1) * (r + 1) == n);
            assert(n < (r + 2) * (r + 2)) by (nonlinear_arith)
                requires
                    (r + 1) * (r + 1) == n,
                    r >= 0,
            ;
            assert(is_floor_sqrt(n, r + 1));
        } else {
            assert(is_floor_sqrt(n, r));
        }
    }
}

/// The rounded-down square root is unique.
pub proof fn lemma_floor_sqrt_unique(n: int, r: int)
    requires
        is_floor_sqrt(n, r),
    ensures
        floor_sqrt(n) == r,
{
    let s = floor_sqrt(n);
    assert(is_floor_sqrt(n, s));
    if s < r {
        lemma_square_monotonic(s + 1, r);
    } else if r < s {
        lemma_square_monotonic(r + 1, s);
    }
}

/// The integer square root of `n`, rounded down, by bisection.
pub fn isqrt(n: u128) -> (r: u128)
    requires
        n < SQRT_INPUT_LIMIT,
    ensures
        is_floor_sqrt(n as int, r as int),
        r as int == floor_sqrt(n as int),
{
    let mut lo: u128 = 0;
    let mut hi: u128 = 0x4000_0000_0000_0000;
    assert(hi * hi == SQRT_INPUT_LIMIT);
    while lo + 1 < hi
        invariant
            lo < hi <= 0x4000_0000_0000_0000,
            lo * lo <= n,
            n < hi * hi,
        decreases hi - lo,
    {
        let mid: u128 = lo + (hi - lo) / 2;
        assert(mid * mid <= 0x4000_0000_0000_0000u128 * 0x4000_0000_0000_0000u128) by (nonlinear_arith)
            requires
                mid <= 0x4000_0000_0000_0000u128,
        ;
        if mid * mid <= n {
            lo = mid;
        } else {
            hi = mid;
        }
    }
    proof {
        lemma_floor_sqrt_unique(n as int, lo as int);
    }
    lo
}

/// `v` clamped to `[-COORD_LIMIT, COORD_LIMIT]`.
pub fn clamp_coord(v: i128) -> (r: i64)
    ensures
        r == clamp_coord_spec(v as int),
        -COORD_LIMIT <= r <= COORD_LIMIT,
{
    if v > COORD_LIMIT as i128 {
        COORD_LIMIT
    } else if v < -(COORD_LIMIT as i128) {
        -COORD_LIMIT
    } else {
        v as i64
    }
}

/// `v * num / den`, rounded toward zero.
pub fn scale_toward_zero_exec(v: i128, num: i128, den: i128) -> (r: i128)
    requires
        num >= 0,
        den > 0,
        -0x1_0000_0000_0000_0000_0000 <= v <= 0x1_0000_0000_0000_0000_0000,
        num <= 0x100_0000_0000,
    ensures
        r as int == scale_toward_zero(v as int, num as int, den as int),
{
    if v >= 0 {
        assert(v * num <= 0x1_0000_0000_0000_0000_0000i128 * 0x100_0000_0000i128)
            by (nonlinear_arith)
            requires
                0 <= v <= 0x1_0000_0000_0000_0000_0000i128,
                0 <= num <= 0x100_0000_0000i128,
        ;
        v * num / den
    } else {
        let a: i128 = -v;
        assert(a * num <= 0x1_0000_0000_0000_0000_0000i128 * 0x100_0000_0000i128)
            by (nonlinear_arith)
            requires
                0 <= a <= 0x1_0000_0000_0000_0000_0000i128,
                0 <= num <= 0x100_0000_0000i128,
        ;
        -(a * num / den)
    }
}

/// A component whose square is below `(len + 1)^2`, scaled by `UNIT / len`,
/// stays within one unit.
proof fn lemma_component_within_unit(x: int, len: int)
    requires
        len > 0,
        x * x < (len + 1) * (len + 1),
    ensures
        -UNIT <= scale_toward_zero(x, UNIT as int, len) <= UNIT,
{
    let a = if x >= 0 { x } else { -x };
    assert(a * a == x * x) by (nonlinear_arith)
        requires
            a == x || a == -x,
    ;
    if a > len {
        lemma_square_monotonic(len + 1, a);
    }
    assert((a * 1000) / len <= 1000) by (nonlinear_arith)
        requires
            0 <= a <= len,
            len > 0,
    ;
    assert((a * 1000) / len >= 0) by (nonlinear_arith)
        requires
            0 <= a,
            len > 0,
    ;
}

/// Bounds on the length of a vector divided by its rounded-down length
/// `len`, in thousandths, when `len` is at least a thousand.
proof fn lemma_unit_length(x: int, y: int, len: int)
    requires
        len >= 1000,
        len * len <= x * x + y * y,
        x * x + y * y < (len + 1) * (len + 1),
    ensures
        ({
            let ux = scale_toward_zero(x, UNIT as int, len);
            let uy = scale_toward_zero(y, UNIT as int, len);
            (UNIT - 3) * (UNIT - 3) <= ux * ux + uy * uy <= (UNIT + 1) * (UNIT + 1)
        }),
{
    let n = x * x + y * y;
    let a = if x >= 0 { x } else { -x };
    let b = if y >= 0 { y } else { -y };
    assert(a * a == x * x) by (nonlinear_arith)
        requires
            a == x || a == -x,
    ;
    assert(b * b == y * y) by (nonlinear_arith)
        requires
            b == y || b == -y,
    ;
    assert(x * x >= 0 && y * y >= 0) by (nonlinear_arith);
    lemma_component_within_unit(x, len);
    lemma_component_within_unit(y, len);
    let p = (a * 1000) / len;
    let q = (b * 1000) / len;
    let ux = scale_toward_zero(x, UNIT as int, len);
    let uy = scale_toward_zero(y, UNIT as int, len);
    assert(ux == p || ux == -p);
    assert(uy == q || uy == -q);
    assert(ux * ux == p * p) by (nonlinear_arith)
        requires
            ux == p || ux == -p,
    ;
    assert(uy * uy == q * q) by (nonlinear_arith)
        requires
            uy == q || uy == -q,
    ;
    assert(0 <= p <= 1000 && 0 <= q <= 1000);
    vstd::arithmetic::div_mod::lemma_fundamental_div_mod(a * 1000, len);
    vstd::arithmetic::div_mod::lemma_fundamental_div_mod(b * 1000, len);
    assert(p * len <= a * 1000 < (p + 1) * len) by (nonlinear_arith)
        requires
            a * 1000 == len * p + (a * 1000) % len,
            0 <= (a * 1000) % len < len,
    ;
    assert(q * len <= b * 1000 < (q + 1) * len) by (nonlinear_arith)
        requires
            b * 1000 == len * q + (b * 1000) % len,
            0 <= (b * 1000) % len < len,
    ;
    // Upper bound.
    assert((p * len) * (p * len) <= (a * 1000) * (a * 1000)) by (nonlinear_arith)
        requires
            0 <= p * len <= a * 1000,
    ;
    assert((q * len) * (q * len) <= (b * 1000) * (b * 1000)) by (nonlinear_arith)
        requires
            0 <= q * len <= b * 1000,
    ;
    assert((p * p + q * q) * (len * len) <= 1_000_000 * n) by (nonlinear_arith)
        requires
            (p * len) * (p * len) <= (a * 1000) * (a * 1000),
            (q * len) * (q * len) <= (b * 1000) * (b * 1000),
            n == a * a + b * b,
    ;
    assert(len * (2002 * len - 2_000_000) >= 2_000_000) by (nonlinear_arith)
        requires
            len >= 1000,
    ;
    if p * p + q * q > 1_002_001 {
        assert((p * p + q * q) * (len * len) >= 1_002_002 * (len * len)) by (nonlinear_arith)
            requires
                p * p + q * q >= 1_002_002,
        ;
        assert(1_000_000 * n < 1_000_000 * ((len + 1) * (len + 1)));
        assert(false) by (nonlinear_arith)
            requires
                1_002_002 * (len * len) <= 1_000_000 * n,
                1_000_000 * n < 1_000_000 * ((len + 1) * (len + 1)),
                len * (2002 * len - 2_000_000) >= 2_000_000,
        ;
    }
    // Lower bound.
    assert(((p + 1) * len) * ((p + 1) * len) > (a * 1000) * (a * 1000)) by (nonlinear_arith)
        requires
            0 <= a * 1000 < (p + 1) * len,
    ;
    assert(((q + 1) * len) * ((q + 1) * len) > (b * 1000) * (b * 1000)) by (nonlinear_arith)
        requires
            0 <= b * 1000 < (q + 1) * len,
    ;
    assert(((p + 1) * (p + 1) + (q + 1) * (q + 1)) * (len * len) > 1_000_000 * n) by (nonlinear_arith)
        requires
            ((p + 1) * len) * ((p + 1) * len) > (a * 1000) * (a * 1000),
            ((q + 1) * len) * ((q + 1) * len) > (b * 1000) * (b * 1000),
            n == a * a + b * b,
    ;
    assert((p + 1) * (p + 1) + (q + 1) * (q + 1) > 1_000_000) by (nonlinear_arith)
        requires
            ((p + 1) * (p + 1) + (q + 1) * (q + 1)) * (len * len) > 1_000_000 * n,
            n >= len * len,
            len > 0,
    ;
    assert(p * p + q * q >= 994_009) by (nonlinear_arith)
        requires
            (p + 1) * (p + 1) + (q + 1) * (q + 1) > 1_000_000,
            0 <= p <= 1000,
            0 <= q <= 1000,
    ;
}

/// The direction of `(x, y)` in thousandths of a unit, or `None` for the zero
/// vector, whose direction is undefined.
pub fn unit_vector(x: i64, y: i64) -> (r: Option<(i64, i64)>)
    requires
        -2 * COORD_LIMIT <= x <= 2 * COORD_LIMIT,
        -2 * COORD_LIMIT <= y <= 2 * COORD_LIMIT,
    ensures
        (x == 0 && y == 0) <==> r.is_none(),
        r matches Some((ux, uy)) ==> {
            &&& (ux as int, uy as int) == unit_of(x as int, y as int)
            &&& -UNIT <= ux <= UNIT
            &&& -UNIT <= uy <= UNIT
            &&& (UNIT - 3) * (UNIT - 3) <= ux * ux + uy * uy <= (UNIT + 1) * (UNIT + 1)
        },
{
    if x == 0 && y == 0 {
        return None;
    }
    let k: i128 = if -1000 < x && x < 1000 && -1000 < y && y < 1000 {
        1000
    } else {
        1
    };
    let xx: i128 = x as i128 * k;
    let yy: i128 = y as i128 * k;
    assert(-2_000_000_000_000_000 <= xx <= 2_000_000_000_000_000);
    assert(-2_000_000_000_000_000 <= yy <= 2_000_000_000_000_000);
    assert(xx * xx <= 4_000_000_000_000_000_000_000_000_000_000i128) by (nonlinear_arith)
        requires
            -2_000_000_000_000_000 <= xx <= 2_000_000_000_000_000,
    ;
    assert(yy * yy <= 4_000_000_000_000_000_000_000_000_000_000i128) by (nonlinear_arith)
        requires
            -2_000_000_000_000_000 <= yy <= 2_000_000_000_000_000,
    ;
    assert(xx * xx >= 0 && yy * yy >= 0) by (nonlinear_arith);
    let n: u128 = (xx * xx + yy * yy) as u128;
    let len: u128 = isqrt(n);
    proof {
        assert(xx * xx >= 1_000_000 || yy * yy >= 1_000_000) by (nonlinear_arith)
            requires
                xx == x * k,
                yy == y * k,
                x != 0 || y != 0,
                k == 1000 || (k == 1 && (x <= -1000 || x >= 1000 || y <= -1000 || y >= 1000)),
        {
            if k == 1000 {
                if x != 0 {
                    assert(xx * xx >= 1_000_000) by (nonlinear_arith)
                        requires
                            xx == x * 1000,
                            x != 0,
                    ;
                } else {
                    assert(yy * yy >= 1_000_000) by (nonlinear_arith)
                        requires
                            yy == y * 1000,
                            y != 0,
                    ;
                }
            } else if x <= -1000 || x >= 1000 {
                assert(xx * xx >= 1_000_000) by (nonlinear_arith)
                    requires
                        xx == x,
                        x <= -1000 || x >= 1000,
                ;
            } else {
                assert(yy * yy >= 1_000_000) by (nonlinear_arith)
                    requires
                        yy == y,
                        y <= -1000 || y >= 1000,
                ;
            }
        }
        assert(len >= 1000) by (nonlinear_arith)
            requires
                n < (len + 1) * (len + 1),
                n >= 1_000_000,
        ;
        assert(len <= 3_000_000_000_000_000_000u128) by (nonlinear_arith)
            requires
                len * len <= n,
                n <= 8_000_000_000_000_000_000_000_000_000_000u128,
        ;
        assert(xx * xx < (len + 1) * (len + 1));
        assert(yy * yy < (len + 1) * (len + 1));
        lemma_component_within_unit(xx as int, len as int);
        lemma_component_within_unit(yy as int, len as int);
        lemma_unit_length(xx as int, yy as int, len as int);
    }
    let ux: i128 = scale_toward_zero_exec(xx, 1000, len as i128);
    let uy: i128 = scale_toward_zero_exec(yy, 1000, len as i128);
    Some((ux as i64, uy as i64))
}

} // verus!
