//! Fixed-point numeric kernels: integer square root, arctangent, sine and
//! cosine over micro-unit integers.
//!
//! The renderer works without floating point, so the transcendental helpers
//! are small polynomial approximations over scaled integers.  Each function's
//! contract gives the exact integer formula it computes, together with the
//! range facts and exact special values the callers rely on (the approximated
//! arctangent is exact at 0 and 1, so cardinal and diagonal directions map to
//! exact angles).

use vstd::prelude::*;

verus! {

/// Floor of the square root: the greatest `r` with `r * r <= n`.
pub fn isqrt_u128(n: u128) -> (r: u128)
    ensures
        (r as int) * (r as int) <= n as int,
        ((r as int) + 1) * ((r as int) + 1) > n as int,
{
    if n == 0 {
        return 0;
    }
    let mut lo: u128 = 0;
    let mut hi: u128 = 0x10000000000000000;
    proof {
        assert((hi as int) * (hi as int) > n as int) by (nonlinear_arith)
            requires
                hi == 0x10000000000000000u128,
                n <= u128::MAX,
        ;
    }
    while lo + 1 < hi
        invariant
            lo < hi,
            hi <= 0x10000000000000000,
            (lo as int) * (lo as int) <= n as int,
            (hi as int) * (hi as int) > n as int,
        decreases hi - lo,
    {
        let mid = lo + (hi - lo) / 2;
        proof {
            assert((mid as int) * (mid as int) < 0x100000000000000000000000000000000)
                by (nonlinear_arith)
                requires
                    mid < 0x10000000000000000u128,
            ;
        }
        if mid * mid <= n {
            lo = mid;
        } else {
            hi = mid;
        }
    }
    lo
}

/// Floor of the cube root: the greatest `r` with `r * r * r <= n`.
pub fn icbrt_u128(n: u128) -> (r: u128)
    requires
        n <= 1000000000000000000000000000000,
    ensures
        (r as int) * (r as int) * (r as int) <= n as int,
        ((r as int) + 1) * ((r as int) + 1) * ((r as int) + 1) > n as int,
        r <= 10000000000,
{
    let mut lo: u128 = 0;
    let mut hi: u128 = 10000000001;
    proof {
        assert((hi as int) * (hi as int) * (hi as int) > n as int) by (nonlinear_arith)
            requires
                hi == 10000000001u128,
                n <= 1000000000000000000000000000000u128,
        ;
    }
    while lo + 1 < hi
        invariant
            lo < hi,
            hi <= 10000000001,
            (lo as int) * (lo as int) * (lo as int) <= n as int,
            (hi as int) * (hi as int) * (hi as int) > n as int,
        decreases hi - lo,
    {
        let mid = lo + (hi - lo) / 2;
        proof {
            assert((mid as int) * (mid as int) * (mid as int) <= 10000000001 * 10000000001
                * 10000000001 && (mid as int) * (mid as int) <= 10000000001 * 10000000001)
                by (nonlinear_arith)
                requires
                    mid <= 10000000001u128,
            ;
        }
        if mid * mid * mid <= n {
            lo = mid;
        } else {
            hi = mid;
        }
    }
    proof {
        if lo > 10000000000 {
            assert((lo as int) * (lo as int) * (lo as int) >= 10000000001 * 10000000001
                * 10000000001) by (nonlinear_arith)
                requires
                    lo >= 10000000001u128,
            ;
        }
    }
    lo
}

/// Signed division truncating toward zero.
pub open spec fn spec_div_trunc(n: int, d: int) -> int {
    if n >= 0 {
        n / d
    } else {
        -((-n) / d)
    }
}

/// Divide a signed scaled value by a positive scale, truncating toward zero.
pub fn div_trunc(n: i128, d: u64) -> (r: i128)
    requires
        1 <= d,
        -0x10000000000000000000000000000000 <= n <= 0x10000000000000000000000000000000,
    ensures
        r == spec_div_trunc(n as int, d as int),
        n >= 0 ==> 0 <= r <= n,
        n < 0 ==> n <= r <= 0,
{
    if n >= 0 {
        let q: u128 = (n as u128) / (d as u128);
        proof {
            vstd::arithmetic::div_mod::lemma_div_is_ordered(n as int, n as int, d as int);
            vstd::arithmetic::div_mod::lemma_div_nonincreasing(n as int, d as int);
            vstd::arithmetic::div_mod::lemma_div_pos_is_pos(n as int, d as int);
        }
        q as i128
    } else {
        let m: u128 = (-n) as u128;
        let q: u128 = m / (d as u128);
        proof {
            vstd::arithmetic::div_mod::lemma_div_nonincreasing(m as int, d as int);
            vstd::arithmetic::div_mod::lemma_div_pos_is_pos(m as int, d as int);
        }
        -(q as i128)
    }
}

/// A magnitude bound on the dividend carries to the truncated quotient.
pub proof fn lemma_div_trunc_magnitude(n: int, d: int, m: int)
    requires
        d >= 1,
        0 <= m,
        -m <= n <= m,
    ensures
        -(m / d) <= spec_div_trunc(n, d) <= m / d,
{
    if n >= 0 {
        vstd::arithmetic::div_mod::lemma_div_is_ordered(n, m, d);
        vstd::arithmetic::div_mod::lemma_div_pos_is_pos(n, d);
    } else {
        vstd::arithmetic::div_mod::lemma_div_is_ordered(-n, m, d);
        vstd::arithmetic::div_mod::lemma_div_pos_is_pos(-n, d);
    }
}

/// The arctangent approximation, in micro-degrees, of a slope given in
/// micro-units (`z / 1_000_000` in `[0, 1]`):
/// `45 z + z (1 - z) (14.0204 + 3.7987 z)` degrees, the classic cubic
/// minimax form, exact at the endpoints.
pub open spec fn spec_atan_micro_deg(z: int) -> int {
    let inner = 14020400 + (3798700 * z) / 1000000;
    45 * z + (z * (1000000 - z) * inner) / 1000000000000
}

/// Arctangent of `z / 1_000_000`, in micro-degrees.  Exact at the endpoints:
/// 0 maps to 0 and 1 maps to 45 degrees.
pub fn atan_micro_deg(z: u64) -> (r: u64)
    requires
        z <= 1000000,
    ensures
        r == spec_atan_micro_deg(z as int),
        r <= 45000000,
        z == 0 ==> r == 0,
        z == 1000000 ==> r == 45000000,
{
    let inner: u64 = 14020400 + (3798700 * z) / 1000000;
    proof {
        assert((z as int) * ((1000000 - z) as int) <= 250000000000 && (z as int) * ((1000000
            - z) as int) >= 0) by (nonlinear_arith)
            requires
                0 <= z <= 1000000,
        ;
    }
    let prod: u64 = z * (1000000 - z);
    proof {
        assert((prod as int) * (inner as int) <= 250000000000 * 17819100 && (prod as int) * (
        inner as int) >= 0) by (nonlinear_arith)
            requires
                0 <= prod <= 250000000000,
                0 <= inner <= 17819100,
        ;
        assert((prod as int) * (inner as int) / 1000000000000 <= 45 * (1000000 - z)) by {
            assert((prod as int) * (inner as int) <= ((1000000 - z) as int) * 45000000000000)
                by (nonlinear_arith)
                requires
                    0 <= z <= 1000000,
                    prod == (z as int) * ((1000000 - z) as int),
                    0 <= inner <= 17819100,
            ;
            vstd::arithmetic::div_mod::lemma_div_is_ordered(
                (prod as int) * (inner as int),
                ((1000000 - z) as int) * 45000000000000,
                1000000000000,
            );
            assert((((1000000 - z) as int) * 45000000000000) / 1000000000000 == 45 * (1000000 - z))
                by (nonlinear_arith)
                requires
                    z <= 1000000,
            ;
        };
    }
    proof {
        assert(z == 0 ==> (prod as int) * (inner as int) == 0) by (nonlinear_arith)
            requires
                prod == (z as int) * ((1000000 - z) as int),
        ;
    }
    45 * z + (prod * inner) / 1000000000000
}

/// Sine, in micro-units, of an angle given in micro-radians in
/// `[0, pi/4]`: the Taylor form `r - r^3/6 + r^5/120` over the micro grid.
pub open spec fn spec_sin_small(r: int) -> int {
    let r2 = (r * r) / 1000000;
    let r3 = (r2 * r) / 1000000;
    let r5 = (r3 * r2) / 1000000;
    r + r5 / 120 - r3 / 6
}

/// Cosine, in micro-units, of an angle given in micro-radians in
/// `[0, pi/4]`: the Taylor form `1 - r^2/2 + r^4/24` over the micro grid.
pub open spec fn spec_cos_small(r: int) -> int {
    let r2 = (r * r) / 1000000;
    let r4 = (r2 * r2) / 1000000;
    1000000 + r4 / 24 - r2 / 2
}

/// Bounds for the power ladder used by the small-angle kernels.
proof fn lemma_power_ladder(r: int)
    requires
        0 <= r <= 790000,
    ensures
        0 <= (r * r) / 1000000 <= 624100,
        ((r * r) / 1000000) * r / 1000000 <= r,
        ((r * r) / 1000000) * r / 1000000 >= 0,
        (((r * r) / 1000000) * r / 1000000) * ((r * r) / 1000000) / 1000000 <= r,
        (((r * r) / 1000000) * r / 1000000) * ((r * r) / 1000000) / 1000000 >= 0,
        ((r * r) / 1000000) * ((r * r) / 1000000) / 1000000 <= (r * r) / 1000000,
        ((r * r) / 1000000) * ((r * r) / 1000000) / 1000000 >= 0,
{
    let r2 = (r * r) / 1000000;
    assert(0 <= r * r <= 624100000000) by (nonlinear_arith)
        requires
            0 <= r <= 790000,
    ;
    assert(r2 <= 624100) by {
        vstd::arithmetic::div_mod::lemma_div_is_ordered(r * r, 624100000000, 1000000);
    };
    assert(0 <= r2 * r <= 1000000 * r) by (nonlinear_arith)
        requires
            0 <= r2 <= 1000000,
            0 <= r,
    ;
    let r3 = r2 * r / 1000000;
    assert(r3 <= r) by {
        vstd::arithmetic::div_mod::lemma_div_is_ordered(r2 * r, 1000000 * r, 1000000);
        vstd::arithmetic::div_mod::lemma_div_multiples_vanish(r, 1000000);
    };
    assert(0 <= r3 * r2 <= 1000000 * r) by (nonlinear_arith)
        requires
            0 <= r2 <= 1000000,
            0 <= r3 <= r,
            0 <= r,
    ;
    assert(r3 * r2 / 1000000 <= r) by {
        vstd::arithmetic::div_mod::lemma_div_is_ordered(r3 * r2, 1000000 * r, 1000000);
        vstd::arithmetic::div_mod::lemma_div_multiples_vanish(r, 1000000);
    };
    assert(0 <= r2 * r2 <= 1000000 * r2) by (nonlinear_arith)
        requires
            0 <= r2 <= 1000000,
    ;
    assert(r2 * r2 / 1000000 <= r2) by {
        vstd::arithmetic::div_mod::lemma_div_is_ordered(r2 * r2, 1000000 * r2, 1000000);
        vstd::arithmetic::div_mod::lemma_div_multiples_vanish(r2, 1000000);
    };
}

/// Sine of a micro-radian angle in `[0, pi/4]`.
fn sin_small(r: u64) -> (s: u64)
    requires
        r <= 790000,
    ensures
        s == spec_sin_small(r as int),
        s <= 1000000,
{
    proof {
        lemma_power_ladder(r as int);
    }
    let r2: u64 = (r * r) / 1000000;
    let r3: u64 = (r2 * r) / 1000000;
    let r5: u64 = (r3 * r2) / 1000000;
    r + r5 / 120 - r3 / 6
}

/// Cosine of a micro-radian angle in `[0, pi/4]`.
fn cos_small(r: u64) -> (c: u64)
    requires
        r <= 790000,
    ensures
        c == spec_cos_small(r as int),
        c <= 1000000,
{
    proof {
        lemma_power_ladder(r as int);
    }
    let r2: u64 = (r * r) / 1000000;
    let r4: u64 = (r2 * r2) / 1000000;
    1000000 + r4 / 24 - r2 / 2
}

/// Micro-degrees to micro-radians: multiply by pi/180 on the micro grid.
pub open spec fn spec_deg_to_rad_micro(deg: int) -> int {
    (deg * 17453293) / 1000000000
}

/// Sine and cosine, in signed micro-units, of an angle given in
/// micro-degrees in `[0, 90]` degrees.
pub open spec fn spec_sin_cos_quarter(deg: int) -> (int, int) {
    let rad = spec_deg_to_rad_micro(deg);
    if deg <= 45000000 {
        (spec_sin_small(rad), spec_cos_small(rad))
    } else {
        let rad2 = spec_deg_to_rad_micro(90000000 - deg);
        (spec_cos_small(rad2), spec_sin_small(rad2))
    }
}

/// Sine and cosine of an angle in `[0, 90]` degrees (micro-degrees in,
/// micro-units out).
fn sin_cos_quarter(deg: u64) -> (sc: (u64, u64))
    requires
        deg <= 90000000,
    ensures
        (sc.0 as int, sc.1 as int) == spec_sin_cos_quarter(deg as int),
        sc.0 <= 1000000,
        sc.1 <= 1000000,
{
    if deg <= 45000000 {
        let rad: u64 = (deg * 17453293) / 1000000000;
        proof {
            vstd::arithmetic::div_mod::lemma_div_is_ordered(
                (deg as int) * 17453293,
                45000000int * 17453293,
                1000000000,
            );
        }
        (sin_small(rad), cos_small(rad))
    } else {
        let mirrored: u64 = 90000000 - deg;
        let rad: u64 = (mirrored * 17453293) / 1000000000;
        proof {
            vstd::arithmetic::div_mod::lemma_div_is_ordered(
                (mirrored as int) * 17453293,
                45000000int * 17453293,
                1000000000,
            );
        }
        (cos_small(rad), sin_small(rad))
    }
}

/// Sine and cosine, in signed micro-units, of an angle in micro-degrees in
/// `[0, 360]`: quadrant reduction over `spec_sin_cos_quarter`.
pub open spec fn spec_sin_cos_micro_deg(deg: int) -> (int, int) {
    if deg <= 90000000 {
        spec_sin_cos_quarter(deg)
    } else if deg <= 180000000 {
        let sc = spec_sin_cos_quarter(180000000 - deg);
        (sc.0, -sc.1)
    } else if deg <= 270000000 {
        let sc = spec_sin_cos_quarter(deg - 180000000);
        (-sc.0, -sc.1)
    } else {
        let sc = spec_sin_cos_quarter(360000000 - deg);
        (-sc.0, sc.1)
    }
}

/// Sine and cosine of an angle in `[0, 360]` degrees, as signed micro-units.
pub fn sin_cos_micro_deg(deg: u64) -> (sc: (i64, i64))
    requires
        deg <= 360000000,
    ensures
        (sc.0 as int, sc.1 as int) == spec_sin_cos_micro_deg(deg as int),
        -1000000 <= sc.0 <= 1000000,
        -1000000 <= sc.1 <= 1000000,
{
    if deg <= 90000000 {
        let sc = sin_cos_quarter(deg);
        (sc.0 as i64, sc.1 as i64)
    } else if deg <= 180000000 {
        let sc = sin_cos_quarter(180000000 - deg);
        (sc.0 as i64, -(sc.1 as i64))
    } else if deg <= 270000000 {
        let sc = sin_cos_quarter(deg - 180000000);
        (-(sc.0 as i64), -(sc.1 as i64))
    } else {
        let sc = sin_cos_quarter(360000000 - deg);
        (-(sc.0 as i64), sc.1 as i64)
    }
}

} // verus!
