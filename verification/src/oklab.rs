//! Fixed-point Oklab to sRGB conversion.
//!
//! The standard transform: the Oklab coordinates pass through a linear map
//! to the `l' m' s'` basis, each component is cubed, a second linear map
//! yields linear-light sRGB, and the sRGB transfer function
//! (`1.055 * u^(1/2.4) - 0.055` above the linear toe, `12.92 * u` below it)
//! brings each channel to its 8-bit value.  Everything is computed over
//! scaled integers: the published coefficients are used at a scale of
//! `10^10`, and `u^(1/2.4) = u^(5/12)` is taken exactly as an integer cube
//! root followed by two square roots.

use vstd::prelude::*;

use crate::color::{spec_denormalize_channel, denormalize_channel};
use crate::math::{div_trunc, icbrt_u128, isqrt_u128, spec_div_trunc};
use crate::get_pixel_generator_and_variable_dimension::{lemma_isqrt_is, spec_isqrt};

verus! {

/// The greatest `r` with `r^3 <= n`, as a specification value.
pub open spec fn spec_icbrt(n: int) -> int {
    choose|r: int| 0 <= r && #[trigger] (r * r * r) <= n && (r + 1) * (r + 1) * (r + 1) > n
}

/// Any `r` bracketing `n` between consecutive cubes is the integer cube
/// root.
pub proof fn lemma_icbrt_is(n: int, r: int)
    requires
        0 <= r,
        r * r * r <= n,
        (r + 1) * (r + 1) * (r + 1) > n,
    ensures
        spec_icbrt(n) == r,
{
    assert(exists|q: int|
        0 <= q && #[trigger] (q * q * q) <= n && (q + 1) * (q + 1) * (q + 1) > n) by {
        assert(0 <= r && (r * r * r) <= n && (r + 1) * (r + 1) * (r + 1) > n);
    };
    let q = spec_icbrt(n);
    assert(0 <= q && (q * q * q) <= n && (q + 1) * (q + 1) * (q + 1) > n);
    if q < r {
        assert((q + 1) * (q + 1) * (q + 1) <= r * r * r) by (nonlinear_arith)
            requires
                0 <= q,
                q < r,
        ;
    }
    if q > r {
        assert((r + 1) * (r + 1) * (r + 1) <= q * q * q) by (nonlinear_arith)
            requires
                0 <= r,
                r < q,
        ;
    }
}

/// The sRGB transfer function on a linear-light channel in micro units
/// (clamped to `[0, 1]`), rounded to its 8-bit value.
/// `u^(5/12)` in micro units is `sqrt(sqrt(cbrt(u^5) * 10^14))`.
pub open spec fn spec_linear_to_srgb_byte(u: int) -> u8 {
    let uc = if u < 0 {
        0
    } else if u > 1000000 {
        1000000
    } else {
        u
    };
    if uc < 3131 {
        spec_denormalize_channel(1292 * uc, 100000000)
    } else {
        let u5 = uc * uc * uc * uc * uc;
        let root = spec_isqrt(spec_icbrt(u5) * 100000000000000);
        let gamma = spec_isqrt(root);
        let num = 1055 * gamma - 55000000;
        if num < 0 {
            0u8
        } else {
            spec_denormalize_channel(num, 1000000000)
        }
    }
}

/// Apply the sRGB transfer function to a linear-light channel given in
/// signed micro units.
fn linear_to_srgb_byte(u: i64) -> (r: u8)
    ensures
        r == spec_linear_to_srgb_byte(u as int),
{
    let uc: u64 = if u < 0 {
        0
    } else if u > 1000000 {
        1000000
    } else {
        u as u64
    };
    if uc < 3131 {
        denormalize_channel((1292 * uc) as u128, 100000000)
    } else {
        proof {
            assert((uc as int) * (uc as int) <= 1000000000000 && (uc as int) * (uc as int) * (
            uc as int) <= 1000000000000000000 && (uc as int) * (uc as int) * (uc as int) * (
            uc as int) <= 1000000000000000000000000 && (uc as int) * (uc as int) * (uc as int) * (
            uc as int) * (uc as int) <= 1000000000000000000000000000000) by (nonlinear_arith)
                requires
                    0 <= uc <= 1000000,
            ;
        }
        let u5: u128 = (uc as u128) * (uc as u128) * (uc as u128) * (uc as u128) * (uc as u128);
        let c: u128 = icbrt_u128(u5);
        proof {
            lemma_icbrt_is(u5 as int, c as int);
        }
        let scaled: u128 = c * 100000000000000;
        let root: u128 = isqrt_u128(scaled);
        proof {
            lemma_isqrt_is(scaled as int, root as int);
            assert(root <= 1000000000000) by (nonlinear_arith)
                requires
                    (root as int) * (root as int) <= scaled as int,
                    scaled <= 1000000000000000000000000u128,
                    root >= 0,
            ;
        }
        let gamma: u128 = isqrt_u128(root);
        proof {
            lemma_isqrt_is(root as int, gamma as int);
            assert(gamma <= 1000000) by (nonlinear_arith)
                requires
                    (gamma as int) * (gamma as int) <= root as int,
                    root <= 1000000000000u128,
                    gamma >= 0,
            ;
        }
        let num: u64 = 1055 * (gamma as u64);
        if num < 55000000 {
            0u8
        } else {
            denormalize_channel((num - 55000000) as u128, 1000000000)
        }
    }
}

/// The cubed `l' m' s'` components for micro-scaled Oklab coordinates, each
/// at micro scale.
pub open spec fn spec_lms_cubed(l: int, a: int, b: int) -> (int, int, int) {
    let lp = spec_div_trunc(l * 10000000000 + 3963377774 * a + 2158037573 * b, 10000000000);
    let mp = spec_div_trunc(l * 10000000000 - 1055613458 * a - 638541728 * b, 10000000000);
    let sp = spec_div_trunc(l * 10000000000 - 894841775 * a - 12914855480 * b, 10000000000);
    (
        spec_div_trunc(lp * lp * lp, 1000000000000),
        spec_div_trunc(mp * mp * mp, 1000000000000),
        spec_div_trunc(sp * sp * sp, 1000000000000),
    )
}

/// The exact sRGB bytes the fixed-point transform produces for micro-scaled
/// Oklab coordinates `(l, a, b)`.
pub open spec fn spec_oklab_micro_to_srgb(l: int, a: int, b: int) -> (u8, u8, u8) {
    let cubes = spec_lms_cubed(l, a, b);
    let lc = cubes.0;
    let mc = cubes.1;
    let sc = cubes.2;
    let red = spec_div_trunc(40767416621 * lc - 33077115913 * mc + 2309699292 * sc, 10000000000);
    let green = spec_div_trunc(
        -12684380046 * lc + 26097574011 * mc - 3413193965 * sc,
        10000000000,
    );
    let blue = spec_div_trunc(-41960863 * lc - 7034186147 * mc + 17076147010 * sc, 10000000000);
    (spec_linear_to_srgb_byte(red), spec_linear_to_srgb_byte(green), spec_linear_to_srgb_byte(blue))
}

/// The cubed `l' m' s'` components of an Oklab color.
fn lms_cubed(l: i64, a: i64, b: i64) -> (r: (i128, i128, i128))
    requires
        0 <= l <= 1000000,
        -1000000 <= a <= 1000000,
        -1000000 <= b <= 1000000,
    ensures
        (r.0 as int, r.1 as int, r.2 as int) == spec_lms_cubed(l as int, a as int, b as int),
        -13824000 <= r.0 <= 13824000,
        -13824000 <= r.1 <= 13824000,
        -13824000 <= r.2 <= 13824000,
{
    let li: i128 = l as i128;
    let ai: i128 = a as i128;
    let bi: i128 = b as i128;
    let lp: i128 = div_trunc(li * 10000000000 + 3963377774 * ai + 2158037573 * bi, 10000000000);
    let mp: i128 = div_trunc(li * 10000000000 - 1055613458 * ai - 638541728 * bi, 10000000000);
    let sp: i128 = div_trunc(li * 10000000000 - 894841775 * ai - 12914855480 * bi, 10000000000);
    proof {
        crate::math::lemma_div_trunc_magnitude(
            (li * 10000000000 + 3963377774 * ai + 2158037573 * bi) as int,
            10000000000,
            24000000000000000,
        );
        crate::math::lemma_div_trunc_magnitude(
            (li * 10000000000 - 1055613458 * ai - 638541728 * bi) as int,
            10000000000,
            24000000000000000,
        );
        crate::math::lemma_div_trunc_magnitude(
            (li * 10000000000 - 894841775 * ai - 12914855480 * bi) as int,
            10000000000,
            24000000000000000,
        );
        lemma_cube_in_range(lp as int);
        lemma_cube_in_range(mp as int);
        lemma_cube_in_range(sp as int);
    }
    let lc: i128 = div_trunc(lp * lp * lp, 1000000000000);
    let mc: i128 = div_trunc(mp * mp * mp, 1000000000000);
    let sc: i128 = div_trunc(sp * sp * sp, 1000000000000);
    proof {
        crate::math::lemma_div_trunc_magnitude(
            (lp * lp * lp) as int,
            1000000000000,
            13824000000000000000,
        );
        crate::math::lemma_div_trunc_magnitude(
            (mp * mp * mp) as int,
            1000000000000,
            13824000000000000000,
        );
        crate::math::lemma_div_trunc_magnitude(
            (sp * sp * sp) as int,
            1000000000000,
            13824000000000000000,
        );
    }
    (lc, mc, sc)
}

/// Convert micro-scaled Oklab coordinates to sRGB bytes.
pub fn oklab_micro_to_srgb(l: i64, a: i64, b: i64) -> (r: (u8, u8, u8))
    requires
        0 <= l <= 1000000,
        -1000000 <= a <= 1000000,
        -1000000 <= b <= 1000000,
    ensures
        (r.0, r.1, r.2) == spec_oklab_micro_to_srgb(l as int, a as int, b as int),
{
    let cubes = lms_cubed(l, a, b);
    let lc: i128 = cubes.0;
    let mc: i128 = cubes.1;
    let sc: i128 = cubes.2;
    let red: i128 = div_trunc(40767416621 * lc - 33077115913 * mc + 2309699292 * sc, 10000000000);
    let green: i128 = div_trunc(
        -12684380046 * lc + 26097574011 * mc - 3413193965 * sc,
        10000000000,
    );
    let blue: i128 = div_trunc(-41960863 * lc - 7034186147 * mc + 17076147010 * sc, 10000000000);
    proof {
        crate::math::lemma_div_trunc_magnitude(
            (40767416621 * lc - 33077115913 * mc + 2309699292 * sc) as int,
            10000000000,
            1100000000000000000,
        );
        crate::math::lemma_div_trunc_magnitude(
            (-12684380046 * lc + 26097574011 * mc - 3413193965 * sc) as int,
            10000000000,
            1100000000000000000,
        );
        crate::math::lemma_div_trunc_magnitude(
            (-41960863 * lc - 7034186147 * mc + 17076147010 * sc) as int,
            10000000000,
            1100000000000000000,
        );
    }
    let r0 = linear_to_srgb_byte(to_channel(red));
    let r1 = linear_to_srgb_byte(to_channel(green));
    let r2 = linear_to_srgb_byte(to_channel(blue));
    (r0, r1, r2)
}

/// The `l' m' s'` components stay within two units, so their cubes stay
/// well inside 128 bits.
proof fn lemma_cube_in_range(x: int)
    requires
        -2400000 <= x <= 2400000,
    ensures
        -13824000000000000000 <= x * x * x <= 13824000000000000000,
        0 <= x * x <= 5760000000000,
{
    assert(-13824000000000000000 <= x * x * x <= 13824000000000000000 && 0 <= x * x
        <= 5760000000000) by (nonlinear_arith)
        requires
            -2400000 <= x <= 2400000,
    ;
}

/// The linear channels are small after the matrix rows; the transfer
/// function clamps them to the unit range itself.
fn to_channel(x: i128) -> (r: i64)
    requires
        -200000000 <= x <= 200000000,
    ensures
        (r as int) == x as int,
{
    x as i64
}

} // verus!
