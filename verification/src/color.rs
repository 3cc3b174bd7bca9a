//! HSL and HSV color conversion over exact rational inputs.
//!
//! Both conversions follow the standard chroma / intermediate / match
//! construction: `C` is the chroma term, `X = C * (1 - |((H/60) mod 2) - 1|)`,
//! and `m` is the per-model adjustment added to every channel before
//! denormalizing to 8 bits with `round(channel * 255)`.
//!
//! Inputs are exact fractions; every intermediate value is kept as an exact
//! numerator over a common denominator, so the computed bytes equal the
//! mathematical formulas exactly.  Out-of-range inputs are clamped to
//! `[0, 360]` degrees and `[0, 1]` before converting; the functions never
//! fail.

use vstd::prelude::*;

use crate::pixel::{Pixel, OPAQUE};
use crate::ratio::{Ratio, DENOMINATOR_LIMIT};

verus! {

/// Upper bound used by the denormalizer's overflow preconditions.
pub const DENORMALIZE_BOUND: u128 = 0x40000000000000000000000000000;

/// `round(255 * num / den)` for a nonnegative fraction, clamped to a byte.
pub open spec fn spec_denormalize_channel(num: int, den: int) -> u8 {
    let q = (510 * num + den) / (2 * den);
    if q > 255 {
        255u8
    } else {
        q as u8
    }
}

/// Round a channel fraction to its 8-bit value: `round(255 * num / den)`,
/// computed as `floor((510 * num + den) / (2 * den))`.
pub(crate) fn denormalize_channel(num: u128, den: u128) -> (r: u8)
    requires
        1 <= den < DENORMALIZE_BOUND,
        num < DENORMALIZE_BOUND,
    ensures
        r == spec_denormalize_channel(num as int, den as int),
{
    let q = (510 * num + den) / (2 * den);
    if q > 255 {
        255u8
    } else {
        q as u8
    }
}

/// Which of the six 60-degree hue sextants selects which permutation of
/// `(C, X, 0)`; returns the numerators of the red, green and blue
/// intermediate channels.
pub open spec fn spec_sextant_triple(hn: int, hd: int, c2: int, x2: int) -> (int, int, int) {
    if hn < 60 * hd {
        (c2, x2, 0)
    } else if hn < 120 * hd {
        (x2, c2, 0)
    } else if hn < 180 * hd {
        (0, c2, x2)
    } else if hn < 240 * hd {
        (0, x2, c2)
    } else if hn < 300 * hd {
        (x2, 0, c2)
    } else {
        (c2, 0, x2)
    }
}

/// The shared tail of both color models.  `hn / hd` is the clamped hue in
/// degrees; `c_num / d0` is the chroma `C`; `m_base / (2 * d0)` is the
/// adjustment `m`.  `X` is derived from the hue: over the common denominator
/// `120 * hd * d0` the three channel numerators are permuted by sextant and
/// then denormalized.
pub open spec fn spec_intermediate_cxm_to_pixel(
    hn: int,
    hd: int,
    c_num: int,
    m_base: int,
    d0: int,
) -> Pixel {
    let u = hn % (120 * hd);
    let xdist = if u >= 60 * hd {
        u - 60 * hd
    } else {
        60 * hd - u
    };
    let xf = 60 * hd - xdist;
    let c2 = c_num * 120 * hd;
    let x2 = 2 * c_num * xf;
    let m2 = m_base * 60 * hd;
    let den = 120 * hd * d0;
    let triple = spec_sextant_triple(hn, hd, c2, x2);
    Pixel {
        red: spec_denormalize_channel(triple.0 + m2, den),
        green: spec_denormalize_channel(triple.1 + m2, den),
        blue: spec_denormalize_channel(triple.2 + m2, den),
        alpha: OPAQUE,
    }
}

/// Builds the output pixel from the hue and the model-specific chroma and
/// adjustment numerators.
pub fn intermediate_cxm_to_pixel(hn: u64, hd: u64, c_num: u128, m_base: u128, d0: u128) -> (r:
    Pixel)
    requires
        1 <= hd <= DENOMINATOR_LIMIT,
        hn <= 360 * hd,
        1 <= d0 <= 0x10000000000000000,
        c_num <= d0,
        m_base <= 2 * d0,
    ensures
        r == spec_intermediate_cxm_to_pixel(
            hn as int,
            hd as int,
            c_num as int,
            m_base as int,
            d0 as int,
        ),
        r.alpha == OPAQUE,
{
    let h120: u128 = 120 * (hd as u128);
    let h60: u128 = 60 * (hd as u128);
    let u: u128 = (hn as u128) % h120;
    let xdist: u128 = if u >= h60 {
        u - h60
    } else {
        h60 - u
    };
    let xf: u128 = h60 - xdist;

    proof {
        assert(u < h120) by {
            vstd::arithmetic::div_mod::lemma_mod_bound(hn as int, h120 as int);
        };
        let hdi = hd as int;
        let d0i = d0 as int;
        let ci = c_num as int;
        let mi = m_base as int;
        let xfi = xf as int;
        assert(ci * 120 * hdi <= 0x10000000000000000 * 120 * 0x100000000 && ci * 120 * hdi >= 0)
            by (nonlinear_arith)
            requires
                0 <= ci <= d0i,
                d0i <= 0x10000000000000000,
                1 <= hdi <= 0x100000000,
        ;
        vstd::arithmetic::mul::lemma_mul_upper_bound(
            2 * (c_num as int),
            (2 * 0x10000000000000000) as int,
            xf as int,
            (60 * 0x100000000) as int,
        );
        vstd::arithmetic::mul::lemma_mul_upper_bound(
            (m_base as int) * 60,
            (2 * 0x10000000000000000 * 60) as int,
            hd as int,
            0x100000000 as int,
        );
        assert(120 * hdi * d0i <= 120 * 0x100000000 * 0x10000000000000000 && 120 * hdi * d0i >= 1)
            by (nonlinear_arith)
            requires
                1 <= d0i <= 0x10000000000000000,
                1 <= hdi <= 0x100000000,
        ;
    }

    let c2: u128 = c_num * 120 * (hd as u128);
    let x2: u128 = 2 * c_num * xf;
    let m2: u128 = m_base * 60 * (hd as u128);
    let den: u128 = 120 * (hd as u128) * d0;

    let h60u: u64 = 60 * hd;
    let (t0, t1, t2): (u128, u128, u128) = if hn < h60u {
        (c2, x2, 0)
    } else if hn < 2 * h60u {
        (x2, c2, 0)
    } else if hn < 3 * h60u {
        (0, c2, x2)
    } else if hn < 4 * h60u {
        (0, x2, c2)
    } else if hn < 5 * h60u {
        (x2, 0, c2)
    } else {
        (c2, 0, x2)
    };

    Pixel {
        red: denormalize_channel(t0 + m2, den),
        green: denormalize_channel(t1 + m2, den),
        blue: denormalize_channel(t2 + m2, den),
        alpha: OPAQUE,
    }
}

/// Clamp a fraction's numerator so the value is at most `cap`.
pub open spec fn spec_clamp_num(num: int, cap: int) -> int {
    if num > cap {
        cap
    } else {
        num
    }
}

/// The exact pixel produced from HSL inputs: `C = (1 - |2L - 1|) * S`,
/// `m = L - C/2`, with hue clamped to `[0, 360]` and the unit inputs to
/// `[0, 1]`.
pub open spec fn spec_hsl_to_pixel(hue: Ratio, saturation: Ratio, lightness: Ratio) -> Pixel {
    let hd = hue.den as int;
    let sd = saturation.den as int;
    let ld = lightness.den as int;
    let hn = spec_clamp_num(hue.num as int, 360 * hd);
    let sn = spec_clamp_num(saturation.num as int, sd);
    let ln = spec_clamp_num(lightness.num as int, ld);
    let light_dist = if 2 * ln >= ld {
        2 * ln - ld
    } else {
        ld - 2 * ln
    };
    let c_num = (ld - light_dist) * sn;
    let m_base = 2 * ln * sd - c_num;
    spec_intermediate_cxm_to_pixel(hn, hd, c_num, m_base, ld * sd)
}

/// The exact pixel produced from HSV inputs: `C = V * S`, `m = V - C`, with
/// hue clamped to `[0, 360]` and the unit inputs to `[0, 1]`.
pub open spec fn spec_hsv_to_pixel(hue: Ratio, saturation: Ratio, value: Ratio) -> Pixel {
    let hd = hue.den as int;
    let sd = saturation.den as int;
    let vd = value.den as int;
    let hn = spec_clamp_num(hue.num as int, 360 * hd);
    let sn = spec_clamp_num(saturation.num as int, sd);
    let vn = spec_clamp_num(value.num as int, vd);
    let c_num = vn * sn;
    let m_base = 2 * (sd - sn) * vn;
    spec_intermediate_cxm_to_pixel(hn, hd, c_num, m_base, vd * sd)
}

/// Convert an HSL color, given as exact fractions (hue in degrees, the other
/// two in the unit interval), to an opaque 8-bit pixel.
pub fn hsl_to_pixel(hue: Ratio, saturation: Ratio, lightness: Ratio) -> (r: Pixel)
    requires
        hue.wf(),
        saturation.wf(),
        lightness.wf(),
        hue.den <= DENOMINATOR_LIMIT,
        saturation.den <= DENOMINATOR_LIMIT,
        lightness.den <= DENOMINATOR_LIMIT,
    ensures
        r == spec_hsl_to_pixel(hue, saturation, lightness),
        r.alpha == OPAQUE,
{
    let hd = hue.den;
    let cap_h = 360 * hd;
    let hn = if hue.num > cap_h {
        cap_h
    } else {
        hue.num
    };
    let sd = saturation.den;
    let sn = if saturation.num > sd {
        sd
    } else {
        saturation.num
    };
    let ld = lightness.den;
    let ln = if lightness.num > ld {
        ld
    } else {
        lightness.num
    };

    let two_ln: u128 = 2 * (ln as u128);
    let ld_w: u128 = ld as u128;
    let light_dist: u128 = if two_ln >= ld_w {
        two_ln - ld_w
    } else {
        ld_w - two_ln
    };
    proof {
        let ldi = ld as int;
        let sdi = sd as int;
        let sni = sn as int;
        let lni = ln as int;
        let di = light_dist as int;
        assert((ldi - di) * sni <= ldi * sdi && (ldi - di) * sni <= 2 * lni * sdi && 2 * lni * sdi
            <= 2 * (ldi * sdi) && ldi * sdi <= 0x10000000000000000 && ldi * sdi >= 1 && (ldi - di)
            * sni >= 0) by (nonlinear_arith)
            requires
                1 <= ldi <= 0x100000000,
                1 <= sdi <= 0x100000000,
                0 <= sni <= sdi,
                0 <= lni <= ldi,
                di == if 2 * lni >= ldi {
                    2 * lni - ldi
                } else {
                    ldi - 2 * lni
                },
        ;
    }
    let c_num: u128 = (ld_w - light_dist) * (sn as u128);
    let m_base: u128 = 2 * (ln as u128) * (sd as u128) - c_num;
    let d0: u128 = (ld as u128) * (sd as u128);

    intermediate_cxm_to_pixel(hn, hd, c_num, m_base, d0)
}

/// Convert an HSV color, given as exact fractions (hue in degrees, the other
/// two in the unit interval), to an opaque 8-bit pixel.
pub fn hsv_to_pixel(hue: Ratio, saturation: Ratio, value: Ratio) -> (r: Pixel)
    requires
        hue.wf(),
        saturation.wf(),
        value.wf(),
        hue.den <= DENOMINATOR_LIMIT,
        saturation.den <= DENOMINATOR_LIMIT,
        value.den <= DENOMINATOR_LIMIT,
    ensures
        r == spec_hsv_to_pixel(hue, saturation, value),
        r.alpha == OPAQUE,
{
    let hd = hue.den;
    let cap_h = 360 * hd;
    let hn = if hue.num > cap_h {
        cap_h
    } else {
        hue.num
    };
    let sd = saturation.den;
    let sn = if saturation.num > sd {
        sd
    } else {
        saturation.num
    };
    let vd = value.den;
    let vn = if value.num > vd {
        vd
    } else {
        value.num
    };

    proof {
        let vdi = vd as int;
        let sdi = sd as int;
        let sni = sn as int;
        let vni = vn as int;
        assert(vni * sni <= vdi * sdi && 2 * (sdi - sni) * vni <= 2 * (vdi * sdi) && vdi * sdi
            <= 0x10000000000000000 && vdi * sdi >= 1 && vni * sni >= 0 && 2 * (sdi - sni) * vni
            >= 0) by (nonlinear_arith)
            requires
                1 <= vdi <= 0x100000000,
                1 <= sdi <= 0x100000000,
                0 <= sni <= sdi,
                0 <= vni <= vdi,
        ;
    }
    let c_num: u128 = (vn as u128) * (sn as u128);
    let m_base: u128 = 2 * ((sd as u128) - (sn as u128)) * (vn as u128);
    let d0: u128 = (vd as u128) * (sd as u128);

    intermediate_cxm_to_pixel(hn, hd, c_num, m_base, d0)
}

} // verus!
