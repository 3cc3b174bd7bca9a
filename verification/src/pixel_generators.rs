//! The closed set of color generators.  Each generator owns one ring of a
//! wheel: the angle supplies the hue, the radial position supplies the
//! varying dimension, and one dimension is held fixed per generator.
//!
//! HSL and HSV generators are converted exactly by the rational pipeline in
//! [`crate::color`].  The Oklab generators compute the `(L, a, b)`
//! coordinates exactly over micro units (with the fixed-point sine and
//! cosine kernels) and rely on the `oklab` crate for the final
//! Oklab-to-sRGB transform.

use vstd::prelude::*;

use crate::color::{hsl_to_pixel, hsv_to_pixel, spec_hsl_to_pixel, spec_hsv_to_pixel};
use crate::math::{sin_cos_micro_deg, spec_sin_cos_micro_deg};
use crate::oklab::{oklab_micro_to_srgb, spec_oklab_micro_to_srgb};
use crate::pixel::{Pixel, OPAQUE};
use crate::pixel_generator_configuration::PixelGeneratorConfiguration;
use crate::ratio::{Ratio, DENOMINATOR_LIMIT};

verus! {

/// One pixel generator per color model variant, with the fixed dimension's
/// value and the shared configuration.
#[derive(Debug, Clone, Copy, PartialEq, Eq, Structural)]
pub enum PixelGenerator {
    HslFixedSaturation { saturation: Ratio, configuration: PixelGeneratorConfiguration },
    HslFixedLightness { lightness: Ratio, configuration: PixelGeneratorConfiguration },
    HsvFixedSaturation { saturation: Ratio, configuration: PixelGeneratorConfiguration },
    HsvFixedValue { value: Ratio, configuration: PixelGeneratorConfiguration },
    OklabFixedLightness { lightness: Ratio, configuration: PixelGeneratorConfiguration },
    OklabFixedChroma { chroma: Ratio, configuration: PixelGeneratorConfiguration },
}

/// `floor(value * 10^6)` of a fraction: the micro-unit form fed to the
/// fixed-point kernels.
pub open spec fn spec_to_micro(value: Ratio) -> int {
    ((value.num as int) * 1000000) / (value.den as int)
}

/// Micro form of a fraction bounded by `cap` (1 for unit values, 360 for
/// angles).
fn to_micro(value: Ratio, cap: u64) -> (r: u64)
    requires
        value.wf(),
        value.spec_at_most(cap as int),
        cap <= 360,
        value.den <= 2 * DENOMINATOR_LIMIT,
    ensures
        r == spec_to_micro(value),
        r <= cap * 1000000,
{
    proof {
        assert((value.num as int) * 1000000 <= ((cap * value.den) as int) * 1000000 && ((cap
            * value.den) as int) * 1000000 == (value.den as int) * ((cap * 1000000) as int) && (
        value.num as int) * 1000000 >= 0 && (value.num as int) * 1000000
            <= 3092376453120000000) by (nonlinear_arith)
            requires
                value.num <= (cap as int) * (value.den as int),
                value.den >= 1,
                cap <= 360,
                value.num >= 0,
                value.den <= 0x200000000u64,
        ;
        vstd::arithmetic::div_mod::lemma_multiply_divide_le(
            (value.num as int) * 1000000,
            value.den as int,
            (cap * 1000000) as int,
        );
    }
    (value.num * 1000000) / value.den
}

/// `c * t / 10^6` with `t` signed, truncating toward zero.
pub open spec fn spec_scale_signed(c: int, t: int) -> int {
    if t >= 0 {
        (c * t) / 1000000
    } else {
        -((c * -t) / 1000000)
    }
}

/// Scale a micro-unit magnitude by a signed micro-unit factor.
fn scale_signed(c: u64, t: i64) -> (r: i64)
    requires
        c <= 1000000,
        -1000000 <= t <= 1000000,
    ensures
        r == spec_scale_signed(c as int, t as int),
        -1000000 <= r <= 1000000,
{
    if t >= 0 {
        let m: u64 = t as u64;
        proof {
            assert((c as int) * (m as int) <= 1000000000000 && (c as int) * (m as int) >= 0)
                by (nonlinear_arith)
                requires
                    0 <= c <= 1000000,
                    0 <= m <= 1000000,
            ;
            vstd::arithmetic::div_mod::lemma_div_is_ordered(
                (c as int) * (m as int),
                1000000000000,
                1000000,
            );
        }
        ((c * m) / 1000000) as i64
    } else {
        let m: u64 = (-t) as u64;
        proof {
            assert((c as int) * (m as int) <= 1000000000000 && (c as int) * (m as int) >= 0)
                by (nonlinear_arith)
                requires
                    0 <= c <= 1000000,
                    0 <= m <= 1000000,
            ;
            vstd::arithmetic::div_mod::lemma_div_is_ordered(
                (c as int) * (m as int),
                1000000000000,
                1000000,
            );
        }
        -(((c * m) / 1000000) as i64)
    }
}

/// The pixel an Oklab generator produces: `a = chroma * cos(angle)`,
/// `b = chroma * sin(angle)`, then the named Oklab-to-sRGB transform, fully
/// opaque.
pub open spec fn spec_oklab_pixel(lightness: Ratio, chroma: Ratio, angle: Ratio) -> Pixel {
    let l_micro = spec_to_micro(lightness);
    let c_micro = spec_to_micro(chroma);
    let deg = spec_to_micro(angle);
    let sc = spec_sin_cos_micro_deg(deg);
    let a = spec_scale_signed(c_micro, sc.1);
    let b = spec_scale_signed(c_micro, sc.0);
    let bytes = spec_oklab_micro_to_srgb(l_micro, a, b);
    Pixel { red: bytes.0, green: bytes.1, blue: bytes.2, alpha: OPAQUE }
}

/// Convert one Oklab color, with coordinates given as exact fractions, to an
/// opaque pixel.
fn oklab_pixel(lightness: Ratio, chroma: Ratio, angle: Ratio) -> (r: Pixel)
    requires
        lightness.wf(),
        lightness.spec_at_most(1),
        lightness.den <= 2 * DENOMINATOR_LIMIT,
        chroma.wf(),
        chroma.spec_at_most(1),
        chroma.den <= 2 * DENOMINATOR_LIMIT,
        angle.wf(),
        angle.spec_at_most(360),
        angle.den <= DENOMINATOR_LIMIT,
    ensures
        r == spec_oklab_pixel(lightness, chroma, angle),
        r.alpha == OPAQUE,
{
    let l_micro = to_micro(lightness, 1);
    let c_micro = to_micro(chroma, 1);
    let deg = to_micro(angle, 360);
    let sc = sin_cos_micro_deg(deg);
    let a = scale_signed(c_micro, sc.1);
    let b = scale_signed(c_micro, sc.0);
    let bytes = oklab_micro_to_srgb(l_micro as i64, a, b);
    Pixel { red: bytes.0, green: bytes.1, blue: bytes.2, alpha: OPAQUE }
}

impl PixelGenerator {
    /// Valid fixed dimension: an exact unit-interval fraction whose
    /// denominator the converters accept.
    pub open spec fn wf(self) -> bool {
        let fixed = self.spec_fixed();
        fixed.wf() && fixed.spec_at_most(1) && fixed.den <= DENOMINATOR_LIMIT
    }

    /// The fixed dimension's value.
    pub open spec fn spec_fixed(self) -> Ratio {
        match self {
            PixelGenerator::HslFixedSaturation { saturation, .. } => saturation,
            PixelGenerator::HslFixedLightness { lightness, .. } => lightness,
            PixelGenerator::HsvFixedSaturation { saturation, .. } => saturation,
            PixelGenerator::HsvFixedValue { value, .. } => value,
            PixelGenerator::OklabFixedLightness { lightness, .. } => lightness,
            PixelGenerator::OklabFixedChroma { chroma, .. } => chroma,
        }
    }

    pub open spec fn spec_configuration(self) -> PixelGeneratorConfiguration {
        match self {
            PixelGenerator::HslFixedSaturation { configuration, .. } => configuration,
            PixelGenerator::HslFixedLightness { configuration, .. } => configuration,
            PixelGenerator::HsvFixedSaturation { configuration, .. } => configuration,
            PixelGenerator::HsvFixedValue { configuration, .. } => configuration,
            PixelGenerator::OklabFixedLightness { configuration, .. } => configuration,
            PixelGenerator::OklabFixedChroma { configuration, .. } => configuration,
        }
    }

    /// The pixel this generator yields for an angle (degrees) and a varying
    /// dimension (unit interval), both exact fractions.
    pub open spec fn spec_get_pixel(self, angle_degrees: Ratio, varying: Ratio) -> Pixel {
        match self {
            PixelGenerator::HslFixedSaturation { saturation, .. } => spec_hsl_to_pixel(
                angle_degrees,
                saturation,
                varying,
            ),
            PixelGenerator::HslFixedLightness { lightness, .. } => spec_hsl_to_pixel(
                angle_degrees,
                varying,
                lightness,
            ),
            PixelGenerator::HsvFixedSaturation { saturation, .. } => spec_hsv_to_pixel(
                angle_degrees,
                saturation,
                varying,
            ),
            PixelGenerator::HsvFixedValue { value, .. } => spec_hsv_to_pixel(
                angle_degrees,
                varying,
                value,
            ),
            PixelGenerator::OklabFixedLightness { lightness, .. } => spec_oklab_pixel(
                lightness,
                Ratio { num: varying.num, den: (2 * varying.den) as u64 },
                angle_degrees,
            ),
            PixelGenerator::OklabFixedChroma { chroma, .. } => spec_oklab_pixel(
                varying,
                chroma,
                angle_degrees,
            ),
        }
    }

    pub fn configuration(&self) -> (r: PixelGeneratorConfiguration)
        ensures
            r == self.spec_configuration(),
    {
        match self {
            PixelGenerator::HslFixedSaturation { configuration, .. } => *configuration,
            PixelGenerator::HslFixedLightness { configuration, .. } => *configuration,
            PixelGenerator::HsvFixedSaturation { configuration, .. } => *configuration,
            PixelGenerator::HsvFixedValue { configuration, .. } => *configuration,
            PixelGenerator::OklabFixedLightness { configuration, .. } => *configuration,
            PixelGenerator::OklabFixedChroma { configuration, .. } => *configuration,
        }
    }

    /// Produce this generator's pixel for the given angle and varying
    /// dimension.  Always fully opaque.
    pub fn get_pixel(&self, angle_degrees: Ratio, varying_dimension_value: Ratio) -> (r: Pixel)
        requires
            self.wf(),
            angle_degrees.wf(),
            angle_degrees.spec_at_most(360),
            angle_degrees.den <= DENOMINATOR_LIMIT,
            varying_dimension_value.wf(),
            varying_dimension_value.spec_at_most(1),
            varying_dimension_value.den <= DENOMINATOR_LIMIT,
        ensures
            r == self.spec_get_pixel(angle_degrees, varying_dimension_value),
            r.alpha == OPAQUE,
    {
        match self {
            PixelGenerator::HslFixedSaturation { saturation, .. } => hsl_to_pixel(
                angle_degrees,
                *saturation,
                varying_dimension_value,
            ),
            PixelGenerator::HslFixedLightness { lightness, .. } => hsl_to_pixel(
                angle_degrees,
                varying_dimension_value,
                *lightness,
            ),
            PixelGenerator::HsvFixedSaturation { saturation, .. } => hsv_to_pixel(
                angle_degrees,
                *saturation,
                varying_dimension_value,
            ),
            PixelGenerator::HsvFixedValue { value, .. } => hsv_to_pixel(
                angle_degrees,
                varying_dimension_value,
                *value,
            ),
            PixelGenerator::OklabFixedLightness { lightness, .. } => {
                let half = Ratio {
                    num: varying_dimension_value.num,
                    den: 2 * varying_dimension_value.den,
                };
                oklab_pixel(*lightness, half, angle_degrees)
            },
            PixelGenerator::OklabFixedChroma { chroma, .. } => oklab_pixel(
                varying_dimension_value,
                *chroma,
                angle_degrees,
            ),
        }
    }
}

} // verus!
