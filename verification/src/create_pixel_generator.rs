//! Building pixel generators from resolved configuration values.

use vstd::prelude::*;

use crate::bucket::BucketDirection;
use crate::pixel_generator_configuration::PixelGeneratorConfiguration;
use crate::pixel_generators::PixelGenerator;
use crate::ratio::{Ratio, DENOMINATOR_LIMIT};

verus! {

/// The color model variant a wheel renders with.
#[derive(Debug, Copy, Clone, PartialEq, Eq, Structural)]
pub enum ColorWheelType {
    HslFixedSaturation,
    HslFixedLightness,
    HsvFixedSaturation,
    HsvFixedValue,
    OklabFixedLightness,
    OklabFixedChroma,
}

/// The generator a given variant and fixed-dimension value produce.
pub open spec fn spec_create_pixel_generator(
    color_wheel_type: ColorWheelType,
    fixed: Ratio,
    configuration: PixelGeneratorConfiguration,
) -> PixelGenerator {
    match color_wheel_type {
        ColorWheelType::HslFixedSaturation => PixelGenerator::HslFixedSaturation {
            saturation: fixed,
            configuration,
        },
        ColorWheelType::HslFixedLightness => PixelGenerator::HslFixedLightness {
            lightness: fixed,
            configuration,
        },
        ColorWheelType::HsvFixedSaturation => PixelGenerator::HsvFixedSaturation {
            saturation: fixed,
            configuration,
        },
        ColorWheelType::HsvFixedValue => PixelGenerator::HsvFixedValue {
            value: fixed,
            configuration,
        },
        ColorWheelType::OklabFixedLightness => PixelGenerator::OklabFixedLightness {
            lightness: fixed,
            configuration,
        },
        ColorWheelType::OklabFixedChroma => PixelGenerator::OklabFixedChroma {
            chroma: fixed,
            configuration,
        },
    }
}

/// Builds the generator for one ring: the chosen variant with its fixed
/// dimension value and the shared configuration.
pub struct DefaultCreatePixelGenerator {}

impl DefaultCreatePixelGenerator {
    pub fn execute(
        &self,
        color_wheel_type: ColorWheelType,
        fixed: Ratio,
        configuration: PixelGeneratorConfiguration,
    ) -> (r: PixelGenerator)
        requires
            fixed.wf(),
            fixed.spec_at_most(1),
            fixed.den <= DENOMINATOR_LIMIT,
        ensures
            r == spec_create_pixel_generator(color_wheel_type, fixed, configuration),
            r.wf(),
    {
        match color_wheel_type {
            ColorWheelType::HslFixedSaturation => PixelGenerator::HslFixedSaturation {
                saturation: fixed,
                configuration,
            },
            ColorWheelType::HslFixedLightness => PixelGenerator::HslFixedLightness {
                lightness: fixed,
                configuration,
            },
            ColorWheelType::HsvFixedSaturation => PixelGenerator::HsvFixedSaturation {
                saturation: fixed,
                configuration,
            },
            ColorWheelType::HsvFixedValue => PixelGenerator::HsvFixedValue {
                value: fixed,
                configuration,
            },
            ColorWheelType::OklabFixedLightness => PixelGenerator::OklabFixedLightness {
                lightness: fixed,
                configuration,
            },
            ColorWheelType::OklabFixedChroma => PixelGenerator::OklabFixedChroma {
                chroma: fixed,
                configuration,
            },
        }
    }
}

/// The fixed-dimension value used when none is given: one half for
/// fixed-lightness HSL wheels, one otherwise.
pub fn default_fixed_value(color_wheel_type: ColorWheelType) -> (r: Ratio)
    ensures
        r == if color_wheel_type == ColorWheelType::HslFixedLightness {
            Ratio { num: 1, den: 2 }
        } else {
            Ratio { num: 1, den: 1 }
        },
{
    match color_wheel_type {
        ColorWheelType::HslFixedLightness => Ratio { num: 1, den: 2 },
        _ => Ratio { num: 1, den: 1 },
    }
}

/// Derive the per-render generator configuration from the two radial CLI
/// flags: reversing the radial colors flips the varying dimension, and the
/// radial bucket direction defaults to `Up` flipped once per active flag.
pub fn create_pixel_generator_configuration(
    reverse_radial_colors: bool,
    reverse_radial_bucketing: bool,
) -> (r: PixelGeneratorConfiguration)
    ensures
        r == (PixelGeneratorConfiguration {
            is_angle_inverted: false,
            is_varying_dimension_inverted: reverse_radial_colors,
            angle_bucket_direction: BucketDirection::Down,
            varying_dimension_bucket_direction: if reverse_radial_colors
                == reverse_radial_bucketing {
                BucketDirection::Up
            } else {
                BucketDirection::Down
            },
        }),
{
    let radial_bucket_direction: BucketDirection;
    if !reverse_radial_colors {
        if !reverse_radial_bucketing {
            radial_bucket_direction = BucketDirection::Up;
        } else {
            radial_bucket_direction = BucketDirection::Down;
        }
    } else if !reverse_radial_bucketing {
        radial_bucket_direction = BucketDirection::Down;
    } else {
        radial_bucket_direction = BucketDirection::Up;
    }

    PixelGeneratorConfiguration {
        is_angle_inverted: false,
        is_varying_dimension_inverted: reverse_radial_colors,
        angle_bucket_direction: BucketDirection::Down,
        varying_dimension_bucket_direction: radial_bucket_direction,
    }
}

} // verus!
