//! Per-pixel color dispatch: quantize the angle and the varying dimension
//! into their buckets, apply the configured inversions (strictly after
//! bucketing, so bucket boundaries live in un-inverted space), and ask the
//! ring's generator for the pixel.

use vstd::prelude::*;

use crate::bucket::{bucket, spec_bucket};
use crate::pixel::{Pixel, OPAQUE};
use crate::pixel_generators::PixelGenerator;
use crate::ratio::{spec_ratio_complement, Ratio, DENOMINATOR_LIMIT};

verus! {

/// The pixel produced for an angle and varying dimension after bucketing
/// and inversion, by the given generator.
pub open spec fn spec_get_pixel_value(
    generator: PixelGenerator,
    angle_degrees: Ratio,
    variable_dimension: Ratio,
    angle_buckets: u32,
    distance_buckets: u32,
) -> Pixel {
    let configuration = generator.spec_configuration();
    let bucketed_angle = spec_bucket(
        angle_degrees,
        360,
        angle_buckets,
        configuration.angle_bucket_direction,
    );
    let bucketed_varying = spec_bucket(
        variable_dimension,
        1,
        distance_buckets,
        configuration.varying_dimension_bucket_direction,
    );
    let final_angle = if configuration.is_angle_inverted {
        spec_ratio_complement(360, bucketed_angle)
    } else {
        bucketed_angle
    };
    let final_varying = if configuration.is_varying_dimension_inverted {
        spec_ratio_complement(1, bucketed_varying)
    } else {
        bucketed_varying
    };
    generator.spec_get_pixel(final_angle, final_varying)
}

/// Turns one sample (angle, radial position) into its color.
pub struct DefaultGetPixel {}

impl DefaultGetPixel {
    /// Bucket both dimensions with the generator's configured directions,
    /// apply the inversion flags, and convert.
    pub fn execute(
        &self,
        pixel_generator: &PixelGenerator,
        angle_degrees: Ratio,
        variable_dimension: Ratio,
        angle_buckets: u32,
        distance_buckets: u32,
    ) -> (r: Pixel)
        requires
            pixel_generator.wf(),
            angle_degrees.wf(),
            angle_degrees.spec_at_most(360),
            angle_degrees.den <= DENOMINATOR_LIMIT,
            variable_dimension.wf(),
            variable_dimension.spec_at_most(1),
            variable_dimension.den <= DENOMINATOR_LIMIT,
        ensures
            r == spec_get_pixel_value(
                *pixel_generator,
                angle_degrees,
                variable_dimension,
                angle_buckets,
                distance_buckets,
            ),
            r.alpha == OPAQUE,
    {
        let configuration = pixel_generator.configuration();

        let bucketed_angle = bucket(
            angle_degrees,
            360,
            angle_buckets,
            configuration.angle_bucket_direction,
        );
        let bucketed_varying = bucket(
            variable_dimension,
            1,
            distance_buckets,
            configuration.varying_dimension_bucket_direction,
        );

        let final_angle = if configuration.is_angle_inverted {
            Ratio { num: 360 * bucketed_angle.den - bucketed_angle.num, den: bucketed_angle.den }
        } else {
            bucketed_angle
        };
        let final_varying = if configuration.is_varying_dimension_inverted {
            Ratio {
                num: bucketed_varying.den - bucketed_varying.num,
                den: bucketed_varying.den,
            }
        } else {
            bucketed_varying
        };

        pixel_generator.get_pixel(final_angle, final_varying)
    }
}

} // verus!
