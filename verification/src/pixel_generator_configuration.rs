//! Per-generator rendering policy: inversion flags and bucket directions.
//! One configuration is derived once per render and shared by all rings of a
//! wheel.

use vstd::prelude::*;

use crate::bucket::BucketDirection;

verus! {

#[derive(Copy, Clone, Eq, PartialEq, Debug, Structural)]
pub struct PixelGeneratorConfiguration {
    pub is_angle_inverted: bool,
    pub is_varying_dimension_inverted: bool,
    pub angle_bucket_direction: BucketDirection,
    pub varying_dimension_bucket_direction: BucketDirection,
}

} // verus!
