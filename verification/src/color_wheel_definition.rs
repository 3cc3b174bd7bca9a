//! One renderable wheel: a square image with a margin, the two bucket
//! counts, and the ordered generator list forming concentric rings from the
//! center outward.

use vstd::prelude::*;

use crate::pixel_generators::PixelGenerator;

verus! {

pub struct ColorWheelDefinition {
    pub image_size: u32,
    pub margin_size: u32,
    pub angle_buckets: u32,
    pub distance_buckets: u32,
    pub pixel_generators: Vec<PixelGenerator>,
}

impl ColorWheelDefinition {
    /// Valid definition: every generator carries a well-formed fixed
    /// dimension, and the ring list is indexable by 32-bit counts.
    pub open spec fn wf(self) -> bool {
        &&& forall|i: int|
            0 <= i < self.pixel_generators@.len() ==> (#[trigger] self.pixel_generators@[i]).wf()
        &&& self.pixel_generators@.len() <= u32::MAX
    }
}

} // verus!
