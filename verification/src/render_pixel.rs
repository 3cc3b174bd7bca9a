//! Per-pixel rendering: decide whether a pixel belongs to the wheel and, if
//! so, which color it gets.
//!
//! The pixel's offset from the wheel center gives a squared distance and an
//! angle.  A pixel beyond the renderable radius is left untouched; otherwise
//! the owning ring is selected, both dimensions are bucketed and possibly
//! inverted, and the ring's generator supplies the color.

use vstd::prelude::*;

use crate::color_wheel_definition::ColorWheelDefinition;
use crate::get_angle_degrees::{get_angle_degrees, spec_angle_micro_deg};
use crate::get_pixel::{spec_get_pixel_value, DefaultGetPixel};
use crate::get_pixel_generator_and_variable_dimension::{
    get_pixel_generator_and_variable_dimension, spec_select_ring, spec_variable_dimension,
    MAX_IMAGE_SIZE,
};
use crate::pixel::{Pixel, OPAQUE};
use crate::ratio::{Ratio, MICRO};

verus! {

/// Per-wheel geometry, computed once before any pixel is rendered: the
/// center, the wheel diameter (image size minus both margins) and the number
/// of concentric rings.
#[derive(Debug, Clone, Copy, PartialEq, Eq, Structural)]
pub struct RenderPixelData {
    pub center_x: u32,
    pub center_y: u32,
    pub wheel_diameter: u32,
    pub ring_count: u32,
}

/// The geometry a definition induces.
pub open spec fn spec_render_pixel_data(definition: ColorWheelDefinition) -> RenderPixelData {
    RenderPixelData {
        center_x: (definition.image_size / 2) as u32,
        center_y: (definition.image_size / 2) as u32,
        wheel_diameter: (definition.image_size - 2 * definition.margin_size) as u32,
        ring_count: definition.pixel_generators@.len() as u32,
    }
}

/// Geometry fit for rendering: it matches the definition, there is at least
/// one ring, every ring is at least one pixel thick, and the image is within
/// the renderer's size limit.
pub open spec fn spec_data_wf(data: RenderPixelData, definition: ColorWheelDefinition) -> bool {
    &&& data == spec_render_pixel_data(definition)
    &&& definition.image_size <= MAX_IMAGE_SIZE
    &&& 2 * definition.margin_size < definition.image_size
    &&& 1 <= data.ring_count
    &&& 2 * data.ring_count <= data.wheel_diameter
}

/// The color the wheel assigns to the pixel at local coordinates `(x, y)`,
/// or `None` where the pixel lies beyond the renderable radius (or exactly
/// on the outermost ring bound, which no ring owns).
#[verifier::opaque]
pub open spec fn spec_render_pixel(
    definition: ColorWheelDefinition,
    data: RenderPixelData,
    x: int,
    y: int,
) -> Option<Pixel> {
    let dx = x - data.center_x;
    let dy = y - data.center_y;
    let n = dx * dx + dy * dy;
    let w = data.wheel_diameter as int;
    if 4 * n > w * w {
        None
    } else {
        match spec_select_ring(n, w, data.ring_count as int) {
            None => None,
            Some(ring) => {
                let angle = Ratio {
                    num: spec_angle_micro_deg(dx, dy) as u64,
                    den: MICRO as u64,
                };
                let varying = Ratio {
                    num: spec_variable_dimension(n, w, data.ring_count as int, ring) as u64,
                    den: MICRO as u64,
                };
                Some(
                    spec_get_pixel_value(
                        definition.pixel_generators@[ring],
                        angle,
                        varying,
                        definition.angle_buckets,
                        definition.distance_buckets,
                    ),
                )
            },
        }
    }
}

/// Law: a pixel whose distance from the wheel center exceeds the renderable
/// radius (half the wheel diameter) is never written; the renderer yields no
/// color for it and the canvas keeps its transparent background there.
pub proof fn lemma_outside_radius_not_written(
    definition: ColorWheelDefinition,
    data: RenderPixelData,
    x: int,
    y: int,
)
    requires
        4 * ((x - data.center_x) * (x - data.center_x) + (y - data.center_y) * (y
            - data.center_y)) > (data.wheel_diameter as int) * (data.wheel_diameter as int),
    ensures
        spec_render_pixel(definition, data, x, y) is None,
{
    reveal(spec_render_pixel);
}

/// Render one pixel of the wheel, in local wheel coordinates.
pub fn render_pixel(
    image_x: u32,
    image_y: u32,
    data: &RenderPixelData,
    definition: &ColorWheelDefinition,
) -> (r: Option<Pixel>)
    requires
        definition.wf(),
        spec_data_wf(*data, *definition),
        image_x < definition.image_size,
        image_y < definition.image_size,
    ensures
        r == spec_render_pixel(*definition, *data, image_x as int, image_y as int),
        r is Some ==> r->Some_0.alpha == OPAQUE,
{
    proof {
        reveal(spec_render_pixel);
    }
    let dx: i64 = image_x as i64 - data.center_x as i64;
    let dy: i64 = image_y as i64 - data.center_y as i64;
    proof {
        assert(dx * dx + dy * dy <= 2199023255552 && dx * dx >= 0 && dy * dy >= 0)
            by (nonlinear_arith)
            requires
                -1048576 <= dx <= 1048576,
                -1048576 <= dy <= 1048576,
        ;
        assert((data.wheel_diameter as int) * (data.wheel_diameter as int)
            <= 1099511627776) by (nonlinear_arith)
            requires
                data.wheel_diameter <= 1048576,
        ;
    }
    let n: u64 = (dx * dx + dy * dy) as u64;
    let w: u64 = data.wheel_diameter as u64;
    if 4 * n > w * w {
        return None;
    }

    let selection = get_pixel_generator_and_variable_dimension(data.ring_count, data.wheel_diameter, n);
    match selection {
        None => None,
        Some(found) => {
            let angle = get_angle_degrees(
                data.center_x as i64,
                data.center_y as i64,
                image_x as i64,
                image_y as i64,
            );
            let angle_ratio = Ratio { num: angle, den: MICRO };
            let generator = &definition.pixel_generators[found.pixel_generator_index];
            let get_pixel = DefaultGetPixel {};
            let pixel = get_pixel.execute(
                generator,
                angle_ratio,
                found.variable_dimension,
                definition.angle_buckets,
                definition.distance_buckets,
            );
            Some(pixel)
        },
    }
}

} // verus!
