//! Compositing: render an ordered list of wheels onto one shared canvas,
//! laid out left to right with uniform spacing, top-aligned.  The canvas is
//! exactly as wide as the wheels plus the spacing between them and as tall
//! as the tallest wheel; pixels no wheel claims stay transparent.

use vstd::prelude::*;

use crate::canvas::spec_transparent;
use crate::canvas_pixel_writer::DefaultCanvasPixelWriter;
use crate::color_wheel_definition::ColorWheelDefinition;
use crate::offset_canvas_pixel_writer::OffsetCanvasPixelWriter;
use crate::pixel::Pixel;
use crate::render_color_wheel::{
    render_color_wheel, spec_wheel_error, RenderError,
};
use crate::render_pixel::{spec_render_pixel, spec_render_pixel_data};

verus! {

/// The x coordinate at which wheel `k` starts: all earlier wheels plus one
/// spacing gap after each.
pub open spec fn spec_offset_x(
    wheels: Seq<ColorWheelDefinition>,
    spacing: int,
    k: int,
) -> int
    decreases k,
{
    if k <= 0 {
        0
    } else {
        spec_offset_x(wheels, spacing, k - 1) + wheels[k - 1].image_size + spacing
    }
}

/// Overall canvas width: the sum of the wheel sizes plus spacing between
/// consecutive wheels.
pub open spec fn spec_total_width(wheels: Seq<ColorWheelDefinition>, spacing: int) -> int {
    if wheels.len() == 0 {
        0
    } else {
        spec_offset_x(wheels, spacing, wheels.len() as int) - spacing
    }
}

/// Overall canvas height: the largest wheel size among the first `k` wheels.
pub open spec fn spec_max_height(wheels: Seq<ColorWheelDefinition>, k: int) -> int
    decreases k,
{
    if k <= 0 {
        0
    } else {
        let rest = spec_max_height(wheels, k - 1);
        if wheels[k - 1].image_size > rest {
            wheels[k - 1].image_size as int
        } else {
            rest
        }
    }
}

/// The first configuration error among the wheels from index `i` on.
pub open spec fn spec_set_error(wheels: Seq<ColorWheelDefinition>, i: int) -> Option<RenderError>
    decreases wheels.len() - i,
{
    if i >= wheels.len() {
        None
    } else {
        match spec_wheel_error(wheels[i]) {
            Some(e) => Some(e),
            None => spec_set_error(wheels, i + 1),
        }
    }
}

/// Whether compositing the whole set succeeds, and with which error it
/// fails: an empty list, the first bad wheel, or a composite canvas beyond
/// the machine's limits.
pub open spec fn spec_render_set_outcome(
    wheels: Seq<ColorWheelDefinition>,
    spacing: int,
) -> Option<RenderError> {
    if wheels.len() == 0 {
        Some(RenderError::NoColorWheels)
    } else {
        match spec_set_error(wheels, 0) {
            Some(e) => Some(e),
            None => {
                if spec_total_width(wheels, spacing) <= u32::MAX && 4 * spec_total_width(
                    wheels,
                    spacing,
                ) <= usize::MAX {
                    None
                } else {
                    Some(RenderError::CanvasTooLarge)
                }
            },
        }
    }
}

/// The color the composite assigns to local coordinates of one wheel:
/// the rendered pixel, or the transparent sentinel where the wheel writes
/// nothing.
pub open spec fn spec_composite_pixel(definition: ColorWheelDefinition, lx: int, ly: int) -> Pixel {
    if definition.pixel_generators@.len() == 0 {
        spec_transparent()
    } else {
        match spec_render_pixel(definition, spec_render_pixel_data(definition), lx, ly) {
            Some(p) => p,
            None => spec_transparent(),
        }
    }
}

/// `(x, y)` lies in the square region wheel `k` occupies on the canvas.
pub open spec fn spec_in_wheel_region(
    wheels: Seq<ColorWheelDefinition>,
    spacing: int,
    k: int,
    x: int,
    y: int,
) -> bool {
    &&& spec_offset_x(wheels, spacing, k) <= x < spec_offset_x(wheels, spacing, k)
        + wheels[k].image_size
    &&& 0 <= y < wheels[k].image_size
}

/// `(x, y)` lies outside the region wheel `k` occupies.
pub open spec fn spec_outside_wheel_region(
    wheels: Seq<ColorWheelDefinition>,
    spacing: int,
    k: int,
    x: int,
    y: int,
) -> bool {
    !spec_in_wheel_region(wheels, spacing, k, x, y)
}

/// `(x, y)` lies outside the regions of all wheels before `upto`.
pub open spec fn spec_uncovered(
    wheels: Seq<ColorWheelDefinition>,
    spacing: int,
    upto: int,
    x: int,
    y: int,
) -> bool {
    forall|j: int| 0 <= j < upto ==> spec_outside_wheel_region(wheels, spacing, j, x, y)
}

/// Offsets grow with the index: a later wheel starts at or after the end of
/// an earlier one.
proof fn lemma_offset_monotone(wheels: Seq<ColorWheelDefinition>, spacing: int, j: int, k: int)
    requires
        0 <= j <= k,
        spacing >= 0,
    ensures
        spec_offset_x(wheels, spacing, j) <= spec_offset_x(wheels, spacing, k),
        j < k ==> spec_offset_x(wheels, spacing, j) + wheels[j].image_size <= spec_offset_x(
            wheels,
            spacing,
            k,
        ),
    decreases k - j,
{
    if j < k {
        lemma_offset_monotone(wheels, spacing, j + 1, k);
    }
}

/// Every wheel's height is within the maximum over any longer prefix.
proof fn lemma_max_height_bound(wheels: Seq<ColorWheelDefinition>, j: int, k: int)
    requires
        0 <= j < k,
    ensures
        wheels[j].image_size <= spec_max_height(wheels, k),
        spec_max_height(wheels, k) >= 0,
    decreases k,
{
    if j + 1 < k {
        lemma_max_height_bound(wheels, j, k - 1);
    }
}

/// The per-wheel validity checks, mirrored from the single-wheel renderer.
fn wheel_error(definition: &ColorWheelDefinition) -> (r: Option<RenderError>)
    ensures
        r == spec_wheel_error(*definition),
{
    if definition.pixel_generators.len() == 0 {
        return None;
    }
    let size = definition.image_size;
    if size > crate::get_pixel_generator_and_variable_dimension::MAX_IMAGE_SIZE {
        return Some(RenderError::ImageTooLarge);
    }
    if (definition.margin_size as u64) * 2 >= size as u64 {
        return Some(RenderError::ImageTooSmall);
    }
    let diameter = size - 2 * definition.margin_size;
    if (diameter as u128) < 2 * (definition.pixel_generators.len() as u128) {
        return Some(RenderError::ImageTooSmall);
    }
    None
}

/// Render every wheel onto one shared canvas, left to right with the given
/// spacing, top-aligned.  Fails, before any pixel is written, on an empty
/// wheel list, on any invalid wheel, or on a composite canvas beyond the
/// machine's limits.
pub fn render_color_wheel_set(color_wheels: &Vec<ColorWheelDefinition>, spacing: u32) -> (r: Result<
    DefaultCanvasPixelWriter,
    RenderError,
>)
    requires
        forall|i: int| 0 <= i < color_wheels@.len() ==> (#[trigger] color_wheels@[i]).wf(),
    ensures
        match spec_render_set_outcome(color_wheels@, spacing as int) {
            Some(e) => r is Err && r->Err_0 == e,
            None => {
                &&& r is Ok
                &&& r->Ok_0.canvas.wf()
                &&& r->Ok_0.canvas.width == spec_total_width(color_wheels@, spacing as int)
                &&& r->Ok_0.canvas.height == spec_max_height(
                    color_wheels@,
                    color_wheels@.len() as int,
                )
                &&& forall|k: int, lx: int, ly: int|
                    0 <= k < color_wheels@.len() && 0 <= lx < color_wheels@[k].image_size && 0 <= ly
                        < color_wheels@[k].image_size ==> #[trigger] r->Ok_0.canvas.spec_pixel_at(
                        spec_offset_x(color_wheels@, spacing as int, k) + lx,
                        ly,
                    ) == spec_composite_pixel(color_wheels@[k], lx, ly)
                &&& forall|x: int, y: int|
                    0 <= x < r->Ok_0.canvas.width && 0 <= y < r->Ok_0.canvas.height
                        && spec_uncovered(
                        color_wheels@,
                        spacing as int,
                        color_wheels@.len() as int,
                        x,
                        y,
                    ) ==> #[trigger] r->Ok_0.canvas.spec_pixel_at(x, y) == spec_transparent()
            },
        },
{
    let wheel_count = color_wheels.len();
    if wheel_count == 0 {
        return Err(RenderError::NoColorWheels);
    }

    // Validate every wheel before any pixel is written.
    let mut k: usize = 0;
    while k < wheel_count
        invariant
            wheel_count == color_wheels@.len(),
            k <= wheel_count,
            spec_set_error(color_wheels@, 0) == spec_set_error(color_wheels@, k as int),
        decreases wheel_count - k,
    {
        match wheel_error(&color_wheels[k]) {
            Some(e) => {
                return Err(e);
            },
            None => {},
        }
        k = k + 1;
    }

    // Compute the composite dimensions, guarding the machine limits.
    let mut offset: u64 = 0;
    let mut max_height: u32 = 0;
    let mut k: usize = 0;
    while k < wheel_count
        invariant
            wheel_count == color_wheels@.len(),
            wheel_count >= 1,
            spec_set_error(color_wheels@, 0) is None,
            k <= wheel_count,
            offset == spec_offset_x(color_wheels@, spacing as int, k as int),
            k > 0 ==> offset - spacing <= u32::MAX,
            k > 0 ==> offset >= spacing,
            max_height == spec_max_height(color_wheels@, k as int),
            offset <= 0x300000000,
        decreases wheel_count - k,
    {
        let size = color_wheels[k].image_size;
        offset = offset + (size as u64) + (spacing as u64);
        if offset - (spacing as u64) > u32::MAX as u64 {
            proof {
                lemma_offset_monotone(
                    color_wheels@,
                    spacing as int,
                    k as int + 1,
                    color_wheels@.len() as int,
                );
            }
            return Err(RenderError::CanvasTooLarge);
        }
        if size > max_height {
            max_height = size;
        }
        k = k + 1;
    }
    let width = (offset - (spacing as u64)) as u32;
    if 4 * (width as u64) > usize::MAX as u64 {
        return Err(RenderError::CanvasTooLarge);
    }

    let mut pixel_writer = DefaultCanvasPixelWriter::new(width, max_height);

    let mut offset_x: u64 = 0;
    let mut k: usize = 0;
    while k < wheel_count
        invariant
            wheel_count == color_wheels@.len(),
            forall|i: int| 0 <= i < color_wheels@.len() ==> (#[trigger] color_wheels@[i]).wf(),
            spec_set_error(color_wheels@, 0) is None,
            k <= wheel_count,
            offset_x == spec_offset_x(color_wheels@, spacing as int, k as int),
            width == spec_total_width(color_wheels@, spacing as int),
            max_height == spec_max_height(color_wheels@, wheel_count as int),
            pixel_writer.canvas.wf(),
            pixel_writer.canvas.width == width,
            pixel_writer.canvas.height == max_height,
            forall|j: int, lx: int, ly: int|
                0 <= j < k && 0 <= lx < color_wheels@[j].image_size && 0 <= ly
                    < color_wheels@[j].image_size ==> #[trigger] pixel_writer.canvas.spec_pixel_at(
                    spec_offset_x(color_wheels@, spacing as int, j) + lx,
                    ly,
                ) == spec_composite_pixel(color_wheels@[j], lx, ly),
            forall|x: int, y: int|
                0 <= x < width && 0 <= y < max_height && spec_uncovered(
                    color_wheels@,
                    spacing as int,
                    k as int,
                    x,
                    y,
                ) ==> #[trigger] pixel_writer.canvas.spec_pixel_at(x, y) == spec_transparent(),
        decreases wheel_count - k,
    {
        proof {
            lemma_set_step_bounds(color_wheels@, spacing as int, k as int, wheel_count as int);
        }
        let definition = &color_wheels[k];
        let mut offset_writer = OffsetCanvasPixelWriter {
            canvas_pixel_writer: pixel_writer,
            offset_x: offset_x as u32,
            offset_y: 0,
        };
        let ghost canvas_before = offset_writer.canvas_pixel_writer.canvas;
        let outcome = render_color_wheel(definition, &mut offset_writer);
        pixel_writer = offset_writer.canvas_pixel_writer;
        match outcome {
            Ok(_) => {},
            Err(e) => {
                proof {
                    assert(spec_wheel_error(color_wheels@[k as int]) is None) by {
                        lemma_set_error_none(color_wheels@, 0, k as int);
                    };
                    assert(false);
                }
                return Err(e);
            },
        }
        proof {
            assert forall|j: int| 0 <= j <= k implies (#[trigger] color_wheels@[j]).image_size
                <= canvas_before.height by {
                lemma_max_height_bound(color_wheels@, j, wheel_count as int);
            }
            lemma_set_region_step(
                color_wheels@,
                spacing as int,
                k as int,
                canvas_before,
                pixel_writer.canvas,
            );
        }
        offset_x = offset_x + (definition.image_size as u64) + (spacing as u64);
        k = k + 1;
    }

    Ok(pixel_writer)
}

/// Wheel `k` fits the composite canvas: its region ends before the total
/// width and its height is within the maximum.
proof fn lemma_set_step_bounds(
    wheels: Seq<ColorWheelDefinition>,
    spacing: int,
    k: int,
    count: int,
)
    requires
        0 <= k < count,
        count == wheels.len(),
        spacing >= 0,
    ensures
        spec_offset_x(wheels, spacing, k) + wheels[k].image_size <= spec_total_width(
            wheels,
            spacing,
        ),
        wheels[k].image_size <= spec_max_height(wheels, count),
        spec_offset_x(wheels, spacing, k) >= 0,
{
    lemma_offset_monotone(wheels, spacing, 0, k);
    lemma_offset_monotone(wheels, spacing, k + 1, count);
    lemma_max_height_bound(wheels, k, count);
}

/// If no wheel up to `i` is in error, wheel `i` itself is not.
proof fn lemma_set_error_none(wheels: Seq<ColorWheelDefinition>, i: int, k: int)
    requires
        0 <= i <= k < wheels.len(),
        spec_set_error(wheels, i) is None,
    ensures
        spec_wheel_error(wheels[k]) is None,
    decreases k - i,
{
    if i < k {
        lemma_set_error_none(wheels, i + 1, k);
    }
}

/// One compositing step: after wheel `k` renders into its region, the
/// regions of wheels `0..=k` hold their composite pixels and everything
/// else stays transparent.
proof fn lemma_set_region_step(
    wheels: Seq<ColorWheelDefinition>,
    spacing: int,
    k: int,
    before: crate::canvas::Canvas,
    after: crate::canvas::Canvas,
)
    requires
        0 <= k < wheels.len(),
        spacing >= 0,
        spec_set_error(wheels, 0) is None,
        before.wf(),
        after.wf(),
        after.width == before.width,
        after.height == before.height,
        before.width == spec_total_width(wheels, spacing),
        spec_offset_x(wheels, spacing, k) + wheels[k].image_size <= before.width,
        forall|j: int| 0 <= j <= k ==> (#[trigger] wheels[j]).image_size <= before.height,
        forall|j: int, lx: int, ly: int|
            0 <= j < k && 0 <= lx < wheels[j].image_size && 0 <= ly < wheels[j].image_size
                ==> #[trigger] before.spec_pixel_at(spec_offset_x(wheels, spacing, j) + lx, ly)
                == spec_composite_pixel(wheels[j], lx, ly),
        forall|x: int, y: int|
            0 <= x < before.width && 0 <= y < before.height && spec_uncovered(
                wheels,
                spacing,
                k,
                x,
                y,
            ) ==> #[trigger] before.spec_pixel_at(x, y) == spec_transparent(),
        wheels[k].pixel_generators@.len() == 0 ==> after.rows@ == before.rows@,
        wheels[k].pixel_generators@.len() > 0
            ==> crate::render_color_wheel::spec_wheel_rendered_region(
            before,
            after,
            wheels[k],
            spec_offset_x(wheels, spacing, k),
            0,
        ),
    ensures
        forall|j: int, lx: int, ly: int|
            0 <= j < k + 1 && 0 <= lx < wheels[j].image_size && 0 <= ly < wheels[j].image_size
                ==> #[trigger] after.spec_pixel_at(spec_offset_x(wheels, spacing, j) + lx, ly)
                == spec_composite_pixel(wheels[j], lx, ly),
        forall|x: int, y: int|
            0 <= x < after.width && 0 <= y < after.height && spec_uncovered(
                wheels,
                spacing,
                k + 1,
                x,
                y,
            ) ==> #[trigger] after.spec_pixel_at(x, y) == spec_transparent(),
{
    let off_k = spec_offset_x(wheels, spacing, k);
    let size_k = wheels[k].image_size as int;
    if wheels[k].pixel_generators@.len() == 0 {
        assert(forall|x: int, y: int|
            #[trigger] after.spec_pixel_at(x, y) == before.spec_pixel_at(x, y)) by {
            assert(after.rows@ == before.rows@);
        };
        assert forall|j: int, lx: int, ly: int|
            0 <= j < k + 1 && 0 <= lx < wheels[j].image_size && 0 <= ly
                < wheels[j].image_size implies #[trigger] after.spec_pixel_at(
            spec_offset_x(wheels, spacing, j) + lx,
            ly,
        ) == spec_composite_pixel(wheels[j], lx, ly) by {
            if j == k {
                let px = off_k + lx;
                lemma_offset_monotone(wheels, spacing, 0, k);
                assert(spec_uncovered(wheels, spacing, k, px, ly)) by {
                    assert forall|jj: int| 0 <= jj < k implies spec_outside_wheel_region(
                        wheels,
                        spacing,
                        jj,
                        px,
                        ly,
                    ) by {
                        lemma_offset_monotone(wheels, spacing, jj + 1, k);
                    }
                };
                assert(before.spec_pixel_at(px, ly) == spec_transparent());
            }
        }
        assert forall|x: int, y: int|
            0 <= x < after.width && 0 <= y < after.height && spec_uncovered(
                wheels,
                spacing,
                k + 1,
                x,
                y,
            ) implies #[trigger] after.spec_pixel_at(x, y) == spec_transparent() by {
            assert(spec_uncovered(wheels, spacing, k, x, y));
        }
    } else {
        assert forall|j: int, lx: int, ly: int|
            0 <= j < k + 1 && 0 <= lx < wheels[j].image_size && 0 <= ly
                < wheels[j].image_size implies #[trigger] after.spec_pixel_at(
            spec_offset_x(wheels, spacing, j) + lx,
            ly,
        ) == spec_composite_pixel(wheels[j], lx, ly) by {
            if j < k {
                // Wheel j's region lies strictly left of wheel k's region.
                lemma_offset_monotone(wheels, spacing, j + 1, k);
                lemma_offset_monotone(wheels, spacing, 0, j);
                assert(after.spec_pixel_at(spec_offset_x(wheels, spacing, j) + lx, ly)
                    == before.spec_pixel_at(spec_offset_x(wheels, spacing, j) + lx, ly));
            } else {
                let px = off_k + lx;
                lemma_offset_monotone(wheels, spacing, 0, k);
                assert(after.spec_pixel_at(off_k + lx, 0 + ly) == after.spec_pixel_at(
                    off_k + lx,
                    ly,
                ));
                assert(spec_uncovered(wheels, spacing, k, px, ly)) by {
                    assert forall|jj: int| 0 <= jj < k implies spec_outside_wheel_region(
                        wheels,
                        spacing,
                        jj,
                        px,
                        ly,
                    ) by {
                        lemma_offset_monotone(wheels, spacing, jj + 1, k);
                    }
                };
                assert(before.spec_pixel_at(px, ly) == spec_transparent());
            }
        }
        assert forall|x: int, y: int|
            0 <= x < after.width && 0 <= y < after.height && spec_uncovered(
                wheels,
                spacing,
                k + 1,
                x,
                y,
            ) implies #[trigger] after.spec_pixel_at(x, y) == spec_transparent() by {
            assert(spec_outside_wheel_region(wheels, spacing, k, x, y));
            assert(spec_uncovered(wheels, spacing, k, x, y));
            assert(after.spec_pixel_at(x, y) == before.spec_pixel_at(x, y));
        }
    }
}

} // verus!
