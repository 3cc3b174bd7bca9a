//! Rendering one wheel into an offset view of a shared canvas.
//!
//! All configuration errors are detected before any pixel is written: a
//! wheel with no generators renders nothing; a ring thinner than one pixel,
//! a margin swallowing the whole image, an image beyond the size limit, or a
//! canvas region that cannot hold the wheel abort the render with the canvas
//! untouched.

use vstd::prelude::*;

use crate::canvas::Canvas;
use crate::color_wheel_definition::ColorWheelDefinition;
use crate::get_pixel_generator_and_variable_dimension::MAX_IMAGE_SIZE;
use crate::offset_canvas_pixel_writer::OffsetCanvasPixelWriter;
use crate::render_color_wheel_rows::{render_color_wheel_rows, spec_row_rendered, spec_row_ready};
use crate::render_pixel::{spec_render_pixel, spec_render_pixel_data, RenderPixelData};

verus! {

/// The fatal configuration errors of the rendering core.
#[derive(Debug, Clone, Copy, PartialEq, Eq, Structural)]
pub enum RenderError {
    /// The compositor was handed an empty wheel list.
    NoColorWheels,
    /// A wheel's image side exceeds the renderer's size limit.
    ImageTooLarge,
    /// A wheel's rings would be thinner than one pixel (or the margins
    /// swallow the image).
    ImageTooSmall,
    /// The target canvas region cannot hold the wheel.
    CanvasTooSmall,
    /// The composite canvas dimensions do not fit the machine's limits.
    CanvasTooLarge,
    /// Zero dimensions handed to the downscale step.
    InvalidResampleDimensions,
}

/// The configuration error a single wheel definition carries, if any.  A
/// wheel without generators renders nothing and is not an error.
pub open spec fn spec_wheel_error(definition: ColorWheelDefinition) -> Option<RenderError> {
    if definition.pixel_generators@.len() == 0 {
        None
    } else if definition.image_size > MAX_IMAGE_SIZE {
        Some(RenderError::ImageTooLarge)
    } else if 2 * definition.margin_size >= definition.image_size || definition.image_size - 2
        * definition.margin_size < 2 * definition.pixel_generators@.len() {
        Some(RenderError::ImageTooSmall)
    } else {
        None
    }
}

/// Whether rendering a wheel at the given offset succeeds, and with which
/// error it fails.
pub open spec fn spec_render_wheel_outcome(
    definition: ColorWheelDefinition,
    offset_x: int,
    offset_y: int,
    width: int,
    height: int,
) -> Result<(), RenderError> {
    if definition.pixel_generators@.len() == 0 {
        Ok(())
    } else {
        match spec_wheel_error(definition) {
            Some(e) => Err(e),
            None => {
                if offset_x + definition.image_size <= width && offset_y + definition.image_size
                    <= height {
                    Ok(())
                } else {
                    Err(RenderError::CanvasTooSmall)
                }
            },
        }
    }
}

/// What a successful render leaves on the canvas: inside the wheel's square
/// region each pixel either received its rendered color or kept its old
/// value (where the wheel does not reach it), and every pixel outside the
/// region is untouched.
pub open spec fn spec_wheel_rendered_region(
    before: Canvas,
    after: Canvas,
    definition: ColorWheelDefinition,
    offset_x: int,
    offset_y: int,
) -> bool {
    let size = definition.image_size as int;
    let data = spec_render_pixel_data(definition);
    &&& after.wf()
    &&& after.width == before.width
    &&& after.height == before.height
    &&& forall|lx: int, ly: int|
        0 <= lx < size && 0 <= ly < size ==> #[trigger] after.spec_pixel_at(
            offset_x + lx,
            offset_y + ly,
        ) == match spec_render_pixel(definition, data, lx, ly) {
            Some(p) => p,
            None => before.spec_pixel_at(offset_x + lx, offset_y + ly),
        }
    &&& forall|x: int, y: int|
        0 <= x < before.width && 0 <= y < before.height && !(offset_x <= x < offset_x + size
            && offset_y <= y < offset_y + size) ==> #[trigger] after.spec_pixel_at(x, y)
            == before.spec_pixel_at(x, y)
}

/// Render one wheel through an offset view of the canvas.  On any error,
/// and for a wheel without generators, the canvas is untouched.
pub fn render_color_wheel(
    definition: &ColorWheelDefinition,
    canvas_pixel_writer: &mut OffsetCanvasPixelWriter,
) -> (r: Result<(), RenderError>)
    requires
        definition.wf(),
        old(canvas_pixel_writer).canvas_pixel_writer.canvas.wf(),
    ensures
        r == spec_render_wheel_outcome(
            *definition,
            old(canvas_pixel_writer).offset_x as int,
            old(canvas_pixel_writer).offset_y as int,
            old(canvas_pixel_writer).canvas_pixel_writer.canvas.width as int,
            old(canvas_pixel_writer).canvas_pixel_writer.canvas.height as int,
        ),
        final(canvas_pixel_writer).offset_x == old(canvas_pixel_writer).offset_x,
        final(canvas_pixel_writer).offset_y == old(canvas_pixel_writer).offset_y,
        final(canvas_pixel_writer).canvas_pixel_writer.canvas.wf(),
        final(canvas_pixel_writer).canvas_pixel_writer.canvas.width == old(
            canvas_pixel_writer,
        ).canvas_pixel_writer.canvas.width,
        final(canvas_pixel_writer).canvas_pixel_writer.canvas.height == old(
            canvas_pixel_writer,
        ).canvas_pixel_writer.canvas.height,
        r is Err || definition.pixel_generators@.len() == 0 ==> final(canvas_pixel_writer).canvas_pixel_writer.canvas.rows@ == old(
            canvas_pixel_writer,
        ).canvas_pixel_writer.canvas.rows@,
        r is Ok && definition.pixel_generators@.len() > 0 ==> spec_wheel_rendered_region(
            old(canvas_pixel_writer).canvas_pixel_writer.canvas,
            final(canvas_pixel_writer).canvas_pixel_writer.canvas,
            *definition,
            old(canvas_pixel_writer).offset_x as int,
            old(canvas_pixel_writer).offset_y as int,
        ),
{
    let generator_count = definition.pixel_generators.len();
    if generator_count == 0 {
        return Ok(());
    }
    let size = definition.image_size;
    if size > MAX_IMAGE_SIZE {
        return Err(RenderError::ImageTooLarge);
    }
    if (definition.margin_size as u64) * 2 >= size as u64 {
        return Err(RenderError::ImageTooSmall);
    }
    let wheel_diameter = size - 2 * definition.margin_size;
    let ring_count = generator_count as u32;
    if (wheel_diameter as u64) < 2 * (ring_count as u64) {
        return Err(RenderError::ImageTooSmall);
    }
    let width = canvas_pixel_writer.canvas_pixel_writer.canvas.width;
    let height = canvas_pixel_writer.canvas_pixel_writer.canvas.height;
    let offset_x = canvas_pixel_writer.offset_x;
    let offset_y = canvas_pixel_writer.offset_y;
    if (offset_x as u64) + (size as u64) > width as u64 || (offset_y as u64) + (size as u64)
        > height as u64 {
        return Err(RenderError::CanvasTooSmall);
    }

    let data = RenderPixelData {
        center_x: size / 2,
        center_y: size / 2,
        wheel_diameter,
        ring_count,
    };

    let mut rows = canvas_pixel_writer.take_rows();
    proof {
        assert(forall|i: int|
            0 <= i < rows@.len() ==> (#[trigger] rows@[i]).row_pixel_writer.data == old(
                canvas_pixel_writer,
            ).canvas_pixel_writer.canvas.rows@[offset_y + i]);
        assert forall|i: int| 0 <= i < rows@.len() implies spec_row_ready(
            #[trigger] rows@[i],
            *definition,
        ) by {
            assert(rows@[i].row_pixel_writer.data == old(
                canvas_pixel_writer,
            ).canvas_pixel_writer.canvas.rows@[offset_y + i]);
        }
    }
    let ghost pre_rows = rows@;
    render_color_wheel_rows(&mut rows, &data, definition);
    proof {
        assert forall|i: int| 0 <= i < rows@.len() implies (#[trigger] rows@[i]).row_pixel_writer.data@.len()
            == old(canvas_pixel_writer).canvas_pixel_writer.canvas.width * 4 by {
            assert(spec_row_rendered(pre_rows[i], rows@[i], data, *definition));
            assert(pre_rows[i].row_pixel_writer.data == old(
                canvas_pixel_writer,
            ).canvas_pixel_writer.canvas.rows@[offset_y + i]);
        }
    }
    canvas_pixel_writer.put_rows(rows);

    proof {
        lemma_rendered_canvas(
            old(canvas_pixel_writer).canvas_pixel_writer.canvas,
            canvas_pixel_writer.canvas_pixel_writer.canvas,
            *definition,
            data,
            offset_x as int,
            offset_y as int,
            pre_rows,
            rows@,
        );
    }
    Ok(())
}

/// Lift the per-row rendering facts to whole-canvas pixel facts.
proof fn lemma_rendered_canvas(
    before: Canvas,
    after: Canvas,
    definition: ColorWheelDefinition,
    data: RenderPixelData,
    offset_x: int,
    offset_y: int,
    rows_before: Seq<crate::offset_row_pixel_writer::OffsetRowPixelWriter>,
    rows_after: Seq<crate::offset_row_pixel_writer::OffsetRowPixelWriter>,
)
    requires
        before.wf(),
        after.wf(),
        after.width == before.width,
        after.height == before.height,
        data == spec_render_pixel_data(definition),
        offset_x + definition.image_size <= before.width,
        offset_y + definition.image_size <= before.height,
        0 <= offset_x,
        0 <= offset_y,
        rows_before.len() == before.height - offset_y,
        rows_after.len() == rows_before.len(),
        forall|i: int|
            0 <= i < rows_before.len() ==> {
                let r = #[trigger] rows_before[i];
                &&& r.offset_x == offset_x
                &&& r.offset_y == offset_y
                &&& r.row_pixel_writer.row_index == offset_y + i
                &&& r.row_pixel_writer.data == before.rows@[offset_y + i]
            },
        forall|i: int|
            0 <= i < rows_before.len() ==> spec_row_rendered(
                #[trigger] rows_before[i],
                rows_after[i],
                data,
                definition,
            ),
        forall|i: int|
            0 <= i < rows_after.len() ==> after.rows@[offset_y + i] == (#[trigger] rows_after[i]).row_pixel_writer.data,
        forall|y: int| 0 <= y < offset_y ==> #[trigger] after.rows@[y] == before.rows@[y],
    ensures
        spec_wheel_rendered_region(before, after, definition, offset_x, offset_y),
{
    let size = definition.image_size as int;
    assert forall|lx: int, ly: int| 0 <= lx < size && 0 <= ly < size implies #[trigger] after
        .spec_pixel_at(offset_x + lx, offset_y + ly) == match spec_render_pixel(
        definition,
        data,
        lx,
        ly,
    ) {
        Some(p) => p,
        None => before.spec_pixel_at(offset_x + lx, offset_y + ly),
    } by {
        assert(spec_row_rendered(rows_before[ly], rows_after[ly], data, definition));
        assert(rows_before[ly].row_pixel_writer.row_index - rows_before[ly].offset_y == ly);
        assert(after.rows@[offset_y + ly] == rows_after[ly].row_pixel_writer.data);
        assert(before.rows@[offset_y + ly] == rows_before[ly].row_pixel_writer.data);
    }
    assert forall|x: int, y: int|
        0 <= x < before.width && 0 <= y < before.height && !(offset_x <= x < offset_x + size
            && offset_y <= y < offset_y + size) implies #[trigger] after.spec_pixel_at(x, y)
        == before.spec_pixel_at(x, y) by {
        if y >= offset_y {
            let i = y - offset_y;
            assert(spec_row_rendered(rows_before[i], rows_after[i], data, definition));
            assert(rows_before[i].row_pixel_writer.row_index - rows_before[i].offset_y == i);
            assert(after.rows@[y] == rows_after[i].row_pixel_writer.data);
            assert(before.rows@[y] == rows_before[i].row_pixel_writer.data);
            if i < size {
                // Same row, but the column lies outside the wheel's range:
                // those bytes are untouched.
                assert(!(4 * offset_x <= 4 * x < 4 * (offset_x + size)));
                assert(!(4 * offset_x <= 4 * x + 1 < 4 * (offset_x + size)));
                assert(!(4 * offset_x <= 4 * x + 2 < 4 * (offset_x + size)));
                assert(!(4 * offset_x <= 4 * x + 3 < 4 * (offset_x + size)));
            }
        }
    }
}

} // verus!
