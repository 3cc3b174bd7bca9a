//! Row rasterization.  Each checked-out canvas row is rendered by exactly
//! one worker; rows own disjoint buffers, so workers share no mutable state.
//! Row order is irrelevant: a row's result depends only on its own index,
//! the geometry and the definition, all read-only.

use vstd::prelude::*;

use rayon::iter::IntoParallelRefMutIterator;
use rayon::iter::ParallelIterator;

use crate::color_wheel_definition::ColorWheelDefinition;
use crate::offset_row_pixel_writer::OffsetRowPixelWriter;
use crate::render_pixel::{render_pixel, spec_data_wf, spec_render_pixel, RenderPixelData};

verus! {

/// What rendering does to one checked-out row: rows at or beyond the wheel's
/// height are untouched; within the wheel, each column either receives its
/// rendered pixel or keeps its old bytes, and bytes outside the wheel's
/// column range are untouched.
pub open spec fn spec_row_rendered(
    before: OffsetRowPixelWriter,
    after: OffsetRowPixelWriter,
    data: RenderPixelData,
    definition: ColorWheelDefinition,
) -> bool {
    let ox = before.offset_x as int;
    let y = before.row_pixel_writer.row_index - before.offset_y;
    &&& after.offset_x == before.offset_x
    &&& after.offset_y == before.offset_y
    &&& after.row_pixel_writer.row_index == before.row_pixel_writer.row_index
    &&& after.row_pixel_writer.data@.len() == before.row_pixel_writer.data@.len()
    &&& if y >= definition.image_size {
        after.row_pixel_writer.data@ == before.row_pixel_writer.data@
    } else {
        &&& forall|x: int|
            0 <= x < definition.image_size ==> match #[trigger] spec_render_pixel(
                definition,
                data,
                x,
                y,
            ) {
                Some(p) => after.row_pixel_writer.spec_pixel_at(ox + x) == p,
                None => after.row_pixel_writer.spec_pixel_at(ox + x)
                    == before.row_pixel_writer.spec_pixel_at(ox + x),
            }
        &&& forall|j: int|
            0 <= j < before.row_pixel_writer.data@.len() && !(4 * ox <= j < 4 * (ox
                + definition.image_size)) ==> after.row_pixel_writer.data@[j]
                == before.row_pixel_writer.data@[j]
    }
}

/// The requirements one row must meet before rendering: it lies at or below
/// the wheel's vertical offset and is wide enough for the wheel's columns.
pub open spec fn spec_row_ready(
    row: OffsetRowPixelWriter,
    definition: ColorWheelDefinition,
) -> bool {
    &&& row.offset_y <= row.row_pixel_writer.row_index
    &&& row.offset_x + definition.image_size <= u32::MAX
    &&& 4 * (row.offset_x + definition.image_size) <= row.row_pixel_writer.data@.len()
}

/// Render every pixel of one row of the wheel.  Rows outside the wheel's
/// vertical range are left untouched.
pub fn render_color_wheel_row(
    row: &mut OffsetRowPixelWriter,
    data: &RenderPixelData,
    definition: &ColorWheelDefinition,
)
    requires
        definition.wf(),
        spec_data_wf(*data, *definition),
        spec_row_ready(*old(row), *definition),
    ensures
        spec_row_rendered(*old(row), *final(row), *data, *definition),
{
    let local_y_wide: u32 = row.row_pixel_writer.row_index - row.offset_y;
    if local_y_wide >= definition.image_size {
        return ;
    }
    let y: u32 = local_y_wide;
    let mut x: u32 = 0;
    while x < definition.image_size
        invariant
            definition.wf(),
            spec_data_wf(*data, *definition),
            spec_row_ready(*old(row), *definition),
            x <= definition.image_size,
            y == old(row).row_pixel_writer.row_index - old(row).offset_y,
            y < definition.image_size,
            row.offset_x == old(row).offset_x,
            row.offset_y == old(row).offset_y,
            row.row_pixel_writer.row_index == old(row).row_pixel_writer.row_index,
            row.row_pixel_writer.data@.len() == old(row).row_pixel_writer.data@.len(),
            forall|x2: int|
                0 <= x2 < x ==> match #[trigger] spec_render_pixel(
                    *definition,
                    *data,
                    x2,
                    y as int,
                ) {
                    Some(p) => row.row_pixel_writer.spec_pixel_at(old(row).offset_x + x2) == p,
                    None => row.row_pixel_writer.spec_pixel_at(old(row).offset_x + x2) == old(
                        row,
                    ).row_pixel_writer.spec_pixel_at(old(row).offset_x + x2),
                },
            forall|j: int|
                0 <= j < old(row).row_pixel_writer.data@.len() && !(4 * old(row).offset_x <= j < 4
                    * (old(row).offset_x + x)) ==> row.row_pixel_writer.data@[j] == old(
                    row,
                ).row_pixel_writer.data@[j],
        decreases definition.image_size - x,
    {
        match render_pixel(x, y, data, definition) {
            Some(pixel) => {
                row.write_pixel(x, y, pixel);
            },
            None => {},
        }
        x = x + 1;
    }
}

/// Relies on rayon's `par_iter_mut().for_each`: the closure is applied to
/// each element of the vector exactly once (in some order, possibly on many
/// threads), and nothing else touches the elements.  Each call renders one
/// row through the verified row renderer.
#[verifier::external_body]
fn render_rows_in_parallel(
    rows: &mut Vec<OffsetRowPixelWriter>,
    data: &RenderPixelData,
    definition: &ColorWheelDefinition,
)
    requires
        definition.wf(),
        spec_data_wf(*data, *definition),
        forall|i: int|
            0 <= i < old(rows)@.len() ==> spec_row_ready(#[trigger] old(rows)@[i], *definition),
    ensures
        final(rows)@.len() == old(rows)@.len(),
        forall|i: int|
            0 <= i < old(rows)@.len() ==> spec_row_rendered(
                #[trigger] old(rows)@[i],
                final(rows)@[i],
                *data,
                *definition,
            ),
{
    rows.par_iter_mut().for_each(|row| render_color_wheel_row(row, data, definition));
}

/// Render a wheel into a set of checked-out rows, one parallel worker per
/// row.
pub fn render_color_wheel_rows(
    rows: &mut Vec<OffsetRowPixelWriter>,
    data: &RenderPixelData,
    definition: &ColorWheelDefinition,
)
    requires
        definition.wf(),
        spec_data_wf(*data, *definition),
        forall|i: int|
            0 <= i < old(rows)@.len() ==> spec_row_ready(#[trigger] old(rows)@[i], *definition),
    ensures
        final(rows)@.len() == old(rows)@.len(),
        forall|i: int|
            0 <= i < old(rows)@.len() ==> spec_row_rendered(
                #[trigger] old(rows)@[i],
                final(rows)@[i],
                *data,
                *definition,
            ),
{
    render_rows_in_parallel(rows, data, definition);
}

} // verus!
