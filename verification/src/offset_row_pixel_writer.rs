//! A row writer that adds a fixed offset to every write before delegating,
//! so a wheel renders in its own local coordinates wherever it sits on the
//! shared canvas.

use vstd::prelude::*;

use crate::pixel::Pixel;
use crate::row_pixel_writer::DefaultRowPixelWriter;

verus! {

pub struct OffsetRowPixelWriter {
    pub row_pixel_writer: DefaultRowPixelWriter,
    pub offset_x: u32,
    pub offset_y: u32,
}

impl OffsetRowPixelWriter {
    /// Write the pixel at local coordinates `(x, y)`, which lands at
    /// `(x + offset_x, y + offset_y)` on the underlying canvas row.
    pub fn write_pixel(&mut self, x: u32, y: u32, pixel: Pixel)
        requires
            y + old(self).offset_y == old(self).row_pixel_writer.row_index,
            x + old(self).offset_x <= u32::MAX,
            4 * (x + old(self).offset_x) + 4 <= old(self).row_pixel_writer.data@.len(),
        ensures
            final(self).offset_x == old(self).offset_x,
            final(self).offset_y == old(self).offset_y,
            final(self).row_pixel_writer.row_index == old(self).row_pixel_writer.row_index,
            final(self).row_pixel_writer.data@.len() == old(self).row_pixel_writer.data@.len(),
            final(self).row_pixel_writer.data@ == old(self).row_pixel_writer.data@.update(
                4 * (x + old(self).offset_x),
                pixel.red,
            ).update(4 * (x + old(self).offset_x) + 1, pixel.green).update(
                4 * (x + old(self).offset_x) + 2,
                pixel.blue,
            ).update(4 * (x + old(self).offset_x) + 3, pixel.alpha),
    {
        self.row_pixel_writer.write_pixel(x + self.offset_x, y + self.offset_y, pixel);
    }
}

} // verus!
