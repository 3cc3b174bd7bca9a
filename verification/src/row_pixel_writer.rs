//! One image row as an independently owned write target.  Rows partition the
//! canvas, so handing each row to exactly one writer rules out aliasing
//! between parallel workers by ownership alone.

use vstd::prelude::*;

use crate::pixel::{Pixel, BYTES_PER_PIXEL};

verus! {

/// Write access to single pixels of one image row.
pub trait RowPixelWriter {
    fn write_pixel(&mut self, x: u32, y: u32, pixel: Pixel);
}

/// Owns the bytes of image row `row_index`.
#[derive(Debug)]
pub struct DefaultRowPixelWriter {
    pub row_index: u32,
    pub data: Vec<u8>,
}

impl DefaultRowPixelWriter {
    /// The pixel stored at column `x` of this row.
    pub open spec fn spec_pixel_at(self, x: int) -> Pixel {
        Pixel {
            red: self.data@[4 * x],
            green: self.data@[4 * x + 1],
            blue: self.data@[4 * x + 2],
            alpha: self.data@[4 * x + 3],
        }
    }

    /// Write one pixel at `(x, y)`.  The row accepts writes only for its own
    /// row index and within its width.
    pub fn write_pixel(&mut self, x: u32, y: u32, pixel: Pixel)
        requires
            y == old(self).row_index,
            4 * x + 4 <= old(self).data@.len(),
        ensures
            final(self).row_index == old(self).row_index,
            final(self).data@.len() == old(self).data@.len(),
            final(self).data@ == old(self).data@.update(4 * x as int, pixel.red).update(
                4 * x as int + 1,
                pixel.green,
            ).update(4 * x as int + 2, pixel.blue).update(4 * x as int + 3, pixel.alpha),
    {
        let row_len = self.data.len();
        let base: usize = BYTES_PER_PIXEL * (x as usize);
        self.data[base] = pixel.red;
        self.data[base + 1] = pixel.green;
        self.data[base + 2] = pixel.blue;
        self.data[base + 3] = pixel.alpha;
    }
}

} // verus!
