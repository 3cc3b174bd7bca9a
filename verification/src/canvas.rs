//! The canvas: a width x height buffer of RGBA bytes, stored as one row of
//! bytes per image row so that whole rows can be handed to independent
//! writers.  Every pixel starts out as the transparent sentinel.  Access to
//! a coordinate outside the canvas is a programming error and is excluded
//! by contract.

use vstd::prelude::*;

use crate::pixel::{Pixel, BYTES_PER_PIXEL, TRANSPARENT};

verus! {

/// The transparent pixel value, as a specification constant.
pub open spec fn spec_transparent() -> Pixel {
    Pixel { red: 0, green: 0, blue: 0, alpha: TRANSPARENT }
}

#[derive(Debug, Clone)]
pub struct Canvas {
    pub width: u32,
    pub height: u32,
    pub rows: Vec<Vec<u8>>,
}

impl Canvas {
    /// Well-formed: one byte row per image row, each of exactly
    /// `width * 4` bytes.
    pub open spec fn wf(self) -> bool {
        &&& 4 * self.width <= usize::MAX
        &&& self.rows@.len() == self.height
        &&& forall|y: int|
            0 <= y < self.height ==> (#[trigger] self.rows@[y])@.len() == self.width * 4
    }

    /// The pixel stored at `(x, y)`.
    pub open spec fn spec_pixel_at(self, x: int, y: int) -> Pixel {
        let row = self.rows@[y]@;
        Pixel {
            red: row[4 * x],
            green: row[4 * x + 1],
            blue: row[4 * x + 2],
            alpha: row[4 * x + 3],
        }
    }

    /// Every pixel of the canvas is the transparent sentinel.
    pub open spec fn spec_all_transparent(self) -> bool {
        forall|x: int, y: int|
            0 <= x < self.width && 0 <= y < self.height ==> self.spec_pixel_at(x, y)
                == spec_transparent()
    }

    /// A fresh canvas with every pixel transparent.
    pub fn new(width: u32, height: u32) -> (r: Canvas)
        requires
            4 * width <= usize::MAX,
        ensures
            r.wf(),
            r.width == width,
            r.height == height,
            r.spec_all_transparent(),
    {
        let row_bytes: usize = BYTES_PER_PIXEL * (width as usize);
        let mut rows: Vec<Vec<u8>> = Vec::new();
        let mut y: u32 = 0;
        while y < height
            invariant
                y <= height,
                rows@.len() == y,
                row_bytes == 4 * width,
                forall|i: int| 0 <= i < y ==> (#[trigger] rows@[i])@.len() == width * 4,
                forall|i: int, j: int|
                    0 <= i < y && 0 <= j < width * 4 ==> (#[trigger] rows@[i]@[j]) == TRANSPARENT,
            decreases height - y,
        {
            let row: Vec<u8> = vec![TRANSPARENT; row_bytes];
            rows.push(row);
            y = y + 1;
        }
        Canvas { width, height, rows }
    }

    pub fn width(&self) -> (r: u32)
        ensures
            r == self.width,
    {
        self.width
    }

    pub fn height(&self) -> (r: u32)
        ensures
            r == self.height,
    {
        self.height
    }

    /// Read the pixel at `(x, y)`.
    pub fn get_pixel(&self, x: u32, y: u32) -> (r: Pixel)
        requires
            self.wf(),
            x < self.width,
            y < self.height,
        ensures
            r == self.spec_pixel_at(x as int, y as int),
    {
        let row = &self.rows[y as usize];
        let row_len = row.len();
        let base: usize = BYTES_PER_PIXEL * (x as usize);
        Pixel { red: row[base], green: row[base + 1], blue: row[base + 2], alpha: row[base + 3] }
    }

    /// Overwrite the pixel at `(x, y)`; every other pixel is untouched.
    pub fn set_pixel(&mut self, x: u32, y: u32, pixel: Pixel)
        requires
            old(self).wf(),
            x < old(self).width,
            y < old(self).height,
        ensures
            final(self).wf(),
            final(self).width == old(self).width,
            final(self).height == old(self).height,
            final(self).spec_pixel_at(x as int, y as int) == pixel,
            forall|x2: int, y2: int|
                0 <= x2 < old(self).width && 0 <= y2 < old(self).height && !(x2 == x && y2 == y)
                    ==> final(self).spec_pixel_at(x2, y2) == old(self).spec_pixel_at(x2, y2),
            forall|y2: int|
                0 <= y2 < old(self).height && y2 != y ==> final(self).rows@[y2] == old(
                    self,
                ).rows@[y2],
    {
        let row = &mut self.rows[y as usize];
        let row_len = row.len();
        let base: usize = BYTES_PER_PIXEL * (x as usize);
        row[base] = pixel.red;
        row[base + 1] = pixel.green;
        row[base + 2] = pixel.blue;
        row[base + 3] = pixel.alpha;
    }

    /// All pixels in row-major order.
    pub fn iter_pixels(&self) -> (r: Vec<Pixel>)
        requires
            self.wf(),
        ensures
            r@.len() == (self.width as int) * (self.height as int),
            forall|x: int, y: int|
                0 <= x < self.width && 0 <= y < self.height ==> r@[y * self.width + x]
                    == self.spec_pixel_at(x, y),
    {
        let mut result: Vec<Pixel> = Vec::new();
        let mut y: u32 = 0;
        proof {
            assert((self.width as int) * (self.height as int) >= 0) by (nonlinear_arith)
                requires
                    self.width >= 0,
                    self.height >= 0,
            ;
        }
        while y < self.height
            invariant
                self.wf(),
                y <= self.height,
                result@.len() == (y as int) * (self.width as int),
                result@.len() <= (self.width as int) * (self.height as int),
                forall|x2: int, y2: int|
                    0 <= x2 < self.width && 0 <= y2 < y ==> result@[y2 * self.width + x2]
                        == self.spec_pixel_at(x2, y2),
            decreases self.height - y,
        {
            proof {
                lemma_row_major_monotone(y as int, self.height as int, self.width as int);
            }
            let mut x: u32 = 0;
            while x < self.width
                invariant
                    self.wf(),
                    y < self.height,
                    x <= self.width,
                    result@.len() == (y as int) * (self.width as int) + x,
                    forall|x2: int, y2: int|
                        0 <= x2 < self.width && 0 <= y2 < y ==> result@[y2 * self.width + x2]
                            == self.spec_pixel_at(x2, y2),
                    forall|x2: int|
                        0 <= x2 < x ==> result@[(y as int) * self.width + x2]
                            == self.spec_pixel_at(x2, y as int),
                decreases self.width - x,
            {
                let p = self.get_pixel(x, y);
                result.push(p);
                proof {
                    lemma_row_major_below(y as int, self.width as int, x as int);
                    assert forall|x2: int, y2: int|
                        0 <= x2 < self.width && 0 <= y2 < y implies result@[y2 * self.width + x2]
                        == self.spec_pixel_at(x2, y2) by {
                        lemma_row_major_below(y2, self.width as int, x2);
                        vstd::arithmetic::mul::lemma_mul_inequality(
                            y2 + 1,
                            y as int,
                            self.width as int,
                        );
                    }
                }
                x = x + 1;
            }
            proof {
                assert((y as int + 1) * (self.width as int) == (y as int) * (self.width as int)
                    + self.width) by (nonlinear_arith);
                lemma_row_major_monotone(y as int, self.height as int, self.width as int);
            }
            y = y + 1;
        }
        proof {
            assert((self.height as int) * (self.width as int) == (self.width as int) * (
            self.height as int)) by (nonlinear_arith);
        }
        result
    }

    /// A copy of the raw bytes, row-major, four bytes per pixel.
    pub fn data(&self) -> (r: Vec<u8>)
        requires
            self.wf(),
        ensures
            r@.len() == (self.width as int) * (self.height as int) * 4,
            forall|y: int, j: int|
                0 <= y < self.height && 0 <= j < self.width * 4 ==> r@[y * (self.width * 4) + j]
                    == self.rows@[y]@[j],
    {
        let row_bytes: usize = BYTES_PER_PIXEL * (self.width as usize);
        let mut result: Vec<u8> = Vec::new();
        let mut y: u32 = 0;
        while y < self.height
            invariant
                self.wf(),
                y <= self.height,
                row_bytes == self.width * 4,
                result@.len() == (y as int) * (self.width as int * 4),
                forall|y2: int, j: int|
                    0 <= y2 < y && 0 <= j < self.width * 4 ==> result@[y2 * (self.width * 4) + j]
                        == self.rows@[y2]@[j],
            decreases self.height - y,
        {
            let row = &self.rows[y as usize];
            let mut j: usize = 0;
            while j < row_bytes
                invariant
                    self.wf(),
                    y < self.height,
                    row == self.rows@[y as int],
                    row_bytes == self.width * 4,
                    j <= row_bytes,
                    result@.len() == (y as int) * (self.width as int * 4) + j,
                    forall|y2: int, j2: int|
                        0 <= y2 < y && 0 <= j2 < self.width * 4 ==> result@[y2 * (self.width * 4)
                            + j2] == self.rows@[y2]@[j2],
                    forall|j2: int|
                        0 <= j2 < j ==> result@[(y as int) * (self.width * 4) + j2]
                            == self.rows@[y as int]@[j2],
                decreases row_bytes - j,
            {
                result.push(row[j]);
                proof {
                    lemma_row_major_below(y as int, self.width as int * 4, j as int);
                    assert forall|y2: int, j2: int|
                        0 <= y2 < y && 0 <= j2 < self.width * 4 implies result@[y2 * (self.width
                        * 4) + j2] == self.rows@[y2]@[j2] by {
                        lemma_row_major_below(y2, self.width as int * 4, j2);
                        vstd::arithmetic::mul::lemma_mul_inequality(
                            y2 + 1,
                            y as int,
                            self.width as int * 4,
                        );
                    }
                }
                j = j + 1;
            }
            proof {
                assert((y as int + 1) * (self.width as int * 4) == (y as int) * (
                self.width as int * 4) + self.width * 4) by (nonlinear_arith);
            }
            y = y + 1;
        }
        proof {
            assert((self.height as int) * (self.width as int * 4) == (self.width as int) * (
            self.height as int) * 4) by (nonlinear_arith);
        }
        result
    }


    /// The canvas's bytes as one flat row-major sequence.
    pub open spec fn spec_bytes(self) -> Seq<u8> {
        Seq::new(
            ((self.width as int) * (self.height as int) * 4) as nat,
            |k: int| self.rows@[k / (self.width * 4)]@[k % (self.width * 4)],
        )
    }

    /// Indexing the flat byte sequence reads the expected row byte.
    pub proof fn lemma_spec_bytes_index(self)
        requires
            self.wf(),
        ensures
            forall|y: int, j: int|
                0 <= y < self.height && 0 <= j < self.width * 4 ==> #[trigger] self.spec_bytes()[y
                    * (self.width * 4) + j] == self.rows@[y]@[j],
    {
        let stride = self.width as int * 4;
        assert forall|y: int, j: int|
            0 <= y < self.height && 0 <= j < self.width * 4 implies #[trigger] self.spec_bytes()[y
            * stride + j] == self.rows@[y]@[j] by {
            lemma_row_major_below(y, stride, j);
            lemma_row_major_monotone(y, self.height as int, stride);
            assert((self.height as int) * stride == (self.width as int) * (self.height as int)
                * 4 && stride * (self.height as int) == (self.height as int) * stride && y * stride
                == stride * y) by (nonlinear_arith)
                requires
                    stride == (self.width as int) * 4,
            ;
            vstd::arithmetic::div_mod::lemma_fundamental_div_mod_converse_div(
                y * stride + j,
                stride,
                y,
                j,
            );
            vstd::arithmetic::div_mod::lemma_fundamental_div_mod_converse_mod(
                y * stride + j,
                stride,
                y,
                j,
            );
        }
    }

    /// Rebuild a canvas from a flat row-major byte buffer.
    pub fn from_data(width: u32, height: u32, data: Vec<u8>) -> (r: Canvas)
        requires
            data@.len() == (width as int) * (height as int) * 4,
            4 * width <= usize::MAX,
        ensures
            r.wf(),
            r.width == width,
            r.height == height,
            forall|y: int, j: int|
                0 <= y < height && 0 <= j < width * 4 ==> #[trigger] r.rows@[y]@[j] == data@[y * (
                width * 4) + j],
    {
        let row_bytes: usize = BYTES_PER_PIXEL * (width as usize);
        let data_len = data.len();
        let mut rows: Vec<Vec<u8>> = Vec::new();
        let mut y: u32 = 0;
        while y < height
            invariant
                y <= height,
                rows@.len() == y,
                row_bytes == 4 * width,
                data_len == data@.len(),
                data@.len() == (width as int) * (height as int) * 4,
                forall|i: int| 0 <= i < y ==> (#[trigger] rows@[i])@.len() == width * 4,
                forall|i: int, j: int|
                    0 <= i < y && 0 <= j < width * 4 ==> (#[trigger] rows@[i]@[j]) == data@[i * (
                    width * 4) + j],
            decreases height - y,
        {
            proof {
                lemma_row_major_monotone(y as int, height as int, width as int * 4);
                assert((width as int * 4) * (height as int) == (width as int) * (height as int)
                    * 4) by (nonlinear_arith);
            }
            proof {
                assert((y as int) * (row_bytes as int) == (y as int) * (width as int * 4) && (
                y as int) * (width as int * 4) <= (y as int + 1) * (width as int * 4))
                    by (nonlinear_arith)
                    requires
                        row_bytes == width as int * 4,
                        y >= 0,
                ;
            }
            let base: usize = (y as usize) * row_bytes;
            let mut row: Vec<u8> = Vec::new();
            let mut j: usize = 0;
            while j < row_bytes
                invariant
                    j <= row_bytes,
                    row@.len() == j,
                    row_bytes == 4 * width,
                    base == (y as int) * (width as int * 4),
                    y < height,
                    data_len == data@.len(),
                    data@.len() == (width as int) * (height as int) * 4,
                    (y as int + 1) * (width as int * 4) <= data@.len(),
                    forall|j2: int|
                        0 <= j2 < j ==> (#[trigger] row@[j2]) == data@[(y as int) * (width as int
                            * 4) + j2],
                decreases row_bytes - j,
            {
                proof {
                    lemma_row_major_below(y as int, width as int * 4, j as int);
                }
                row.push(data[base + j]);
                j = j + 1;
            }
            rows.push(row);
            y = y + 1;
        }
        Canvas { width, height, rows }
    }

    /// Consume the canvas and hand out its raw bytes.
    pub fn eject_data(self) -> (r: Vec<u8>)
        requires
            self.wf(),
        ensures
            r@.len() == (self.width as int) * (self.height as int) * 4,
            forall|y: int, j: int|
                0 <= y < self.height && 0 <= j < self.width * 4 ==> r@[y * (self.width * 4) + j]
                    == self.rows@[y]@[j],
    {
        self.data()
    }
}

/// A row-major index within row `y` stays below the start of row `y + 1`.
proof fn lemma_row_major_below(y: int, stride: int, offset: int)
    requires
        0 <= y,
        0 <= offset < stride,
    ensures
        y * stride + offset < (y + 1) * stride,
        0 <= y * stride + offset,
{
    assert(y * stride + offset < (y + 1) * stride && 0 <= y * stride + offset)
        by (nonlinear_arith)
        requires
            0 <= y,
            0 <= offset < stride,
    ;
}

/// Filled rows stay within the full buffer.
proof fn lemma_row_major_monotone(y: int, height: int, stride: int)
    requires
        0 <= y < height,
        0 <= stride,
    ensures
        (y + 1) * stride <= stride * height,
{
    assert((y + 1) * stride <= stride * height) by (nonlinear_arith)
        requires
            0 <= y < height,
            0 <= stride,
    ;
}

/// A fresh canvas with every pixel transparent.
pub fn canvas(width: u32, height: u32) -> (r: Canvas)
    requires
        4 * width <= usize::MAX,
    ensures
        r.wf(),
        r.width == width,
        r.height == height,
        r.spec_all_transparent(),
{
    Canvas::new(width, height)
}

} // verus!
