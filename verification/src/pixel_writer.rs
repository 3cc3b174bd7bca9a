//! Whole-canvas pixel write targets and the coordinate-translating
//! decorator around them.

use vstd::prelude::*;

use crate::canvas::Canvas;
use crate::pixel::Pixel;

verus! {

/// Write access to single pixels of a surface.
pub trait PixelWriter {
    fn write_pixel(&mut self, x: u32, y: u32, color: Pixel);
}

/// Creates a fresh pixel-writable surface of the given dimensions.
pub trait PixelWriterFactory {
    type Result;

    fn create(&self, width: u32, height: u32) -> Self::Result;
}

/// A canvas with per-pixel write access.
pub struct CanvasPixelWriter {
    pub canvas: Canvas,
}

impl CanvasPixelWriter {
    pub fn new(width: u32, height: u32) -> (r: CanvasPixelWriter)
        requires
            4 * width <= usize::MAX,
        ensures
            r.canvas.wf(),
            r.canvas.width == width,
            r.canvas.height == height,
            r.canvas.spec_all_transparent(),
    {
        CanvasPixelWriter { canvas: Canvas::new(width, height) }
    }

    pub fn write_pixel(&mut self, x: u32, y: u32, color: Pixel)
        requires
            old(self).canvas.wf(),
            x < old(self).canvas.width,
            y < old(self).canvas.height,
        ensures
            final(self).canvas.wf(),
            final(self).canvas.width == old(self).canvas.width,
            final(self).canvas.height == old(self).canvas.height,
            final(self).canvas.spec_pixel_at(x as int, y as int) == color,
            forall|x2: int, y2: int|
                0 <= x2 < old(self).canvas.width && 0 <= y2 < old(self).canvas.height && !(x2 == x
                    && y2 == y) ==> final(self).canvas.spec_pixel_at(x2, y2) == old(
                    self,
                ).canvas.spec_pixel_at(x2, y2),
    {
        self.canvas.set_pixel(x, y, color);
    }
}

/// Creates canvas-backed pixel writers.
pub struct CanvasPixelWriterFactory {}

impl CanvasPixelWriterFactory {
    pub fn create(&self, width: u32, height: u32) -> (r: CanvasPixelWriter)
        requires
            4 * width <= usize::MAX,
        ensures
            r.canvas.wf(),
            r.canvas.width == width,
            r.canvas.height == height,
            r.canvas.spec_all_transparent(),
    {
        CanvasPixelWriter::new(width, height)
    }
}

/// Adds a fixed offset to every write before delegating to the wrapped
/// writer; the caller renders in local coordinates and stays unaware of
/// compositing.
pub struct OffsetPixelWriter {
    pub pixel_writer: CanvasPixelWriter,
    pub offset_x: u32,
    pub offset_y: u32,
}

impl OffsetPixelWriter {
    pub fn write_pixel(&mut self, x: u32, y: u32, color: Pixel)
        requires
            old(self).pixel_writer.canvas.wf(),
            x + old(self).offset_x < old(self).pixel_writer.canvas.width,
            y + old(self).offset_y < old(self).pixel_writer.canvas.height,
        ensures
            final(self).offset_x == old(self).offset_x,
            final(self).offset_y == old(self).offset_y,
            final(self).pixel_writer.canvas.wf(),
            final(self).pixel_writer.canvas.width == old(self).pixel_writer.canvas.width,
            final(self).pixel_writer.canvas.height == old(self).pixel_writer.canvas.height,
            final(self).pixel_writer.canvas.spec_pixel_at(
                x + old(self).offset_x,
                y + old(self).offset_y,
            ) == color,
            forall|x2: int, y2: int|
                0 <= x2 < old(self).pixel_writer.canvas.width && 0 <= y2 < old(
                    self,
                ).pixel_writer.canvas.height && !(x2 == x + old(self).offset_x && y2 == y + old(
                    self,
                ).offset_y) ==> final(self).pixel_writer.canvas.spec_pixel_at(x2, y2) == old(
                    self,
                ).pixel_writer.canvas.spec_pixel_at(x2, y2),
    {
        self.pixel_writer.write_pixel(x + self.offset_x, y + self.offset_y, color);
    }
}

} // verus!
