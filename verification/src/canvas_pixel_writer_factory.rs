//! Factory for canvas-backed rasterizer surfaces.

use vstd::prelude::*;

use crate::canvas_pixel_writer::DefaultCanvasPixelWriter;

verus! {

/// Creates a fresh rasterizer surface of the given dimensions.
pub trait CanvasPixelWriterFactory {
    fn create(&self, width: u32, height: u32) -> DefaultCanvasPixelWriter;
}

pub struct DefaultCanvasPixelWriterFactory {}

impl DefaultCanvasPixelWriterFactory {
    pub fn create(&self, width: u32, height: u32) -> (r: DefaultCanvasPixelWriter)
        requires
            4 * width <= usize::MAX,
        ensures
            r.canvas.wf(),
            r.canvas.width == width,
            r.canvas.height == height,
            r.canvas.spec_all_transparent(),
    {
        DefaultCanvasPixelWriter::new(width, height)
    }
}

} // verus!
