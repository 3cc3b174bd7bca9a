//! Checking the canvas rows out as independently owned row writers and back
//! in again.  While rows are checked out the canvas holds none of them, so
//! no two writers can alias the same bytes; checking in restores the canvas
//! invariant with the rows' new contents.

use vstd::prelude::*;

use crate::canvas::Canvas;
use crate::row_pixel_writer::DefaultRowPixelWriter;

verus! {

/// A surface whose rows can be checked out as one writer per row.
pub trait CanvasPixelWriter {
    fn take_rows(&mut self) -> Vec<DefaultRowPixelWriter>;

    fn put_rows(&mut self, rows: Vec<DefaultRowPixelWriter>);
}

/// The canvas-backed surface used by the rasterizer.
pub struct DefaultCanvasPixelWriter {
    pub canvas: Canvas,
}

impl DefaultCanvasPixelWriter {
    pub fn new(width: u32, height: u32) -> (r: DefaultCanvasPixelWriter)
        requires
            4 * width <= usize::MAX,
        ensures
            r.canvas.wf(),
            r.canvas.width == width,
            r.canvas.height == height,
            r.canvas.spec_all_transparent(),
    {
        DefaultCanvasPixelWriter { canvas: Canvas::new(width, height) }
    }

    /// Move every row out of the canvas, each as a writer that knows its row
    /// index.  The canvas keeps its dimensions but holds no rows until
    /// `put_rows` returns them.
    pub fn take_rows(&mut self) -> (rows: Vec<DefaultRowPixelWriter>)
        requires
            old(self).canvas.wf(),
        ensures
            rows@.len() == old(self).canvas.height,
            forall|i: int|
                0 <= i < rows@.len() ==> (#[trigger] rows@[i]).row_index == i && rows@[i].data
                    == old(self).canvas.rows@[i],
            final(self).canvas.width == old(self).canvas.width,
            final(self).canvas.height == old(self).canvas.height,
            final(self).canvas.rows@.len() == 0,
    {
        let mut remaining = self.canvas.rows.split_off(0);
        let ghost original = remaining@;
        let mut rows: Vec<DefaultRowPixelWriter> = Vec::new();
        let mut index: u32 = 0;
        proof {
            assert(self.canvas.rows@ =~= original.subrange(0, 0));
            assert(remaining@ =~= original.skip(0));
        }
        while remaining.len() > 0
            invariant
                rows@.len() == index,
                index + remaining@.len() == original.len(),
                original.len() == old(self).canvas.height,
                remaining@ =~= original.skip(index as int),
                forall|i: int|
                    0 <= i < index ==> (#[trigger] rows@[i]).row_index == i && rows@[i].data
                        == original[i],
            decreases remaining@.len(),
        {
            let row = remaining.remove(0);
            rows.push(DefaultRowPixelWriter { row_index: index, data: row });
            index = index + 1;
            proof {
                assert(remaining@ =~= original.skip(index as int));
            }
        }
        rows
    }

    /// Return the checked-out rows, in order, restoring the canvas.
    pub fn put_rows(&mut self, rows: Vec<DefaultRowPixelWriter>)
        requires
            old(self).canvas.rows@.len() == 0,
            4 * old(self).canvas.width <= usize::MAX,
            rows@.len() == old(self).canvas.height,
            forall|i: int|
                0 <= i < rows@.len() ==> (#[trigger] rows@[i]).data@.len() == old(
                    self,
                ).canvas.width * 4,
        ensures
            final(self).canvas.wf(),
            final(self).canvas.width == old(self).canvas.width,
            final(self).canvas.height == old(self).canvas.height,
            forall|i: int|
                0 <= i < rows@.len() ==> final(self).canvas.rows@[i] == (#[trigger] rows@[i]).data,
    {
        let ghost incoming = rows@;
        let mut rows = rows;
        while rows.len() > 0
            invariant
                self.canvas.width == old(self).canvas.width,
                self.canvas.height == old(self).canvas.height,
                self.canvas.rows@.len() + rows@.len() == incoming.len(),
                incoming.len() == old(self).canvas.height,
                rows@ =~= incoming.skip(self.canvas.rows@.len() as int),
                forall|i: int|
                    0 <= i < self.canvas.rows@.len() ==> (#[trigger] self.canvas.rows@[i])
                        == incoming[i].data,
            decreases rows@.len(),
        {
            let writer = rows.remove(0);
            self.canvas.rows.push(writer.data);
            proof {
                assert(rows@ =~= incoming.skip(self.canvas.rows@.len() as int));
            }
        }
        proof {
            assert(forall|i: int|
                0 <= i < incoming.len() ==> (#[trigger] self.canvas.rows@[i])@.len() == old(
                    self,
                ).canvas.width * 4);
        }
    }
}

} // verus!
