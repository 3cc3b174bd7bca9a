//! A canvas surface viewed through a fixed coordinate offset.  Checking out
//! rows skips the first `offset_y` canvas rows (which stay in the canvas)
//! and wraps the rest, so a wheel of any size renders into its own region of
//! a wider, shared canvas.

use vstd::prelude::*;

use crate::canvas_pixel_writer::DefaultCanvasPixelWriter;
use crate::offset_row_pixel_writer::OffsetRowPixelWriter;
use crate::row_pixel_writer::DefaultRowPixelWriter;

verus! {

pub struct OffsetCanvasPixelWriter {
    pub canvas_pixel_writer: DefaultCanvasPixelWriter,
    pub offset_x: u32,
    pub offset_y: u32,
}

impl OffsetCanvasPixelWriter {
    /// Check out the canvas rows from `offset_y` downward, each wrapped with
    /// this writer's offsets.  The earlier rows stay in the canvas.
    pub fn take_rows(&mut self) -> (rows: Vec<OffsetRowPixelWriter>)
        requires
            old(self).canvas_pixel_writer.canvas.wf(),
            old(self).offset_y <= old(self).canvas_pixel_writer.canvas.height,
        ensures
            rows@.len() == old(self).canvas_pixel_writer.canvas.height - old(self).offset_y,
            forall|i: int|
                0 <= i < rows@.len() ==> {
                    let r = #[trigger] rows@[i];
                    &&& r.offset_x == old(self).offset_x
                    &&& r.offset_y == old(self).offset_y
                    &&& r.row_pixel_writer.row_index == old(self).offset_y + i
                    &&& r.row_pixel_writer.data == old(self).canvas_pixel_writer.canvas.rows@[old(
                        self,
                    ).offset_y + i]
                },
            final(self).offset_x == old(self).offset_x,
            final(self).offset_y == old(self).offset_y,
            final(self).canvas_pixel_writer.canvas.width == old(
                self,
            ).canvas_pixel_writer.canvas.width,
            final(self).canvas_pixel_writer.canvas.height == old(
                self,
            ).canvas_pixel_writer.canvas.height,
            final(self).canvas_pixel_writer.canvas.rows@ == old(
                self,
            ).canvas_pixel_writer.canvas.rows@.subrange(0, old(self).offset_y as int),
    {
        let ghost original = self.canvas_pixel_writer.canvas.rows@;
        let skipped = self.canvas_pixel_writer.canvas.rows.split_off(self.offset_y as usize);
        let ghost tail = skipped@;
        let mut remaining = skipped;
        let mut rows: Vec<OffsetRowPixelWriter> = Vec::new();
        let mut index: u32 = 0;
        while remaining.len() > 0
            invariant
                rows@.len() == index,
                index + remaining@.len() == tail.len(),
                remaining@ =~= tail.skip(index as int),
                self.offset_y + tail.len() == original.len(),
                original.len() <= u32::MAX,
                self.offset_x == old(self).offset_x,
                self.offset_y == old(self).offset_y,
                self.canvas_pixel_writer.canvas.width == old(
                    self,
                ).canvas_pixel_writer.canvas.width,
                self.canvas_pixel_writer.canvas.height == old(
                    self,
                ).canvas_pixel_writer.canvas.height,
                forall|i: int|
                    0 <= i < index ==> {
                        let r = #[trigger] rows@[i];
                        &&& r.offset_x == old(self).offset_x
                        &&& r.offset_y == old(self).offset_y
                        &&& r.row_pixel_writer.row_index == old(self).offset_y + i
                        &&& r.row_pixel_writer.data == tail[i]
                    },
            decreases remaining@.len(),
        {
            let row = remaining.remove(0);
            rows.push(
                OffsetRowPixelWriter {
                    row_pixel_writer: DefaultRowPixelWriter {
                        row_index: self.offset_y + index,
                        data: row,
                    },
                    offset_x: self.offset_x,
                    offset_y: self.offset_y,
                },
            );
            index = index + 1;
            proof {
                assert(remaining@ =~= tail.skip(index as int));
            }
        }
        rows
    }

    /// Return the checked-out rows, restoring the canvas with their new
    /// contents.
    pub fn put_rows(&mut self, rows: Vec<OffsetRowPixelWriter>)
        requires
            4 * old(self).canvas_pixel_writer.canvas.width <= usize::MAX,
            old(self).offset_y <= old(self).canvas_pixel_writer.canvas.height,
            old(self).canvas_pixel_writer.canvas.rows@.len() == old(self).offset_y,
            forall|i: int|
                0 <= i < old(self).offset_y ==> (#[trigger] old(
                    self,
                ).canvas_pixel_writer.canvas.rows@[i])@.len() == old(
                    self,
                ).canvas_pixel_writer.canvas.width * 4,
            rows@.len() == old(self).canvas_pixel_writer.canvas.height - old(self).offset_y,
            forall|i: int|
                0 <= i < rows@.len() ==> (#[trigger] rows@[i]).row_pixel_writer.data@.len() == old(
                    self,
                ).canvas_pixel_writer.canvas.width * 4,
        ensures
            final(self).offset_x == old(self).offset_x,
            final(self).offset_y == old(self).offset_y,
            final(self).canvas_pixel_writer.canvas.wf(),
            final(self).canvas_pixel_writer.canvas.width == old(
                self,
            ).canvas_pixel_writer.canvas.width,
            final(self).canvas_pixel_writer.canvas.height == old(
                self,
            ).canvas_pixel_writer.canvas.height,
            forall|i: int|
                0 <= i < old(self).offset_y ==> (#[trigger] final(self).canvas_pixel_writer.canvas.rows@[i]) == old(
                    self,
                ).canvas_pixel_writer.canvas.rows@[i],
            forall|i: int|
                0 <= i < rows@.len() ==> final(self).canvas_pixel_writer.canvas.rows@[old(
                    self,
                ).offset_y + i] == (#[trigger] rows@[i]).row_pixel_writer.data,
    {
        let ghost prefix = self.canvas_pixel_writer.canvas.rows@;
        let ghost incoming = rows@;
        let mut rows = rows;
        while rows.len() > 0
            invariant
                self.offset_x == old(self).offset_x,
                self.offset_y == old(self).offset_y,
                self.canvas_pixel_writer.canvas.width == old(
                    self,
                ).canvas_pixel_writer.canvas.width,
                self.canvas_pixel_writer.canvas.height == old(
                    self,
                ).canvas_pixel_writer.canvas.height,
                self.canvas_pixel_writer.canvas.rows@.len() + rows@.len() == old(
                    self,
                ).canvas_pixel_writer.canvas.height,
                self.canvas_pixel_writer.canvas.rows@.len() >= old(self).offset_y,
                incoming.len() == old(self).canvas_pixel_writer.canvas.height - old(
                    self,
                ).offset_y,
                rows@ =~= incoming.skip(
                    self.canvas_pixel_writer.canvas.rows@.len() - old(self).offset_y,
                ),
                forall|i: int|
                    0 <= i < old(self).offset_y ==> (#[trigger] self.canvas_pixel_writer
                        .canvas
                        .rows@[i]) == prefix[i],
                forall|i: int|
                    old(self).offset_y <= i < self.canvas_pixel_writer.canvas.rows@.len() ==> (
                    #[trigger] self.canvas_pixel_writer.canvas.rows@[i]) == incoming[i - old(
                        self,
                    ).offset_y].row_pixel_writer.data,
            decreases rows@.len(),
        {
            let ghost k = self.canvas_pixel_writer.canvas.rows@.len() - old(self).offset_y;
            let ghost before = rows@;
            let writer = rows.remove(0);
            proof {
                assert(before == incoming.skip(k));
                assert(writer == before[0]);
                assert(before[0] == incoming[k]) by {
                    vstd::seq_lib::lemma_seq_skip_index(incoming, k, 0);
                }
                assert forall|j: int| 0 <= j < rows@.len() implies rows@[j] == incoming[k + 1
                    + j] by {
                    assert(rows@[j] == before[j + 1]);
                    vstd::seq_lib::lemma_seq_skip_index(incoming, k, j + 1);
                }
            }
            self.canvas_pixel_writer.canvas.rows.push(writer.row_pixel_writer.data);
            proof {
                assert forall|j: int| 0 <= j < rows@.len() implies rows@[j] == incoming.skip(
                    k + 1,
                )[j] by {
                    vstd::seq_lib::lemma_seq_skip_index(incoming, k + 1, j);
                }
                assert(rows@ =~= incoming.skip(
                    self.canvas_pixel_writer.canvas.rows@.len() - old(self).offset_y,
                ));
            }
        }
    }
}

} // verus!
