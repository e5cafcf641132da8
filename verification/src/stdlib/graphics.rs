use vstd::prelude::*;

use super::buffers::{BufferModel, Buffers};

verus! {

/// The drawing state: which buffer drawing commands write to.
#[derive(Clone, Copy, Debug, PartialEq, Eq, Structural)]
pub struct Graphics {
    pub current_buffer: usize,
}

/// The index of pixel `(x, y)` in a buffer `width` pixels wide.
pub open spec fn pixel_index(width: i32, x: i32, y: i32) -> int {
    y * width + x
}

/// Whether pixel `(x, y)` can be written in `buffer`: the index is computed
/// in `i32` without overflow and lies within the buffer.
pub open spec fn pixel_in_range(buffer: BufferModel, x: i32, y: i32) -> bool {
    &&& i32::MIN <= y * buffer.width <= i32::MAX
    &&& pixel_index(buffer.width, x, y) <= i32::MAX
    &&& 0 <= pixel_index(buffer.width, x, y) < buffer.data.len()
}

/// Whether the current buffer is a live buffer of `buffers`.
pub open spec fn has_current_buffer(graphics: Graphics, buffers: Seq<Option<BufferModel>>) -> bool {
    graphics.current_buffer < buffers.len() && buffers[graphics.current_buffer as int] is Some
}

impl Graphics {
    /// Drawing state that draws to buffer 0.
    pub fn new() -> (g: Graphics)
        ensures
            g.current_buffer == 0,
    {
        Graphics { current_buffer: 0 }
    }

    /// Directs drawing to the buffer with the given handle.
    pub fn set_buffer(&mut self, handle: usize)
        ensures
            final(self).current_buffer == handle,
    {
        self.current_buffer = handle;
    }

    /// Clears the current buffer to black.
    pub fn cls(&mut self, buffers: &mut Buffers)
        requires
            has_current_buffer(*old(self), old(buffers)@),
        ensures
            *final(self) == *old(self),
            final(buffers)@ == old(buffers)@.update(
                old(self).current_buffer as int,
                Some(
                    BufferModel {
                        data: Seq::new(
                            old(buffers)@[old(self).current_buffer as int].unwrap().data.len(),
                            |i: int| 0u32,
                        ),
                        ..old(buffers)@[old(self).current_buffer as int].unwrap()
                    },
                ),
            ),
    {
        buffers.clear(self.current_buffer);
    }

    /// Whether `write_pixel_fast(x, y, _)` writes inside the current buffer.
    pub fn can_write_pixel(&self, buffers: &Buffers, x: i32, y: i32) -> (b: bool)
        requires
            has_current_buffer(*self, buffers@),
        ensures
            b == pixel_in_range(buffers@[self.current_buffer as int].unwrap(), x, y),
    {
        let buffer = buffers.get(self.current_buffer);
        let w = buffer.width;
        assert(-0x4000_0000_0000_0000 <= y as i64 * w as i64 <= 0x4000_0000_0000_0000) by (nonlinear_arith)
            requires
                i32::MIN <= y <= i32::MAX,
                i32::MIN <= w <= i32::MAX,
        ;
        let row: i64 = y as i64 * w as i64;
        if row < i32::MIN as i64 || row > i32::MAX as i64 {
            return false;
        }
        let index: i64 = row + x as i64;
        if index < 0 || index > i32::MAX as i64 {
            return false;
        }
        (index as usize) < buffer.data.len()
    }

    /// Sets pixel `(x, y)` of the current buffer to `color`, reinterpreted as
    /// unsigned.
    pub fn write_pixel_fast(&mut self, buffers: &mut Buffers, x: i32, y: i32, color: i32)
        requires
            has_current_buffer(*old(self), old(buffers)@),
            pixel_in_range(old(buffers)@[old(self).current_buffer as int].unwrap(), x, y),
        ensures
            *final(self) == *old(self),
            final(buffers)@ == old(buffers)@.update(
                old(self).current_buffer as int,
                Some(
                    BufferModel {
                        data: old(buffers)@[old(self).current_buffer as int].unwrap().data.update(
                            pixel_index(
                                old(buffers)@[old(self).current_buffer as int].unwrap().width,
                                x,
                                y,
                            ),
                            color as u32,
                        ),
                        ..old(buffers)@[old(self).current_buffer as int].unwrap()
                    },
                ),
            ),
    {
        let width = buffers.get(self.current_buffer).width;
        let index: i32 = y * width + x;
        buffers.set_pixel(self.current_buffer, index as usize, color as u32);
    }
}

} // verus!
