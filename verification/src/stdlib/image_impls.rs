//! The image operations of the runtime library, on the library's state.

use vstd::prelude::*;

use super::buffers::{blank_buffer, is_first_free, store_at, valid_size};
use super::context::{Context, ContextModel};
use super::images::Image;
use crate::witness::pick2;

verus! {

/// Creates an image: a black buffer of the given size in the first free
/// buffer slot, and an image showing it in the first free image slot.
/// Returns the image's handle as an `i32`.
pub fn create_image(context: &mut Context, width: i32, height: i32) -> (handle: i32)
    requires
        valid_size(width, height),
        old(context)@.buffers.len() < usize::MAX,
        old(context)@.images.len() < usize::MAX,
    ensures
        exists|b: int, h: int|
            #![trigger pick2(b, h)]
            {
                &&& is_first_free(old(context)@.buffers, b)
                &&& is_first_free(old(context)@.images, h)
                &&& handle == h as i32
                &&& final(context)@ == ContextModel {
                    buffers: store_at(old(context)@.buffers, b, blank_buffer(width, height)),
                    images: store_at(
                        old(context)@.images,
                        h,
                        Image { buffer_handle: b as usize, mid_handle: false },
                    ),
                    ..old(context)@
                }
            },
{
    let buffer_handle = context.buffers.allocate(width, height);
    let image_handle = context.images.allocate(buffer_handle);
    proof {
        assert(pick2(buffer_handle as int, image_handle as int));
    }
    image_handle as i32
}

/// Frees the image with the given handle; its slot becomes free. The
/// buffer it showed stays.
pub fn free_image(context: &mut Context, handle: i32)
    requires
        0 <= handle < old(context)@.images.len(),
    ensures
        final(context)@ == (ContextModel {
            images: old(context)@.images.update(handle as int, None),
            ..old(context)@
        }),
{
    context.images.free(handle as usize);
}

/// The handle of the buffer that the image with the given handle shows.
pub fn image_buffer(context: &Context, handle: i32) -> (b: i32)
    requires
        0 <= handle < context@.images.len(),
        context@.images[handle as int] is Some,
    ensures
        b == context@.images[handle as int].unwrap().buffer_handle as i32,
{
    let image = context.images.get(handle as usize);
    image.buffer_handle as i32
}

/// Marks the image with the given handle to be drawn centred.
pub fn mid_handle(context: &mut Context, handle: i32)
    requires
        0 <= handle < old(context)@.images.len(),
        old(context)@.images[handle as int] is Some,
    ensures
        final(context)@ == (ContextModel {
            images: old(context)@.images.update(
                handle as int,
                Some(Image { mid_handle: true, ..old(context)@.images[handle as int].unwrap() }),
            ),
            ..old(context)@
        }),
{
    context.images.set_mid_handle(handle as usize);
}

} // verus!
