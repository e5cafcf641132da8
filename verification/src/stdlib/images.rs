use vstd::prelude::*;

use super::buffers::{is_first_free, store_at};

verus! {

/// An image: the handle of the buffer that holds its pixels, and whether it is
/// drawn centred on its position.
#[derive(Clone, Copy, Debug, PartialEq, Eq, Structural)]
pub struct Image {
    pub buffer_handle: usize,
    pub mid_handle: bool,
}

impl Image {
    /// An image drawn from its top-left corner.
    pub fn new(buffer_handle: usize) -> (i: Image)
        ensures
            i == (Image { buffer_handle, mid_handle: false }),
    {
        Image { buffer_handle, mid_handle: false }
    }
}

/// A table of images addressed by handles; freed handles are reused.
pub struct Images {
    images: Vec<Option<Image>>,
}

impl View for Images {
    type V = Seq<Option<Image>>;

    closed spec fn view(&self) -> Seq<Option<Image>> {
        self.images@
    }
}

impl Images {
    /// An empty table.
    pub fn new() -> (r: Images)
        ensures
            r@ == Seq::<Option<Image>>::empty(),
    {
        Images { images: Vec::new() }
    }

    /// Stores a new image in the first free slot, or in a new slot at the end
    /// when none is free, and returns its handle.
    pub fn allocate(&mut self, buffer_handle: usize) -> (handle: usize)
        requires
            old(self)@.len() < usize::MAX,
        ensures
            is_first_free(old(self)@, handle as int),
            final(self)@ == store_at(old(self)@, handle as int, Image::new_spec(buffer_handle)),
    {
        let image = Image::new(buffer_handle);
        let n = self.images.len();
        let mut i: usize = 0;
        while i < n
            invariant
                n == self.images.len(),
                i <= n,
                self@ == old(self)@,
                image == Image::new_spec(buffer_handle),
                forall|j: int| 0 <= j < i ==> (#[trigger] old(self)@[j]) is Some,
            decreases n - i,
        {
            if self.images[i].is_none() {
                self.images.set(i, Some(image));
                return i;
            }
            i = i + 1;
        }
        self.images.push(Some(image));
        n
    }

    /// Frees the image with the given handle; its slot becomes free.
    pub fn free(&mut self, handle: usize)
        requires
            handle < old(self)@.len(),
        ensures
            final(self)@ == old(self)@.update(handle as int, None),
    {
        self.images.set(handle, None);
    }

    /// Whether `handle` names a live image.
    pub fn is_live(&self, handle: usize) -> (b: bool)
        ensures
            b == (handle < self@.len() && self@[handle as int] is Some),
    {
        handle < self.images.len() && self.images[handle].is_some()
    }

    /// The image with the given handle.
    pub fn get(&self, handle: usize) -> (i: Image)
        requires
            handle < self@.len(),
            self@[handle as int] is Some,
        ensures
            Some(i) == self@[handle as int],
    {
        self.images[handle].unwrap()
    }

    /// Marks the image with the given handle to be drawn centred.
    pub fn set_mid_handle(&mut self, handle: usize)
        requires
            handle < old(self)@.len(),
            old(self)@[handle as int] is Some,
        ensures
            final(self)@ == old(self)@.update(
                handle as int,
                Some(Image { mid_handle: true, ..old(self)@[handle as int].unwrap() }),
            ),
    {
        let mut image = self.images[handle].unwrap();
        image.mid_handle = true;
        self.images.set(handle, Some(image));
    }
}

impl Image {
    pub open spec fn new_spec(buffer_handle: usize) -> Image {
        Image { buffer_handle, mid_handle: false }
    }
}

} // verus!
