use vstd::prelude::*;

verus! {

/// A pixel buffer: `width * height` pixels in rows, each `0x00RRGGBB`.
pub struct Buffer {
    pub width: i32,
    pub height: i32,
    pub data: Vec<u32>,
}

/// The content of a buffer.
pub struct BufferModel {
    pub width: i32,
    pub height: i32,
    pub data: Seq<u32>,
}

impl View for Buffer {
    type V = BufferModel;

    open spec fn view(&self) -> BufferModel {
        BufferModel { width: self.width, height: self.height, data: self.data@ }
    }
}

/// A buffer of the given size with every pixel 0.
pub open spec fn blank_buffer(width: i32, height: i32) -> BufferModel {
    BufferModel { width, height, data: Seq::new((width * height) as nat, |i: int| 0u32) }
}

/// Whether a buffer of this size can be allocated: its pixel count is a
/// non-negative `i32`.
pub open spec fn valid_size(width: i32, height: i32) -> bool {
    0 <= width * height <= i32::MAX
}

impl Buffer {
    /// A black buffer of the given size.
    pub fn new(width: i32, height: i32) -> (b: Buffer)
        requires
            valid_size(width, height),
        ensures
            b@ == blank_buffer(width, height),
    {
        let n: i32 = width * height;
        let data: Vec<u32> = vec![0u32; n as usize];
        let b = Buffer { width, height, data };
        assert(b@.data =~= blank_buffer(width, height).data);
        b
    }
}

/// The first slot of `slots` that is empty, or its length when all are used.
pub open spec fn is_first_free<T>(slots: Seq<Option<T>>, i: int) -> bool {
    &&& 0 <= i <= slots.len()
    &&& forall|j: int| 0 <= j < i ==> (#[trigger] slots[j]) is Some
    &&& i < slots.len() ==> slots[i] is None
}

/// The slots after a value is stored in slot `i`, which is the first free one.
pub open spec fn store_at<T>(slots: Seq<Option<T>>, i: int, v: T) -> Seq<Option<T>> {
    if i < slots.len() {
        slots.update(i, Some(v))
    } else {
        slots.push(Some(v))
    }
}

/// A table of buffers addressed by handles; freed handles are reused.
pub struct Buffers {
    buffers: Vec<Option<Buffer>>,
}

pub open spec fn buffer_slot_view(o: Option<Buffer>) -> Option<BufferModel> {
    match o {
        Some(b) => Some(b@),
        None => None,
    }
}

impl View for Buffers {
    type V = Seq<Option<BufferModel>>;

    closed spec fn view(&self) -> Seq<Option<BufferModel>> {
        self.buffers@.map_values(|o: Option<Buffer>| buffer_slot_view(o))
    }
}

impl Buffers {
    /// An empty table.
    pub fn new() -> (r: Buffers)
        ensures
            r@ == Seq::<Option<BufferModel>>::empty(),
    {
        let r = Buffers { buffers: Vec::new() };
        assert(r@ =~= Seq::<Option<BufferModel>>::empty());
        r
    }

    /// The number of slots, used or free.
    pub fn len(&self) -> (n: usize)
        ensures
            n == self@.len(),
    {
        self.buffers.len()
    }

    /// Whether `handle` names a live buffer.
    pub fn is_live(&self, handle: usize) -> (b: bool)
        ensures
            b == (handle < self@.len() && self@[handle as int] is Some),
    {
        if handle < self.buffers.len() {
            match &self.buffers[handle] {
                Some(_) => true,
                None => false,
            }
        } else {
            false
        }
    }

    /// Allocates a black buffer in the first free slot, or in a new slot at
    /// the end when none is free, and returns its handle.
    pub fn allocate(&mut self, width: i32, height: i32) -> (handle: usize)
        requires
            valid_size(width, height),
            old(self)@.len() < usize::MAX,
        ensures
            is_first_free(old(self)@, handle as int),
            final(self)@ == store_at(old(self)@, handle as int, blank_buffer(width, height)),
    {
        let buffer = Buffer::new(width, height);
        let ghost bm = buffer@;
        let n = self.buffers.len();
        let mut i: usize = 0;
        while i < n
            invariant
                n == self.buffers.len(),
                i <= n,
                self@ == old(self)@,
                buffer@ == bm,
                bm == blank_buffer(width, height),
                forall|j: int| 0 <= j < i ==> (#[trigger] old(self)@[j]) is Some,
            decreases n - i,
        {
            let free = match &self.buffers[i] {
                Some(_) => false,
                None => true,
            };
            if free {
                proof {
                    assert(old(self)@[i as int] == buffer_slot_view(self.buffers@[i as int]));
                }
                let ghost before = self.buffers@;
                self.buffers.set(i, Some(buffer));
                proof {
                    assert(self.buffers@ == before.update(i as int, Some(buffer)));
                    assert forall|j: int| 0 <= j < self@.len() implies self@[j] == store_at(
                        old(self)@,
                        i as int,
                        bm,
                    )[j] by {
                        assert(self@[j] == buffer_slot_view(self.buffers@[j]));
                        if j != i {
                            assert(self.buffers@[j] == before[j]);
                            assert(old(self)@[j] == buffer_slot_view(before[j]));
                        } else {
                            assert(buffer_slot_view(self.buffers@[j]) == Some(bm));
                        }
                    }
                    assert(self@ =~= store_at(old(self)@, i as int, blank_buffer(width, height)));
                }
                return i;
            }
            proof {
                assert(old(self)@[i as int] == buffer_slot_view(self.buffers@[i as int]));
            }
            i = i + 1;
        }
        self.buffers.push(Some(buffer));
        proof {
            assert(self@ =~= store_at(old(self)@, n as int, blank_buffer(width, height)));
        }
        n
    }

    /// Frees the buffer with the given handle; its slot becomes free.
    pub fn free(&mut self, handle: usize)
        requires
            handle < old(self)@.len(),
        ensures
            final(self)@ == old(self)@.update(handle as int, None),
    {
        self.buffers.set(handle, None);
        proof {
            assert(self@ =~= old(self)@.update(handle as int, None));
        }
    }

    /// The buffer with the given handle.
    pub fn get(&self, handle: usize) -> (b: &Buffer)
        requires
            handle < self@.len(),
            self@[handle as int] is Some,
        ensures
            Some(b@) == self@[handle as int],
    {
        proof {
            assert(self@[handle as int] == buffer_slot_view(self.buffers@[handle as int]));
        }
        self.buffers[handle].as_ref().unwrap()
    }

    /// Sets every pixel of a live buffer to 0.
    pub fn clear(&mut self, handle: usize)
        requires
            handle < old(self)@.len(),
            old(self)@[handle as int] is Some,
        ensures
            final(self)@ == old(self)@.update(
                handle as int,
                Some(
                    BufferModel {
                        data: Seq::new(old(self)@[handle as int].unwrap().data.len(), |i: int| 0u32),
                        ..old(self)@[handle as int].unwrap()
                    },
                ),
            ),
    {
        proof {
            assert(old(self)@[handle as int] == buffer_slot_view(old(self).buffers@[handle as int]));
        }
        let mut slot: Option<Buffer> = None;
        std::mem::swap(&mut slot, &mut self.buffers[handle]);
        let mut b = slot.unwrap();
        let ghost b0 = b@;
        let n = b.data.len();
        let mut i: usize = 0;
        while i < n
            invariant
                n == b.data.len(),
                i <= n,
                b.width == b0.width,
                b.height == b0.height,
                b0.data.len() == n,
                forall|j: int| 0 <= j < i ==> b.data@[j] == 0u32,
            decreases n - i,
        {
            b.data.set(i, 0u32);
            i = i + 1;
        }
        let ghost before = self.buffers@;
        self.buffers.set(handle, Some(b));
        proof {
            assert(b@.data =~= Seq::new(b0.data.len(), |i: int| 0u32));
            assert forall|j: int| 0 <= j < self@.len() implies self@[j] == old(self)@.update(
                handle as int,
                Some(BufferModel { data: Seq::new(b0.data.len(), |i: int| 0u32), ..b0 }),
            )[j] by {
                assert(self@[j] == buffer_slot_view(self.buffers@[j]));
                assert(old(self)@[j] == buffer_slot_view(old(self).buffers@[j]));
            }
            assert(self@ =~= old(self)@.update(
                handle as int,
                Some(BufferModel { data: Seq::new(b0.data.len(), |i: int| 0u32), ..b0 }),
            ));
        }
    }

    /// Sets one pixel of a live buffer.
    pub fn set_pixel(&mut self, handle: usize, index: usize, color: u32)
        requires
            handle < old(self)@.len(),
            old(self)@[handle as int] is Some,
            index < old(self)@[handle as int].unwrap().data.len(),
        ensures
            final(self)@ == old(self)@.update(
                handle as int,
                Some(
                    BufferModel {
                        data: old(self)@[handle as int].unwrap().data.update(index as int, color),
                        ..old(self)@[handle as int].unwrap()
                    },
                ),
            ),
    {
        proof {
            assert(old(self)@[handle as int] == buffer_slot_view(old(self).buffers@[handle as int]));
        }
        let mut slot: Option<Buffer> = None;
        std::mem::swap(&mut slot, &mut self.buffers[handle]);
        let mut b = slot.unwrap();
        let ghost b0 = b@;
        b.data.set(index, color);
        self.buffers.set(handle, Some(b));
        proof {
            let want = old(self)@.update(
                handle as int,
                Some(BufferModel { data: b0.data.update(index as int, color), ..b0 }),
            );
            assert forall|j: int| 0 <= j < self@.len() implies self@[j] == want[j] by {
                assert(self@[j] == buffer_slot_view(self.buffers@[j]));
                assert(old(self)@[j] == buffer_slot_view(old(self).buffers@[j]));
            }
            assert(self@ =~= want);
        }
    }
}

/// At most one slot is the first free one: the handle that allocation picks
/// is determined by which slots are in use.
pub proof fn first_free_is_unique<T>(slots: Seq<Option<T>>, i: int, j: int)
    requires
        is_first_free(slots, i),
        is_first_free(slots, j),
    ensures
        i == j,
{
    if i < j {
        assert(slots[i] is Some);
    } else if j < i {
        assert(slots[j] is Some);
    }
}

/// Freeing a handle below which every slot is in use makes it the next
/// handle allocated.
pub proof fn freed_handle_is_reused<T>(slots: Seq<Option<T>>, h: int)
    requires
        0 <= h < slots.len(),
        forall|j: int| 0 <= j < h ==> (#[trigger] slots[j]) is Some,
    ensures
        is_first_free(slots.update(h, None), h),
{
    assert forall|j: int| 0 <= j < h implies (#[trigger] slots.update(h, None)[j]) is Some by {
        assert(slots.update(h, None)[j] == slots[j]);
    }
}

/// An allocated handle was free before and holds the new value after; no
/// other slot changes.
pub proof fn allocation_fills_only_its_slot<T>(slots: Seq<Option<T>>, i: int, v: T)
    requires
        is_first_free(slots, i),
    ensures
        i == slots.len() || slots[i] is None,
        store_at(slots, i, v)[i] == Some(v),
        store_at(slots, i, v).len() == if i < slots.len() {
            slots.len()
        } else {
            slots.len() + 1
        },
        forall|j: int| 0 <= j < slots.len() && j != i ==> store_at(slots, i, v)[j] == slots[j],
{
}

} // verus!
