//! Host-visible GPU buffer model.
//!
//! A buffer is a linear region of element capacity fixed at creation.
//! Its contents are mutated only by whole-prefix overwrite: a write of
//! `data` replaces the written prefix with `data` and never grows past the
//! capacity. An overwrite larger than the capacity is rejected before any
//! element is copied, leaving the previous contents intact. Growth requires
//! creating a new buffer; there is no resize.

use vstd::prelude::*;

verus! {

/// Usage bit: the buffer feeds vertex input.
pub const USAGE_VERTEX: u32 = 0x1;

/// Usage bit: the buffer feeds index input.
pub const USAGE_INDEX: u32 = 0x2;

/// Usage bit: shaders read the buffer through a storage-buffer descriptor.
pub const USAGE_STORAGE: u32 = 0x4;

/// Usage bit: the buffer is a transfer source (staging/scratch).
pub const USAGE_TRANSFER_SRC: u32 = 0x8;

/// Usage bit: indirect draw commands are read from the buffer.
pub const USAGE_INDIRECT: u32 = 0x10;

/// The error reported when an overwrite would exceed the buffer's capacity.
/// The region is left untouched: the check precedes any copy.
#[derive(Clone, Copy, Debug, PartialEq, Eq, Structural)]
pub struct CapacityError {
    /// Number of elements the rejected write carried.
    pub requested: usize,
    /// The buffer's fixed element capacity.
    pub capacity: usize,
}

/// A linear GPU memory region of fixed element capacity, tracked by the
/// prefix written so far. Host-visible buffers stay mapped for their whole
/// lifetime and accept overwrites; device-local ones are filled by transfer
/// and reject host writes.
pub struct Buffer<T> {
    contents: Vec<T>,
    capacity: usize,
    usage: u32,
    host_visible: bool,
}

impl<T: Copy> Buffer<T> {
    /// The written prefix of the region.
    pub closed spec fn view(&self) -> Seq<T> {
        self.contents@
    }

    /// Element capacity, fixed at creation.
    pub closed spec fn spec_capacity(&self) -> usize {
        self.capacity
    }

    /// Usage flags given at creation.
    pub closed spec fn spec_usage(&self) -> u32 {
        self.usage
    }

    /// Whether the region is host-mapped, decided at creation.
    pub closed spec fn spec_host_visible(&self) -> bool {
        self.host_visible
    }

    /// The written prefix never exceeds the capacity.
    pub open spec fn wf(&self) -> bool {
        self@.len() <= self.spec_capacity()
    }

    /// Create a buffer of the given fixed capacity. The region starts with
    /// nothing written.
    pub fn new(capacity: usize, usage: u32, host_visible: bool) -> (b: Buffer<T>)
        ensures
            b.wf(),
            b@ == Seq::<T>::empty(),
            b.spec_capacity() == capacity,
            b.spec_usage() == usage,
            b.spec_host_visible() == host_visible,
    {
        Buffer { contents: Vec::new(), capacity, usage, host_visible }
    }

    /// Number of elements written so far.
    pub fn len(&self) -> (n: usize)
        ensures
            n == self@.len(),
    {
        self.contents.len()
    }

    /// Element capacity, fixed at creation.
    pub fn capacity(&self) -> (n: usize)
        ensures
            n == self.spec_capacity(),
    {
        self.capacity
    }

    /// Whether the region is host-mapped.
    pub fn is_host_visible(&self) -> (r: bool)
        ensures
            r == self.spec_host_visible(),
    {
        self.host_visible
    }

    /// The element at position `i` of the written prefix.
    pub fn get(&self, i: usize) -> (x: T)
        requires
            i < self@.len(),
        ensures
            x == self@[i as int],
    {
        self.contents[i]
    }

    /// Replace the written prefix with `data`, whole: after a successful
    /// overwrite the region holds exactly `data`. A write longer than the
    /// capacity is rejected before any element is copied and the previous
    /// contents stay as they were.
    pub fn overwrite(&mut self, data: &Vec<T>) -> (r: Result<(), CapacityError>)
        requires
            old(self).wf(),
            old(self).spec_host_visible(),
        ensures
            final(self).wf(),
            final(self).spec_capacity() == old(self).spec_capacity(),
            final(self).spec_usage() == old(self).spec_usage(),
            final(self).spec_host_visible() == old(self).spec_host_visible(),
            r is Ok <==> data@.len() <= old(self).spec_capacity(),
            r is Ok ==> final(self)@ == data@,
            r matches Err(e) ==> *final(self) == *old(self) && e.requested == data@.len()
                && e.capacity == old(self).spec_capacity(),
    {
        if data.len() > self.capacity {
            return Err(CapacityError { requested: data.len(), capacity: self.capacity });
        }
        self.contents.clear();
        let n = data.len();
        let mut i: usize = 0;
        while i < n
            invariant
                n == data@.len(),
                i <= n,
                self.contents@ == data@.take(i as int),
                self.capacity == old(self).spec_capacity(),
                self.usage == old(self).spec_usage(),
                self.host_visible == old(self).spec_host_visible(),
                n <= self.capacity,
            decreases n - i,
        {
            self.contents.push(data[i]);
            proof {
                assert(data@.take(i + 1) =~= data@.take(i as int).push(data@[i as int]));
            }
            i = i + 1;
        }
        proof {
            assert(data@.take(n as int) =~= data@);
        }
        Ok(())
    }

    /// Release the buffer. Taking the buffer by value makes use after
    /// destroy impossible: no handle outlives the region it points into.
    pub fn destroy(self) {
    }
}

} // verus!
