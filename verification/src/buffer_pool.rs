//! A bounded cache of reusable byte buffers for chunk responses.
//!
//! Taking never fails: an empty pool allocates. Retention is bounded: a
//! returned buffer is kept only if its capacity still matches the pool's
//! target, so undersized last-chunk allocations are dropped.

use vstd::prelude::*;

verus! {

/// Relies on `Vec::capacity`: a vector's allocated capacity is at least its
/// length.
#[verifier::external_body]
fn vec_capacity(v: &Vec<u8>) -> (c: usize)
    ensures
        c >= v@.len(),
{
    v.capacity()
}

/// A pool of reusable byte buffers for send-chunk responses.
pub struct BufferPool {
    buffers: Vec<Vec<u8>>,
    buffer_capacity: usize,
}

impl BufferPool {
    /// Every pooled buffer is empty, ready for its next taker.
    pub closed spec fn wf(&self) -> bool {
        forall|i: int|
            0 <= i < self.buffers@.len() ==> (#[trigger] self.buffers@[i])@.len() == 0
    }

    /// How many buffers the free list currently holds.
    pub closed spec fn spec_free_count(&self) -> int {
        self.buffers@.len() as int
    }

    /// The capacity buffers are allocated with, and the retention threshold.
    pub closed spec fn spec_buffer_capacity(&self) -> usize {
        self.buffer_capacity
    }

    /// Builds a pool with `pool_size` buffers of `buffer_capacity` bytes.
    pub fn new(pool_size: usize, buffer_capacity: usize) -> (p: Self)
        ensures
            p.wf(),
            p.spec_free_count() == pool_size,
            p.spec_buffer_capacity() == buffer_capacity,
    {
        let mut buffers: Vec<Vec<u8>> = Vec::new();
        let mut i: usize = 0;
        while i < pool_size
            invariant
                0 <= i <= pool_size,
                buffers@.len() == i,
                forall|k: int| 0 <= k < i ==> (#[trigger] buffers@[k])@.len() == 0,
            decreases pool_size - i,
        {
            buffers.push(Vec::with_capacity(buffer_capacity));
            i = i + 1;
        }
        BufferPool { buffers, buffer_capacity }
    }

    /// Takes a reusable buffer, allocating only when the pool is empty; the
    /// result is always empty.
    pub fn take(&mut self) -> (r: Vec<u8>)
        requires
            old(self).wf(),
        ensures
            final(self).wf(),
            r@.len() == 0,
            final(self).spec_buffer_capacity() == old(self).spec_buffer_capacity(),
            final(self).spec_free_count() == if old(self).spec_free_count() > 0 {
                old(self).spec_free_count() - 1
            } else {
                0
            },
    {
        match self.buffers.pop() {
            Some(buf) => buf,
            None => Vec::with_capacity(self.buffer_capacity),
        }
    }

    /// Returns a buffer to the pool: its contents are cleared, and it is
    /// kept only if its capacity is at least the pool's target, so the free
    /// list grows by at most one.
    pub fn return_buf(&mut self, buf: Vec<u8>)
        requires
            old(self).wf(),
        ensures
            final(self).wf(),
            final(self).spec_buffer_capacity() == old(self).spec_buffer_capacity(),
            old(self).spec_free_count() <= final(self).spec_free_count() <= old(
                self,
            ).spec_free_count() + 1,
    {
        let mut buf = buf;
        buf.clear();
        if vec_capacity(&buf) >= self.buffer_capacity {
            self.buffers.push(buf);
        }
    }
}

} // verus!
