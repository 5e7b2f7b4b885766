//! A bounded pool of reusable byte buffers.

use vstd::prelude::*;

verus! {

/// A bounded stack of byte buffers, recycled to avoid allocating a fresh
/// buffer for every asynchronous operation. The bound is fixed at
/// construction, and a buffer is emptied before it is accepted back, so
/// every pooled buffer is observed empty on checkout.
pub struct BufferPool {
    pub buffers: Vec<Vec<u8>>,
    pub capacity: usize,
}

/// The pool after accepting one buffer back: one buffer longer while below
/// its bound, unchanged once the bound is reached.
pub open spec fn accepts_one(pre: BufferPool, post: BufferPool) -> bool {
    &&& post.capacity == pre.capacity
    &&& post.wf()
    &&& (pre.buffers@.len() < pre.capacity ==> post.buffers@.len() == pre.buffers@.len() + 1)
    &&& (pre.buffers@.len() >= pre.capacity ==> post.buffers@ == pre.buffers@)
}

/// The pool after handing one buffer out: one buffer shorter, or unchanged
/// if it was already empty (the buffer was freshly allocated instead).
pub open spec fn lends_one(pre: BufferPool, post: BufferPool) -> bool {
    &&& post.capacity == pre.capacity
    &&& post.wf()
    &&& (pre.buffers@.len() > 0 ==> post.buffers@ == pre.buffers@.drop_last())
    &&& (pre.buffers@.len() == 0 ==> post.buffers@ == pre.buffers@)
}

impl BufferPool {
    /// The pool never holds more buffers than its bound, and every buffer it
    /// holds is empty.
    pub open spec fn wf(self) -> bool {
        &&& self.buffers@.len() <= self.capacity
        &&& forall|i: int|
            0 <= i < self.buffers@.len() ==> #[trigger] self.buffers@[i]@.len() == 0
    }

    /// Creates an empty pool that will hold at most `capacity` buffers.
    pub fn with_capacity(capacity: usize) -> (r: BufferPool)
        ensures
            r.wf(),
            r.buffers@.len() == 0,
            r.capacity == capacity,
    {
        BufferPool { buffers: Vec::new(), capacity }
    }

    /// Hands out a pooled buffer, or a fresh one with the given initial
    /// allocation when none is pooled. The buffer handed out is empty.
    pub fn get(&mut self, default_cap: usize) -> (r: Vec<u8>)
        requires
            old(self).wf(),
        ensures
            final(self).wf(),
            lends_one(*old(self), *final(self)),
            r@.len() == 0,
    {
        match self.buffers.pop() {
            Some(buf) => buf,
            None => Vec::with_capacity(default_cap),
        }
    }

    /// Accepts a buffer back. At the bound the buffer is discarded, so the
    /// pool never grows beyond its configured capacity; below the bound the
    /// buffer is emptied and kept.
    pub fn put(&mut self, buf: Vec<u8>)
        requires
            old(self).wf(),
        ensures
            final(self).wf(),
            accepts_one(*old(self), *final(self)),
            final(self).buffers@.len() <= final(self).capacity,
    {
        let mut buf = buf;
        if self.buffers.len() < self.capacity {
            buf.clear();
            self.buffers.push(buf);
        }
    }
}

} // verus!
