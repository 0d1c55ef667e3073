//! One half of the double buffer: owned payload slots filled in
//! reservation order, plus the published count and byte total.

use vstd::prelude::*;

use crate::bytes::{lemma_sum_len_push, lemma_views_push, sum_len, views};

verus! {

/// A slice buffer of fixed capacity. Reservation number `k` (counting
/// down from the capacity) fills slot `capacity - k`, so the filled slots
/// are always a prefix and are kept here as a growing vector.
pub(crate) struct Buffer {
    pub(crate) payloads: Vec<Vec<u8>>,
    pub(crate) capacity: usize,
    pub(crate) total_size: usize,
}

impl Buffer {
    /// The payload byte sequences held by the filled slots, in slot order.
    pub(crate) open spec fn contents(&self) -> Seq<Seq<u8>> {
        views(self.payloads@)
    }

    pub(crate) open spec fn wf(&self) -> bool {
        &&& self.payloads@.len() <= self.capacity
        &&& self.total_size == sum_len(self.contents())
    }

    pub(crate) open spec fn spec_capacity(&self) -> nat {
        self.capacity as nat
    }

    pub(crate) open spec fn spec_total(&self) -> nat {
        self.total_size as nat
    }

    pub(crate) fn with_capacity(capacity: usize) -> (b: Buffer)
        ensures
            b.wf(),
            b.spec_capacity() == capacity,
            b.contents().len() == 0,
            b.spec_total() == 0,
    {
        let b = Buffer { payloads: Vec::new(), capacity, total_size: 0 };
        proof {
            assert(b.contents() =~= Seq::<Seq<u8>>::empty());
        }
        b
    }

    pub(crate) fn capacity(&self) -> (c: usize)
        ensures
            c == self.spec_capacity(),
    {
        self.capacity
    }

    pub(crate) fn len(&self) -> (n: usize)
        ensures
            n == self.contents().len(),
    {
        self.payloads.len()
    }

    /// Grows the capacity; never shrinks it. The filled slots stay as
    /// they are: the queue only resizes a buffer that is not active.
    pub(crate) fn resize(&mut self, capacity: usize)
        requires
            old(self).wf(),
        ensures
            final(self).wf(),
            final(self).spec_capacity() == vstd::math::max(
                old(self).spec_capacity() as int,
                capacity as int,
            ),
            final(self).contents() == old(self).contents(),
            final(self).spec_total() == old(self).spec_total(),
    {
        if capacity > self.capacity {
            self.capacity = capacity;
        }
    }

    /// Fills the slot of reservation number `slot` with `bytes` and
    /// publishes the new count and byte total.
    pub(crate) fn insert(&mut self, slot: usize, bytes: Vec<u8>)
        requires
            old(self).wf(),
            1 <= slot <= old(self).spec_capacity(),
            old(self).contents().len() == old(self).spec_capacity() - slot,
            old(self).spec_total() + bytes@.len() <= usize::MAX,
        ensures
            final(self).wf(),
            final(self).contents() == old(self).contents().push(bytes@),
            final(self).spec_capacity() == old(self).spec_capacity(),
            final(self).spec_total() == old(self).spec_total() + bytes@.len(),
    {
        proof {
            lemma_views_push(self.payloads@, bytes);
            lemma_sum_len_push(self.contents(), bytes@);
        }
        let size = bytes.len();
        self.payloads.push(bytes);
        self.total_size = self.total_size + size;
    }

    /// Hands the filled slots and the published byte total to the
    /// consumer, leaving the buffer empty.
    pub(crate) fn snapshot(&mut self, expected_len: usize) -> (r: (Vec<Vec<u8>>, usize))
        requires
            old(self).wf(),
            expected_len == old(self).contents().len(),
        ensures
            final(self).wf(),
            views(r.0@) == old(self).contents(),
            r.0@.len() == expected_len,
            r.1 == old(self).spec_total(),
            final(self).contents().len() == 0,
            final(self).spec_total() == 0,
            final(self).spec_capacity() == old(self).spec_capacity(),
    {
        let mut taken: Vec<Vec<u8>> = Vec::new();
        core::mem::swap(&mut taken, &mut self.payloads);
        let total = self.total_size;
        self.total_size = 0;
        proof {
            assert(self.contents() =~= Seq::<Seq<u8>>::empty());
        }
        (taken, total)
    }

    /// Drops the filled slots and resets the published count and total.
    pub(crate) fn clear(&mut self)
        ensures
            final(self).wf(),
            final(self).contents().len() == 0,
            final(self).spec_total() == 0,
            final(self).spec_capacity() == old(self).spec_capacity(),
    {
        self.payloads.clear();
        self.total_size = 0;
        proof {
            assert(self.contents() =~= Seq::<Seq<u8>>::empty());
        }
    }
}

} // verus!
