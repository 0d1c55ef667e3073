//! The verified state of the thread-blocking adapter.
//!
//! The adapter serializes one consumer and parks producers on a condition
//! variable. Waiting itself cannot happen here: the embedding program owns
//! the lock and the condition variable, retries `try_enqueue` and
//! `try_dequeue_vectored` under them, and consults `wake_dequeue` /
//! `set_wait_dequeue` for the wake protocol: the consumer raises the flag
//! before it parks, and a producer that lowers it is the one that must
//! broadcast.

use vstd::prelude::*;

use crate::error::{DequeueError, EnqueueError, TryEnqueueError};
use crate::queue::{QueueView, TryDequeueResult, VectoredQueue};
use crate::vectored::Vectored;

verus! {

/// A `VectoredQueue` together with the consumer-waiting flag of the
/// blocking wake protocol.
pub struct SyncVectoredQueue {
    queue: VectoredQueue,
    wait_dequeue: bool,
}

impl View for SyncVectoredQueue {
    type V = QueueView;

    closed spec fn view(&self) -> QueueView {
        self.queue@
    }
}

impl Default for SyncVectoredQueue {
    fn default() -> (q: SyncVectoredQueue)
        ensures
            q.wf(),
            q.waiting(),
            q@ == (QueueView {
                closed: false,
                held: false,
                filling: Seq::<Seq<u8>>::empty(),
                overflow: Seq::<Seq<u8>>::empty(),
                remaining: 0,
                capacity: 0,
                next_capacity: 0,
                target_capacity: 0,
            }),
    {
        SyncVectoredQueue::new()
    }
}

impl SyncVectoredQueue {
    pub closed spec fn wf(&self) -> bool {
        self.queue.wf()
    }

    /// Whether the consumer has announced that it is about to park.
    pub closed spec fn waiting(&self) -> bool {
        self.wait_dequeue
    }

    /// Whether `batch` is the batch whose ticket this queue holds.
    pub closed spec fn holds(&self, batch: &Vectored) -> bool {
        self.queue.holds(batch)
    }

    pub fn new() -> (q: SyncVectoredQueue)
        ensures
            q.wf(),
            q.waiting(),
            q@ == (QueueView {
                closed: false,
                held: false,
                filling: Seq::<Seq<u8>>::empty(),
                overflow: Seq::<Seq<u8>>::empty(),
                remaining: 0,
                capacity: 0,
                next_capacity: 0,
                target_capacity: 0,
            }),
    {
        Self::with_capacity(0)
    }

    pub fn with_capacity(capacity: usize) -> (q: SyncVectoredQueue)
        ensures
            q.wf(),
            q.waiting(),
            q@ == (QueueView {
                closed: false,
                held: false,
                filling: Seq::<Seq<u8>>::empty(),
                overflow: Seq::<Seq<u8>>::empty(),
                remaining: capacity as nat,
                capacity: capacity as nat,
                next_capacity: capacity as nat,
                target_capacity: capacity as nat,
            }),
    {
        SyncVectoredQueue { queue: VectoredQueue::with_capacity(capacity), wait_dequeue: true }
    }

    pub fn capacity(&self) -> (c: usize)
        requires
            self.wf(),
        ensures
            c == self@.capacity,
    {
        self.queue.capacity()
    }

    pub fn set_capacity(&mut self, capacity: usize)
        requires
            old(self).wf(),
        ensures
            final(self).wf(),
            final(self).waiting() == old(self).waiting(),
            final(self)@ == (QueueView {
                target_capacity: vstd::math::max(
                    old(self)@.target_capacity as int,
                    capacity as int,
                ) as nat,
                ..old(self)@
            }),
    {
        self.queue.set_capacity(capacity);
    }

    pub fn len(&self) -> (n: usize)
        requires
            self.wf(),
            self@.queued().len() <= usize::MAX,
        ensures
            n == self@.queued().len(),
    {
        self.queue.len()
    }

    pub fn is_empty(&self) -> (r: bool)
        requires
            self.wf(),
            self@.queued().len() <= usize::MAX,
        ensures
            r == (self@.queued().len() == 0),
    {
        self.queue.is_empty()
    }

    /// Sets the sticky closed flag. The embedding program must broadcast
    /// on its condition variable afterwards, so every parked waiter can
    /// observe the flag.
    pub fn close(&mut self)
        requires
            old(self).wf(),
        ensures
            final(self).wf(),
            final(self).waiting() == old(self).waiting(),
            final(self)@ == (QueueView { closed: true, ..old(self)@ }),
    {
        self.queue.close();
    }

    pub fn is_closed(&self) -> (r: bool)
        ensures
            r == self@.closed,
    {
        self.queue.is_closed()
    }

    pub fn reopen(&mut self)
        requires
            old(self).wf(),
        ensures
            final(self).wf(),
            final(self).waiting() == old(self).waiting(),
            final(self)@ == (QueueView { closed: false, ..old(self)@ }),
    {
        self.queue.reopen();
    }

    /// The producer side of the wake protocol: lowers the consumer's
    /// waiting flag and says whether this caller is the one that must
    /// signal the condition variable.
    pub fn wake_dequeue(&mut self) -> (wake: bool)
        requires
            old(self).wf(),
        ensures
            final(self).wf(),
            wake == old(self).waiting(),
            !final(self).waiting(),
            final(self)@ == old(self)@,
    {
        let was_waiting = self.wait_dequeue;
        self.wait_dequeue = false;
        was_waiting
    }

    /// The consumer side of the wake protocol: announces (or withdraws)
    /// that the consumer is about to park.
    pub fn set_wait_dequeue(&mut self, wait: bool)
        requires
            old(self).wf(),
        ensures
            final(self).wf(),
            final(self).waiting() == wait,
            final(self)@ == old(self)@,
    {
        self.wait_dequeue = wait;
    }

    /// Bounded enqueue; see `VectoredQueue::try_enqueue`. On success the
    /// embedding program consults `wake_dequeue`.
    pub fn try_enqueue(&mut self, bytes: Vec<u8>) -> (r: Result<(), TryEnqueueError>)
        requires
            old(self).wf(),
            !old(self)@.closed && old(self)@.remaining > 0 ==> old(self)@.queued_bytes()
                + bytes@.len() <= usize::MAX,
        ensures
            final(self).wf(),
            final(self).waiting() == old(self).waiting(),
            old(self)@.closed ==> r == Err::<(), TryEnqueueError>(TryEnqueueError::Closed(bytes))
                && final(self)@ == old(self)@,
            !old(self)@.closed && old(self)@.remaining == 0 ==> r == Err::<(), TryEnqueueError>(
                TryEnqueueError::Full(bytes),
            ) && final(self)@ == old(self)@,
            !old(self)@.closed && old(self)@.remaining > 0 ==> r == Ok::<(), TryEnqueueError>(())
                && final(self)@ == (QueueView {
                filling: old(self)@.filling.push(bytes@),
                remaining: (old(self)@.remaining - 1) as nat,
                ..old(self)@
            }) && final(self)@.queued() == old(self)@.queued().push(bytes@),
    {
        self.queue.try_enqueue(bytes)
    }

    /// Unbounded enqueue; see `VectoredQueue::enqueue_unbounded`.
    pub fn enqueue_unbounded(&mut self, bytes: Vec<u8>) -> (r: Result<(), EnqueueError>)
        requires
            old(self).wf(),
            !old(self)@.closed ==> old(self)@.queued_bytes() + bytes@.len() <= usize::MAX,
        ensures
            final(self).wf(),
            final(self).waiting() == old(self).waiting(),
            old(self)@.closed ==> r == Err::<(), EnqueueError>(EnqueueError(bytes)) && final(self)@
                == old(self)@,
            !old(self)@.closed ==> r == Ok::<(), EnqueueError>(()) && final(self)@.queued()
                == old(self)@.queued().push(bytes@),
            final(self)@.closed == old(self)@.closed,
            final(self)@.held == old(self)@.held,
            final(self)@.capacity >= old(self)@.capacity,
    {
        self.queue.enqueue_unbounded(bytes)
    }

    /// Single-consumer dequeue; see `VectoredQueue::try_dequeue`. After a
    /// batch comes out the embedding program broadcasts so that parked
    /// producers retry.
    pub fn try_dequeue_vectored(&mut self) -> (r: Result<TryDequeueResult, DequeueError>)
        requires
            old(self).wf(),
        ensures
            final(self).wf(),
            final(self).waiting() == old(self).waiting(),
            old(self)@.held ==> r == Err::<TryDequeueResult, DequeueError>(DequeueError::Conflict)
                && final(self)@ == old(self)@,
            !old(self)@.held && old(self)@.used() == 0 && old(self)@.closed ==> r == Err::<
                TryDequeueResult,
                DequeueError,
            >(DequeueError::Closed) && final(self)@ == old(self)@,
            !old(self)@.held && old(self)@.used() == 0 && !old(self)@.closed ==> (r matches Ok(
                TryDequeueResult::Empty,
            )) && final(self)@ == old(self)@,
            !old(self)@.held && old(self)@.used() > 0 ==> ({
                &&& r matches Ok(TryDequeueResult::Vectored(b))
                &&& b@.len() == old(self)@.used() + 2
                &&& b@[0] == Seq::<u8>::empty()
                &&& b@[b@.len() - 1] == Seq::<u8>::empty()
                &&& b.payloads() == old(self)@.filling
                &&& b.spec_total() == crate::bytes::sum_len(old(self)@.filling)
                &&& final(self).holds(&b)
                &&& old(self)@.queued() == b.payloads() + final(self)@.queued()
                &&& final(self)@ == (QueueView {
                    closed: old(self)@.closed,
                    held: true,
                    filling: old(self)@.overflow,
                    overflow: Seq::<Seq<u8>>::empty(),
                    remaining: (crate::queue::rotate_capacity(old(self)@) - old(self)@.overflow.len()) as nat,
                    capacity: crate::queue::rotate_capacity(old(self)@),
                    next_capacity: old(self)@.capacity,
                    target_capacity: crate::queue::rotate_capacity(old(self)@),
                })
                &&& final(self)@.capacity >= old(self)@.capacity
            }),
    {
        self.queue.try_dequeue()
    }

    /// Gives a batch back; see `VectoredQueue::release`.
    pub fn release(&mut self, batch: Vectored)
        requires
            old(self).wf(),
            old(self)@.held ==> old(self).holds(&batch),
        ensures
            final(self).wf(),
            final(self).waiting() == old(self).waiting(),
            old(self)@.held ==> final(self)@ == (QueueView { held: false, ..old(self)@ }),
            !old(self)@.held ==> final(self)@ == old(self)@,
    {
        self.queue.release(batch);
    }
}

} // verus!
