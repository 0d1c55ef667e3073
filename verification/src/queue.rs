//! The core queue: multi-producer / single-consumer coordination over two
//! slice buffers, with an overflow holding area for unbounded enqueues.

use vstd::math::max;
use vstd::prelude::*;

use crate::buffer::Buffer;
use crate::bytes::{
    lemma_sum_len_append, lemma_sum_len_nonneg, lemma_sum_len_push, lemma_sum_len_take_le,
    lemma_sum_len_take_step, sum_len, views,
};
use crate::error::{DequeueError, EnqueueError, TryEnqueueError};
use crate::vectored::Vectored;

verus! {

/// The dequeue ticket: `Armed` points the next dequeue at the buffer the
/// producers are filling; `Held` records that a consumer holds a batch of
/// the named buffer and excludes every other consumer.
#[derive(Clone, Copy)]
enum DequeueState {
    Armed { index: usize },
    Held { index: usize },
}

/// Abstract state of the queue.
#[verifier::ext_equal]
pub struct QueueView {
    /// The sticky closed flag.
    pub closed: bool,
    /// Whether a consumer currently holds a batch.
    pub held: bool,
    /// Payloads already inserted into the active buffer, in slot order.
    pub filling: Seq<Seq<u8>>,
    /// Payloads spilled by unbounded enqueues while the active buffer was
    /// full, in arrival order.
    pub overflow: Seq<Seq<u8>>,
    /// Free slots left in the active buffer.
    pub remaining: nat,
    /// Capacity of the active buffer; what `capacity()` reports.
    pub capacity: nat,
    /// Capacity of the inactive buffer.
    pub next_capacity: nat,
    /// Capacity hint applied to the incoming buffer at the next rotation.
    pub target_capacity: nat,
}

impl QueueView {
    /// Every payload the queue still owes to the consumer.
    pub open spec fn queued(self) -> Seq<Seq<u8>> {
        self.filling + self.overflow
    }

    /// Filled slots of the active buffer.
    pub open spec fn used(self) -> nat {
        self.filling.len()
    }

    /// Bytes owed to the consumer.
    pub open spec fn queued_bytes(self) -> int {
        sum_len(self.queued())
    }
}

/// A batching byte-payload queue. Producers enqueue owned payloads one by
/// one; the consumer dequeues everything at once as a `Vectored` batch.
/// Two buffers rotate: one fills while the other drains.
pub struct VectoredQueue {
    closed: bool,
    active: usize,
    remaining: usize,
    capacity: usize,
    pending: DequeueState,
    buf0: Buffer,
    buf1: Buffer,
    overflow: Vec<Vec<u8>>,
}

impl View for VectoredQueue {
    type V = QueueView;

    closed spec fn view(&self) -> QueueView {
        QueueView {
            closed: self.closed,
            held: self.pending is Held,
            filling: self.active_buf().contents(),
            overflow: views(self.overflow@),
            remaining: self.remaining as nat,
            capacity: self.active_buf().capacity as nat,
            next_capacity: self.inactive_buf().capacity as nat,
            target_capacity: self.capacity as nat,
        }
    }
}

impl Default for VectoredQueue {
    fn default() -> (q: VectoredQueue)
        ensures
            q.wf(),
            q@ == (QueueView {
                closed: false,
                held: false,
                filling: Seq::<Seq<u8>>::empty(),
                overflow: Seq::<Seq<u8>>::empty(),
                remaining: 0,
                capacity: 0,
                next_capacity: 0,
                target_capacity: 0,
            }),
    {
        VectoredQueue::new()
    }
}

impl VectoredQueue {
    spec fn active_buf(&self) -> Buffer {
        if self.active == 0 {
            self.buf0
        } else {
            self.buf1
        }
    }

    spec fn inactive_buf(&self) -> Buffer {
        if self.active == 0 {
            self.buf1
        } else {
            self.buf0
        }
    }

    /// The queue's internal invariant.
    pub closed spec fn wf(&self) -> bool {
        &&& self.active == 0 || self.active == 1
        &&& self.buf0.wf()
        &&& self.buf1.wf()
        &&& self.remaining <= self.active_buf().capacity
        &&& self.active_buf().contents().len() == self.active_buf().capacity - self.remaining
        &&& self.inactive_buf().contents().len() == 0
        &&& self.inactive_buf().total_size == 0
        &&& self.capacity >= self.buf0.capacity
        &&& self.capacity >= self.buf1.capacity
        &&& self.active_buf().capacity >= self.inactive_buf().capacity
        &&& match self.pending {
            DequeueState::Armed { index } => index == self.active,
            DequeueState::Held { index } => index == 1 - self.active,
        }
        &&& self.overflow@.len() > 0 ==> self.remaining == 0 && self.active_buf().capacity > 0
        &&& sum_len(views(self.overflow@)) <= usize::MAX
    }

    /// Whether `batch` is the batch whose ticket this queue holds.
    pub closed spec fn holds(&self, batch: &Vectored) -> bool {
        match self.pending {
            DequeueState::Held { index } => batch.spec_index() == index,
            DequeueState::Armed { .. } => false,
        }
    }

    pub fn new() -> (q: VectoredQueue)
        ensures
            q.wf(),
            q@ == (QueueView {
                closed: false,
                held: false,
                filling: Seq::<Seq<u8>>::empty(),
                overflow: Seq::<Seq<u8>>::empty(),
                remaining: 0,
                capacity: 0,
                next_capacity: 0,
                target_capacity: 0,
            }),
    {
        Self::with_capacity(0)
    }

    pub fn with_capacity(capacity: usize) -> (q: VectoredQueue)
        ensures
            q.wf(),
            q@ == (QueueView {
                closed: false,
                held: false,
                filling: Seq::<Seq<u8>>::empty(),
                overflow: Seq::<Seq<u8>>::empty(),
                remaining: capacity as nat,
                capacity: capacity as nat,
                next_capacity: capacity as nat,
                target_capacity: capacity as nat,
            }),
    {
        let q = VectoredQueue {
            closed: false,
            active: 0,
            remaining: capacity,
            capacity,
            pending: DequeueState::Armed { index: 0 },
            buf0: Buffer::with_capacity(capacity),
            buf1: Buffer::with_capacity(capacity),
            overflow: Vec::new(),
        };
        proof {
            assert(views(q.overflow@) =~= Seq::<Seq<u8>>::empty());
            assert(q@ =~= (QueueView {
                closed: false,
                held: false,
                filling: Seq::<Seq<u8>>::empty(),
                overflow: Seq::<Seq<u8>>::empty(),
                remaining: capacity as nat,
                capacity: capacity as nat,
                next_capacity: capacity as nat,
                target_capacity: capacity as nat,
            }));
        }
        q
    }

    /// Capacity of the buffer the producers are currently filling.
    pub fn capacity(&self) -> (c: usize)
        requires
            self.wf(),
        ensures
            c == self@.capacity,
    {
        if self.active == 0 {
            self.buf0.capacity()
        } else {
            self.buf1.capacity()
        }
    }

    /// Raises the capacity applied at the next rotation; never lowers it.
    pub fn set_capacity(&mut self, capacity: usize)
        requires
            old(self).wf(),
        ensures
            final(self).wf(),
            final(self)@ == (QueueView {
                target_capacity: max(old(self)@.target_capacity as int, capacity as int) as nat,
                ..old(self)@
            }),
    {
        if capacity > self.capacity {
            self.capacity = capacity;
        }
    }

    /// Payloads currently queued: the active buffer's count plus the
    /// overflow count.
    pub fn len(&self) -> (n: usize)
        requires
            self.wf(),
            self@.queued().len() <= usize::MAX,
        ensures
            n == self@.queued().len(),
    {
        let filled = if self.active == 0 {
            self.buf0.len()
        } else {
            self.buf1.len()
        };
        filled + self.overflow.len()
    }

    pub fn is_empty(&self) -> (r: bool)
        requires
            self.wf(),
            self@.queued().len() <= usize::MAX,
        ensures
            r == (self@.queued().len() == 0),
    {
        self.len() == 0
    }

    /// Sets the sticky closed flag; nothing else changes.
    pub fn close(&mut self)
        requires
            old(self).wf(),
        ensures
            final(self).wf(),
            final(self)@ == (QueueView { closed: true, ..old(self)@ }),
    {
        self.closed = true;
    }

    pub fn is_closed(&self) -> (r: bool)
        ensures
            r == self@.closed,
    {
        self.closed
    }

    /// Clears the closed flag, letting producers enqueue again.
    pub fn reopen(&mut self)
        requires
            old(self).wf(),
        ensures
            final(self).wf(),
            final(self)@ == (QueueView { closed: false, ..old(self)@ }),
    {
        self.closed = false;
    }

    /// Bounded enqueue: takes a slot of the active buffer if the queue is
    /// open and a slot remains, and returns the payload inside the error
    /// otherwise.
    pub fn try_enqueue(&mut self, bytes: Vec<u8>) -> (r: Result<(), TryEnqueueError>)
        requires
            old(self).wf(),
            !old(self)@.closed && old(self)@.remaining > 0 ==> old(self)@.queued_bytes()
                + bytes@.len() <= usize::MAX,
        ensures
            final(self).wf(),
            old(self)@.closed ==> r == Err::<(), TryEnqueueError>(TryEnqueueError::Closed(bytes))
                && *final(self) == *old(self),
            !old(self)@.closed && old(self)@.remaining == 0 ==> r == Err::<(), TryEnqueueError>(
                TryEnqueueError::Full(bytes),
            ) && *final(self) == *old(self),
            !old(self)@.closed && old(self)@.remaining > 0 ==> r == Ok::<(), TryEnqueueError>(())
                && final(self)@ == (QueueView {
                filling: old(self)@.filling.push(bytes@),
                remaining: (old(self)@.remaining - 1) as nat,
                ..old(self)@
            }) && final(self)@.queued() == old(self)@.queued().push(bytes@),
    {
        if self.closed {
            return Err(TryEnqueueError::Closed(bytes));
        }
        if self.remaining == 0 {
            return Err(TryEnqueueError::Full(bytes));
        }
        proof {
            lemma_sum_len_nonneg(self@.overflow);
            lemma_sum_len_nonneg(self@.filling);
            lemma_sum_len_append(self@.filling, self@.overflow);
        }
        let slot = self.remaining;
        self.remaining = self.remaining - 1;
        if self.active == 0 {
            self.buf0.insert(slot, bytes);
        } else {
            self.buf1.insert(slot, bytes);
        }
        proof {
            assert(self@.queued() =~= old(self)@.queued().push(bytes@));
        }
        Ok(())
    }

    /// Unbounded enqueue: never reports `Full`. A payload that finds the
    /// active buffer full goes to the overflow holding area, after growing
    /// the queue to capacity one if it still has capacity zero.
    pub fn enqueue_unbounded(&mut self, bytes: Vec<u8>) -> (r: Result<(), EnqueueError>)
        requires
            old(self).wf(),
            !old(self)@.closed ==> old(self)@.queued_bytes() + bytes@.len() <= usize::MAX,
        ensures
            final(self).wf(),
            old(self)@.closed ==> r == Err::<(), EnqueueError>(EnqueueError(bytes)) && *final(self)
                == *old(self),
            !old(self)@.closed ==> r == Ok::<(), EnqueueError>(()) && final(self)@.queued()
                == old(self)@.queued().push(bytes@),
            !old(self)@.closed && old(self)@.remaining > 0 ==> final(self)@ == (QueueView {
                filling: old(self)@.filling.push(bytes@),
                remaining: (old(self)@.remaining - 1) as nat,
                ..old(self)@
            }),
            !old(self)@.closed && old(self)@.remaining == 0 && old(self)@.capacity > 0 ==> final(self)@ == (QueueView { overflow: old(self)@.overflow.push(bytes@), ..old(self)@ }),
            !old(self)@.closed && old(self)@.remaining == 0 && old(self)@.capacity == 0 ==> final(self)@ == (QueueView {
                filling: seq![bytes@],
                remaining: 0,
                capacity: 1,
                next_capacity: 1,
                target_capacity: max(old(self)@.target_capacity as int, 1) as nat,
                ..old(self)@
            }),
            final(self)@.closed == old(self)@.closed,
            final(self)@.held == old(self)@.held,
            final(self)@.capacity >= old(self)@.capacity,
    {
        if self.closed {
            return Err(EnqueueError(bytes));
        }
        proof {
            lemma_sum_len_nonneg(self@.overflow);
            lemma_sum_len_nonneg(self@.filling);
            lemma_sum_len_append(self@.filling, self@.overflow);
        }
        if self.remaining > 0 {
            let slot = self.remaining;
            self.remaining = self.remaining - 1;
            if self.active == 0 {
                self.buf0.insert(slot, bytes);
            } else {
                self.buf1.insert(slot, bytes);
            }
            proof {
                assert(self@.queued() =~= old(self)@.queued().push(bytes@));
            }
            return Ok(());
        }
        let capa = if self.active == 0 {
            self.buf0.capacity()
        } else {
            self.buf1.capacity()
        };
        if capa == 0 {
            self.set_capacity(1);
            self.buf0.resize(1);
            self.buf1.resize(1);
            self.remaining = 1;
            let slot = self.remaining;
            self.remaining = self.remaining - 1;
            if self.active == 0 {
                self.buf0.insert(slot, bytes);
            } else {
                self.buf1.insert(slot, bytes);
            }
            proof {
                assert(old(self)@.filling =~= Seq::<Seq<u8>>::empty());
                assert(old(self)@.overflow =~= Seq::<Seq<u8>>::empty());
                assert(self@.filling =~= seq![bytes@]);
                assert(self@.queued() =~= old(self)@.queued().push(bytes@));
            }
            return Ok(());
        }
        proof {
            lemma_sum_len_push(self@.overflow, bytes@);
        }
        self.overflow.push(bytes);
        proof {
            assert(views(self.overflow@) =~= old(self)@.overflow.push(bytes@));
            assert(self@.queued() =~= old(self)@.queued().push(bytes@));
        }
        Ok(())
    }

    /// Single-consumer dequeue. Rotates the buffers, pre-fills the new
    /// active buffer with the overflow, and hands the drained buffer out
    /// as a batch; the ticket stays held until `release`.
    pub fn try_dequeue(&mut self) -> (r: Result<TryDequeueResult, DequeueError>)
        requires
            old(self).wf(),
        ensures
            final(self).wf(),
            old(self)@.held ==> r == Err::<TryDequeueResult, DequeueError>(DequeueError::Conflict)
                && *final(self) == *old(self),
            !old(self)@.held && old(self)@.used() == 0 && old(self)@.closed ==> r == Err::<
                TryDequeueResult,
                DequeueError,
            >(DequeueError::Closed) && *final(self) == *old(self),
            !old(self)@.held && old(self)@.used() == 0 && !old(self)@.closed ==> (r matches Ok(
                TryDequeueResult::Empty,
            )) && *final(self) == *old(self),
            !old(self)@.held && old(self)@.used() > 0 ==> ({
                &&& r matches Ok(TryDequeueResult::Vectored(b))
                &&& b@.len() == old(self)@.used() + 2
                &&& b@[0] == Seq::<u8>::empty()
                &&& b@[b@.len() - 1] == Seq::<u8>::empty()
                &&& b.payloads() == old(self)@.filling
                &&& b.spec_total() == sum_len(old(self)@.filling)
                &&& final(self).holds(&b)
                &&& old(self)@.queued() == b.payloads() + final(self)@.queued()
                &&& b.spec_total() + sum_len(final(self)@.queued()) == sum_len(old(self)@.queued())
                &&& final(self)@ == (QueueView {
                    closed: old(self)@.closed,
                    held: true,
                    filling: old(self)@.overflow,
                    overflow: Seq::<Seq<u8>>::empty(),
                    remaining: (rotate_capacity(old(self)@) - old(self)@.overflow.len()) as nat,
                    capacity: rotate_capacity(old(self)@),
                    next_capacity: old(self)@.capacity,
                    target_capacity: rotate_capacity(old(self)@),
                })
                &&& final(self)@.capacity >= old(self)@.capacity
            }),
    {
        let drain_index = match self.pending {
            DequeueState::Held { .. } => {
                return Err(DequeueError::Conflict);
            },
            DequeueState::Armed { index } => index,
        };
        proof {
            assert(drain_index == self.active);
        }
        let buffer_capa = if drain_index == 0 {
            self.buf0.capacity()
        } else {
            self.buf1.capacity()
        };
        let used = buffer_capa - self.remaining;
        if used == 0 {
            return if self.closed {
                Err(DequeueError::Closed)
            } else {
                Ok(TryDequeueResult::Empty)
            };
        }
        let mut spill: Vec<Vec<u8>> = Vec::new();
        core::mem::swap(&mut spill, &mut self.overflow);
        let ghost spill0 = spill@;
        let spill_len = spill.len();
        let next_cap = if drain_index == 0 {
            self.buf1.capacity()
        } else {
            self.buf0.capacity()
        };
        let grown = if next_cap <= usize::MAX - spill_len {
            next_cap + spill_len
        } else {
            usize::MAX
        };
        let next_capa = if grown < self.capacity {
            self.capacity
        } else {
            grown
        };
        if next_capa > self.capacity {
            self.capacity = next_capa;
        }
        let (payloads, total) = if drain_index == 0 {
            rotate(&mut self.buf0, &mut self.buf1, spill, next_capa, used)
        } else {
            rotate(&mut self.buf1, &mut self.buf0, spill, next_capa, used)
        };
        self.remaining = next_capa - spill_len;
        self.active = 1 - drain_index;
        self.pending = DequeueState::Held { index: drain_index };
        let ghost payloads0 = payloads@;
        let mut slices: Vec<Vec<u8>> = Vec::new();
        slices.push(Vec::new());
        let mut payloads = payloads;
        slices.append(&mut payloads);
        slices.push(Vec::new());
        let batch = Vectored::from_parts(drain_index, slices, total);
        proof {
            assert(views(self.overflow@) =~= Seq::<Seq<u8>>::empty());
            assert(batch@ =~= seq![Seq::<u8>::empty()] + views(payloads0) + seq![
                Seq::<u8>::empty(),
            ]);
            assert(batch.payloads() =~= views(payloads0));
            lemma_sum_len_append(old(self)@.filling, old(self)@.overflow);
            lemma_sum_len_append(self@.filling, self@.overflow);
            assert(self@.queued() =~= old(self)@.overflow);
            assert(old(self)@.queued() =~= batch.payloads() + self@.queued());
            assert(self@ =~= (QueueView {
                closed: old(self)@.closed,
                held: true,
                filling: old(self)@.overflow,
                overflow: Seq::<Seq<u8>>::empty(),
                remaining: (rotate_capacity(old(self)@) - old(self)@.overflow.len()) as nat,
                capacity: rotate_capacity(old(self)@),
                next_capacity: old(self)@.capacity,
                target_capacity: rotate_capacity(old(self)@),
            }));
        }
        Ok(TryDequeueResult::Vectored(batch))
    }

    /// Gives a batch back: the drained buffer is cleared for reuse and
    /// the dequeue ticket is re-armed at the buffer the producers are
    /// now filling. Giving back anything while no batch is out changes
    /// nothing.
    pub fn release(&mut self, batch: Vectored)
        requires
            old(self).wf(),
            old(self)@.held ==> old(self).holds(&batch),
        ensures
            final(self).wf(),
            old(self)@.held ==> final(self)@ == (QueueView { held: false, ..old(self)@ }),
            !old(self)@.held ==> *final(self) == *old(self),
    {
        match self.pending {
            DequeueState::Held { index } => {
                if batch.index() == 0 {
                    self.buf0.clear();
                } else {
                    self.buf1.clear();
                }
                self.pending = DequeueState::Armed { index: 1 - index };
                proof {
                    assert(self@ =~= (QueueView { held: false, ..old(self)@ }));
                }
            },
            DequeueState::Armed { .. } => {},
        }
    }
}

/// Capacity given to the incoming buffer at a rotation: room for the
/// spilled payloads on top of its old capacity, raised at least to the
/// target capacity, and saturating at the machine limit.
pub open spec fn rotate_capacity(v: QueueView) -> nat {
    let grown = if v.next_capacity + v.overflow.len() <= usize::MAX {
        v.next_capacity + v.overflow.len()
    } else {
        usize::MAX as nat
    };
    max(grown as int, v.target_capacity as int) as nat
}

/// Grows the incoming buffer, pre-fills it with the spilled payloads in
/// arrival order, and takes the drained buffer's slots and byte total.
fn rotate(
    drain: &mut Buffer,
    next: &mut Buffer,
    spill: Vec<Vec<u8>>,
    next_capa: usize,
    used: usize,
) -> (r: (Vec<Vec<u8>>, usize))
    requires
        old(drain).wf(),
        old(next).wf(),
        old(next).contents().len() == 0,
        old(next).spec_total() == 0,
        used == old(drain).contents().len(),
        spill@.len() <= next_capa,
        old(next).spec_capacity() <= next_capa,
        sum_len(views(spill@)) <= usize::MAX,
    ensures
        final(drain).wf(),
        final(next).wf(),
        views(r.0@) == old(drain).contents(),
        r.0@.len() == used,
        r.1 == old(drain).spec_total(),
        final(drain).contents().len() == 0,
        final(drain).spec_total() == 0,
        final(drain).spec_capacity() == old(drain).spec_capacity(),
        final(next).spec_capacity() == next_capa,
        final(next).contents() == views(spill@),
        final(next).spec_total() == sum_len(views(spill@)),
{
    next.resize(next_capa);
    let ghost spill0 = spill@;
    let ghost sv = views(spill@);
    let mut spill = spill;
    let spill_len = spill.len();
    let mut k: usize = 0;
    while k < spill_len
        invariant
            k <= spill_len,
            spill_len == spill0.len(),
            spill@ == spill0.skip(k as int),
            next.wf(),
            next.spec_capacity() == next_capa,
            spill_len <= next_capa,
            next.contents() == sv.take(k as int),
            next.spec_total() == sum_len(sv.take(k as int)),
            sv == views(spill0),
            sum_len(sv) <= usize::MAX,
        decreases spill_len - k,
    {
        let bytes = spill.remove(0);
        proof {
            assert(bytes == spill0[k as int]);
            lemma_sum_len_take_step(sv, k as int);
            lemma_sum_len_take_le(sv, k as int + 1);
        }
        next.insert(next_capa - k, bytes);
        proof {
            assert(next.contents() =~= sv.take(k as int + 1));
            assert(spill@ =~= spill0.skip(k as int + 1));
        }
        k = k + 1;
    }
    proof {
        assert(sv.take(spill_len as int) =~= sv);
    }
    drain.snapshot(used)
}

/// What a dequeue attempt yielded when it did not fail outright.
#[derive(Debug)]
pub enum TryDequeueResult {
    /// Both buffers were empty and the queue is open.
    Empty,
    /// A producer's insert was observed incomplete. The contracts of this
    /// queue rule it out — its operations are serialized, so a snapshot is
    /// always complete — but callers treat the result exhaustively and
    /// retry on it.
    Pending,
    /// The drained batch; the ticket stays held until it is released.
    Vectored(Vectored),
}

impl TryDequeueResult {
    /// The batch, if this result carries one.
    pub fn vectored(self) -> (r: Option<Vectored>)
        ensures
            match self {
                TryDequeueResult::Vectored(v) => r == Some(v),
                _ => r == None::<Vectored>,
            },
    {
        match self {
            TryDequeueResult::Vectored(v) => Some(v),
            _ => None,
        }
    }
}

} // verus!
