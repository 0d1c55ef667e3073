//! The batch handle lent to the consumer, and in-place framing of a
//! contiguous run of its slices.

use vstd::prelude::*;

use crate::bytes::views;

verus! {

/// The byte view of an optional payload.
pub open spec fn opt_view(o: Option<Vec<u8>>) -> Option<Seq<u8>> {
    match o {
        Some(v) => Some(v@),
        None => None,
    }
}

/// The slice array after framing slots are installed: `header`, if any,
/// replaces the slot at `start`; `trailer`, if any, replaces the slot at
/// `end + 1` (the slot right after the last selected payload).
pub open spec fn install_frame(
    s: Seq<Seq<u8>>,
    start: int,
    end: int,
    header: Option<Seq<u8>>,
    trailer: Option<Seq<u8>>,
) -> Seq<Seq<u8>> {
    let with_header = match header {
        Some(h) => s.update(start, h),
        None => s,
    };
    match trailer {
        Some(t) => with_header.update(end + 1, t),
        None => with_header,
    }
}

/// Framing neutrality: installing neither header nor trailer leaves the
/// slice array unchanged, and the framed sub-view is exactly the selected
/// run of payload slices.
pub proof fn lemma_frame_neutral(s: Seq<Seq<u8>>, start: int, end: int)
    requires
        0 <= start <= end,
        end + 2 <= s.len(),
    ensures
        install_frame(s, start, end, None, None) == s,
        install_frame(s, start, end, None, None).subrange(start + 1, end + 1) == s.subrange(
            start + 1,
            end + 1,
        ),
{
}

/// Header/trailer swap and restore: the installed array begins the framed
/// run with the header and ends it with the trailer, and installing the
/// displaced slots back restores the original array.
pub proof fn lemma_frame_swap_restore(
    s: Seq<Seq<u8>>,
    start: int,
    end: int,
    h: Seq<u8>,
    t: Seq<u8>,
)
    requires
        0 <= start <= end,
        end + 2 <= s.len(),
    ensures
        install_frame(s, start, end, Some(h), Some(t))[start] == h,
        install_frame(s, start, end, Some(h), Some(t))[end + 1] == t,
        install_frame(
            install_frame(s, start, end, Some(h), Some(t)),
            start,
            end,
            Some(s[start]),
            Some(s[end + 1]),
        ) == s,
{
    assert(install_frame(
        install_frame(s, start, end, Some(h), Some(t)),
        start,
        end,
        Some(s[start]),
        Some(s[end + 1]),
    ) =~= s);
}

/// A dequeued batch: the drained buffer's slice array, framing slots
/// included, and the pre-aggregated payload byte count. The queue's
/// dequeue ticket stays held until the handle is given back to
/// `VectoredQueue::release`.
#[derive(Debug)]
pub struct Vectored {
    pub(crate) buffer_index: usize,
    pub(crate) slices: Vec<Vec<u8>>,
    pub(crate) total_size: usize,
}

impl View for Vectored {
    type V = Seq<Seq<u8>>;

    closed spec fn view(&self) -> Seq<Seq<u8>> {
        views(self.slices@)
    }
}

impl Vectored {
    pub closed spec fn spec_total(&self) -> nat {
        self.total_size as nat
    }

    pub closed spec fn spec_index(&self) -> int {
        self.buffer_index as int
    }

    /// The payload slices alone, framing slots excluded.
    pub open spec fn payloads(&self) -> Seq<Seq<u8>>
        recommends
            self@.len() >= 2,
    {
        self@.subrange(1, self@.len() - 1)
    }

    pub(crate) fn from_parts(buffer_index: usize, slices: Vec<Vec<u8>>, total_size: usize) -> (v:
        Vectored)
        ensures
            v@ == views(slices@),
            v.spec_total() == total_size,
            v.spec_index() == buffer_index,
    {
        Vectored { buffer_index, slices, total_size }
    }

    pub(crate) fn index(&self) -> (i: usize)
        ensures
            i == self.spec_index(),
    {
        self.buffer_index
    }

    /// The pre-aggregated byte count of the payload slices; framing slots
    /// installed later are not counted.
    pub fn total_size(&self) -> (n: usize)
        ensures
            n == self.spec_total(),
    {
        self.total_size
    }

    /// Number of slices, the two framing slots included.
    pub fn slice_count(&self) -> (n: usize)
        ensures
            n == self@.len(),
    {
        self.slices.len()
    }

    pub fn slice_at(&self, i: usize) -> (s: &Vec<u8>)
        requires
            i < self@.len(),
        ensures
            s@ == self@[i as int],
    {
        &self.slices[i]
    }

    /// Installs an optional header in the slot at `start` and an optional
    /// trailer in the slot at `end + 1`, swapping out what was there. The
    /// returned frame remembers the displaced slots so that `unframe` can
    /// put them back.
    pub fn frame(
        &mut self,
        start: usize,
        end: usize,
        header: Option<Vec<u8>>,
        trailer: Option<Vec<u8>>,
    ) -> (f: VectoredFrame)
        requires
            start <= end,
            end + 2 <= old(self)@.len(),
        ensures
            final(self)@ == install_frame(
                old(self)@,
                start as int,
                end as int,
                opt_view(header),
                opt_view(trailer),
            ),
            final(self).spec_total() == old(self).spec_total(),
            final(self).spec_index() == old(self).spec_index(),
            f.wf(),
            f@ == (FrameView {
                start: start as int,
                end: end as int,
                header: match header {
                    Some(_) => Some(old(self)@[start as int]),
                    None => None,
                },
                trailer: match trailer {
                    Some(_) => Some(old(self)@[end as int + 1]),
                    None => None,
                },
            }),
    {
        let slice_count = self.slices.len();
        assert(end + 2 <= slice_count);
        let saved_header: Option<Vec<u8>> = match header {
            Some(h) => {
                let displaced = self.slices.remove(start);
                self.slices.insert(start, h);
                Some(displaced)
            },
            None => None,
        };
        let saved_trailer: Option<Vec<u8>> = match trailer {
            Some(t) => {
                let displaced = self.slices.remove(end + 1);
                self.slices.insert(end + 1, t);
                Some(displaced)
            },
            None => None,
        };
        proof {
            assert(views(self.slices@) =~= install_frame(
                old(self)@,
                start as int,
                end as int,
                opt_view(header),
                opt_view(trailer),
            ));
        }
        VectoredFrame { start, end, header: saved_header, trailer: saved_trailer }
    }

    /// Puts the slots displaced by `frame` back in place, undoing the
    /// framing so that later frames see the batch's own view again.
    pub fn unframe(&mut self, f: VectoredFrame)
        requires
            f.wf(),
            f@.end + 2 <= old(self)@.len(),
        ensures
            final(self)@ == install_frame(old(self)@, f@.start, f@.end, f@.header, f@.trailer),
            final(self).spec_total() == old(self).spec_total(),
            final(self).spec_index() == old(self).spec_index(),
    {
        let slice_count = self.slices.len();
        let VectoredFrame { start, end, header, trailer } = f;
        assert(end + 2 <= slice_count);
        if let Some(h) = header {
            let _displaced = self.slices.remove(start);
            self.slices.insert(start, h);
        }
        if let Some(t) = trailer {
            let _displaced = self.slices.remove(end + 1);
            self.slices.insert(end + 1, t);
        }
        proof {
            assert(views(self.slices@) =~= install_frame(
                old(self)@,
                f@.start,
                f@.end,
                f@.header,
                f@.trailer,
            ));
        }
    }
}

/// What a frame remembers: the framed range and the slots it displaced.
pub struct FrameView {
    pub start: int,
    pub end: int,
    pub header: Option<Seq<u8>>,
    pub trailer: Option<Seq<u8>>,
}

impl FrameView {
    /// First slice of the framed sub-view within the batch's slice array.
    pub open spec fn view_start(self) -> int {
        if self.header is Some {
            self.start
        } else {
            self.start + 1
        }
    }

    /// One past the last slice of the framed sub-view.
    pub open spec fn view_end(self) -> int {
        if self.trailer is Some {
            self.end + 2
        } else {
            self.end + 1
        }
    }
}

/// A sub-view over a framed run of a batch's slices. Dropping the framing
/// is explicit: `Vectored::unframe` restores the displaced slots.
#[derive(Debug)]
pub struct VectoredFrame {
    pub(crate) start: usize,
    pub(crate) end: usize,
    pub(crate) header: Option<Vec<u8>>,
    pub(crate) trailer: Option<Vec<u8>>,
}

impl View for VectoredFrame {
    type V = FrameView;

    closed spec fn view(&self) -> FrameView {
        FrameView {
            start: self.start as int,
            end: self.end as int,
            header: opt_view(self.header),
            trailer: opt_view(self.trailer),
        }
    }
}

impl VectoredFrame {
    pub closed spec fn wf(&self) -> bool {
        self.start <= self.end && self.end + 2 <= usize::MAX
    }

    /// Index of the first slice of the framed sub-view.
    pub fn view_start(&self) -> (i: usize)
        requires
            self.wf(),
        ensures
            i == self@.view_start(),
    {
        match self.header {
            Some(_) => self.start,
            None => self.start + 1,
        }
    }

    /// One past the index of the last slice of the framed sub-view.
    pub fn view_end(&self) -> (i: usize)
        requires
            self.wf(),
        ensures
            i == self@.view_end(),
    {
        match self.trailer {
            Some(_) => self.end + 2,
            None => self.end + 1,
        }
    }
}

} // verus!
