//! The publish/consume synchronization point: a double-buffered slot holding
//! the most recent converted frame.
//!
//! The producer writes into the back slot and raises the swap-pending
//! indicator; a consumer that finds the indicator set copies back to front
//! and clears it. The embedding application guards each of these two
//! operations with its lock, so the producer is never blocked for longer
//! than one frame-sized copy. Consumers only ever see fully written frames:
//! the indicator is the sole signal that the back slot is ready to become
//! the front.

use vstd::prelude::*;

use crate::frame::CaptureFrame;
use crate::frame::FrameView;
use crate::math::bump;
use crate::math::spec_bump;

verus! {

/// Mathematical value of a `FrameBuffer`.
#[verifier::ext_equal]
pub struct BufferView {
    pub front: Option<FrameView>,
    pub back: Option<FrameView>,
    pub swap_pending: bool,
    pub writes: u64,
}

impl BufferView {
    /// Both slots hold only well-formed frames, the indicator is only raised
    /// over a written back slot, and the back slot is never older than the
    /// front.
    pub open spec fn wf(self) -> bool {
        &&& (self.front is Some ==> self.front->0.wf())
        &&& (self.back is Some ==> self.back->0.wf())
        &&& (self.swap_pending ==> self.back is Some)
        &&& (self.front is Some && self.back is Some ==> self.front->0.seq <= self.back->0.seq)
    }

    /// Sequence number of the newest frame held, or -1 when none has ever
    /// been published.
    pub open spec fn latest_seq(self) -> int {
        if self.back is Some {
            self.back->0.seq as int
        } else if self.front is Some {
            self.front->0.seq as int
        } else {
            -1
        }
    }

    /// The most recently completed frame, from the consumer's point of view:
    /// the back slot once the indicator is raised, the front slot otherwise.
    pub open spec fn latest(self) -> Option<FrameView> {
        if self.swap_pending {
            self.back
        } else {
            self.front
        }
    }
}

/// The double-buffered frame slot. The `writes` field counts every producer
/// write, so a test can observe that a stopped producer writes no more.
pub struct FrameBuffer {
    front: Option<CaptureFrame>,
    back: Option<CaptureFrame>,
    swap_pending: bool,
    writes: u64,
}

impl View for FrameBuffer {
    type V = BufferView;

    closed spec fn view(&self) -> BufferView {
        BufferView {
            front: match self.front {
                Some(f) => Some(f@),
                None => None,
            },
            back: match self.back {
                Some(f) => Some(f@),
                None => None,
            },
            swap_pending: self.swap_pending,
            writes: self.writes,
        }
    }
}

impl FrameBuffer {
    /// An empty buffer: no frame has ever been published.
    pub fn new() -> (r: FrameBuffer)
        ensures
            r@ == (BufferView { front: None, back: None, swap_pending: false, writes: 0 }),
            r@.wf(),
    {
        let r = FrameBuffer { front: None, back: None, swap_pending: false, writes: 0 };
        assert(r@ =~= BufferView { front: None, back: None, swap_pending: false, writes: 0 });
        r
    }

    /// Producer side: writes `f` into the back slot and raises the
    /// swap-pending indicator. The front slot — what a consumer between
    /// swaps is reading — is untouched.
    pub fn publish(&mut self, f: CaptureFrame)
        requires
            old(self)@.wf(),
            f@.wf(),
            f@.seq >= old(self)@.latest_seq(),
        ensures
            final(self)@ == (BufferView {
                front: old(self)@.front,
                back: Some(f@),
                swap_pending: true,
                writes: spec_bump(old(self)@.writes),
            }),
            final(self)@.wf(),
    {
        self.back = Some(f);
        self.swap_pending = true;
        self.writes = bump(self.writes);
        assert(self@ =~= BufferView {
            front: old(self)@.front,
            back: self@.back,
            swap_pending: true,
            writes: spec_bump(old(self)@.writes),
        });
    }

    /// How many times the producer has written into this buffer.
    pub fn write_count(&self) -> (r: u64)
        ensures
            r == self@.writes,
    {
        self.writes
    }

    /// Consumer side: swaps the back slot to the front if a swap is pending,
    /// then hands out an owned copy of the front. Never returns a torn or
    /// in-progress frame; returns `None` only before the first successful
    /// capture. The returned frame always agrees with its declared geometry,
    /// and what consecutive calls see never rewinds to an older frame.
    pub fn get_frame(&mut self) -> (r: Option<CaptureFrame>)
        requires
            old(self)@.wf(),
        ensures
            final(self)@.wf(),
            final(self)@.writes == old(self)@.writes,
            final(self)@.back == old(self)@.back,
            final(self)@.swap_pending == false,
            final(self)@.front == old(self)@.latest(),
            r is Some <==> old(self)@.latest() is Some,
            r is Some ==> r->0@ == old(self)@.latest()->0,
            r is Some ==> r->0@.wf(),
            old(self)@.front is Some ==> final(self)@.front is Some
                && final(self)@.front->0.seq >= old(self)@.front->0.seq,
    {
        if self.swap_pending {
            let copied: Option<CaptureFrame> = match &self.back {
                Some(b) => Some(b.duplicate()),
                None => None,
            };
            if copied.is_some() {
                self.front = copied;
            }
            self.swap_pending = false;
        }
        match &self.front {
            Some(f) => Some(f.duplicate()),
            None => None,
        }
    }
}

} // verus!
