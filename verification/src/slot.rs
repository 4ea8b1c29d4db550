//! The slot that holds the most recent frame.
//!
//! One writer publishes into it; any number of readers look at it. A reader
//! that wants each frame once remembers the generation it saw last and asks
//! for a later one.

use vstd::prelude::*;
use crate::frame::{Frame, FrameView};

verus! {

/// What a slot is: the stored frame and the three words that describe it.
pub struct SlotView {
    pub frame: FrameView,
    pub ready: bool,
    pub generation: nat,
    pub stop_requested: bool,
}

/// What a reader that asks for a frame later than `last_seen` is told.
pub enum FreshView {
    /// A frame with a later generation is there.
    Fresh { frame: FrameView, generation: nat },
    /// Nothing new yet: the reader has to sleep until the slot changes.
    Pending,
    /// The slot was stopped: the reader has to give up.
    Stopped,
}

impl SlotView {
    /// The slot before anything was published.
    pub open spec fn initial() -> SlotView {
        SlotView { frame: FrameView::empty(), ready: false, generation: 0, stop_requested: false }
    }

    /// A slot is ready exactly when something was published, and until then
    /// it holds the empty frame.
    pub open spec fn wf(self) -> bool {
        &&& self.ready <==> self.generation > 0
        &&& !self.ready ==> self.frame == FrameView::empty()
    }

    /// The slot after `frame` was published into it.
    pub open spec fn publish(self, frame: FrameView) -> SlotView {
        SlotView { frame, ready: true, generation: self.generation + 1, ..self }
    }

    /// The slot after a stop was requested.
    pub open spec fn request_stop(self) -> SlotView {
        SlotView { stop_requested: true, ..self }
    }

    /// The current frame, if any was published.
    pub open spec fn peek(self) -> Option<FrameView> {
        if self.ready {
            Some(self.frame)
        } else {
            None
        }
    }

    /// The answer to a reader that saw generation `last_seen` last. A stop
    /// wins over a fresh frame.
    pub open spec fn poll_fresh(self, last_seen: nat) -> FreshView {
        if self.stop_requested {
            FreshView::Stopped
        } else if self.generation > last_seen {
            FreshView::Fresh { frame: self.frame, generation: self.generation }
        } else {
            FreshView::Pending
        }
    }
}

/// A frame together with the generation under which it was published.
#[derive(Debug)]
pub struct Observed {
    pub frame: Frame,
    pub generation: u64,
}

/// The outcome of one look at the slot by a reader that waits for a frame
/// it has not seen.
#[derive(Debug)]
pub enum WaitOutcome {
    /// A frame later than the one last seen.
    Fresh(Observed),
    /// No such frame yet: sleep until the slot changes, then look again.
    Pending,
    /// The slot was stopped.
    Stopped,
}

impl View for WaitOutcome {
    type V = FreshView;

    open spec fn view(&self) -> FreshView {
        match self {
            WaitOutcome::Fresh(o) => FreshView::Fresh {
                frame: o.frame@,
                generation: o.generation as nat,
            },
            WaitOutcome::Pending => FreshView::Pending,
            WaitOutcome::Stopped => FreshView::Stopped,
        }
    }
}

/// The single-slot holder of the most recent frame.
#[derive(Debug)]
pub struct FrameSlot {
    frame: Frame,
    ready: bool,
    generation: u64,
    stop_requested: bool,
}

impl View for FrameSlot {
    type V = SlotView;

    closed spec fn view(&self) -> SlotView {
        SlotView {
            frame: self.frame@,
            ready: self.ready,
            generation: self.generation as nat,
            stop_requested: self.stop_requested,
        }
    }
}

impl FrameSlot {
    /// The slot's invariant, and that its counter fits the machine word.
    pub open spec fn wf(&self) -> bool {
        self@.wf() && self@.generation <= u64::MAX
    }

    /// A slot that holds no frame yet.
    pub fn new() -> (s: FrameSlot)
        ensures
            s.wf(),
            s@ == SlotView::initial(),
    {
        FrameSlot { frame: Frame::empty(), ready: false, generation: 0, stop_requested: false }
    }

    /// Whether at least one frame was published.
    pub fn is_ready(&self) -> (b: bool)
        ensures
            b == self@.ready,
    {
        self.ready
    }

    /// The number of frames published so far.
    pub fn generation(&self) -> (g: u64)
        ensures
            g == self@.generation,
    {
        self.generation
    }

    /// Whether a stop was requested.
    pub fn stop_requested(&self) -> (b: bool)
        ensures
            b == self@.stop_requested,
    {
        self.stop_requested
    }

    /// Whether the generation counter has room for one more publish.
    pub fn can_publish(&self) -> (b: bool)
        ensures
            b == (self@.generation < u64::MAX),
    {
        self.generation < u64::MAX
    }

    /// The stored frame as it is: the empty frame until the first publish.
    pub fn stored(&self) -> (f: &Frame)
        ensures
            f@ == self@.frame,
    {
        &self.frame
    }

    /// Stores `frame` as the most recent one. The whole frame is exchanged
    /// at once, the slot becomes ready and the generation grows by one. The
    /// caller wakes the readers that sleep on the slot.
    pub fn publish(&mut self, frame: Frame)
        requires
            old(self).wf(),
            old(self)@.generation < u64::MAX,
        ensures
            final(self).wf(),
            final(self)@ == old(self)@.publish(frame@),
    {
        self.frame = frame;
        self.ready = true;
        self.generation = self.generation + 1;
    }

    /// The current frame without waiting: a copy of it if one was
    /// published, `None` before the first publish.
    pub fn peek(&self) -> (r: Option<Frame>)
        ensures
            match r {
                Some(f) => self@.peek() == Some(f@),
                None => self@.peek().is_none(),
            },
    {
        if self.ready {
            Some(self.frame.clone())
        } else {
            None
        }
    }

    /// One look by a reader that waits for a frame later than `last_seen`:
    /// `Stopped` once a stop was requested, else a copy of the current frame
    /// with its generation if that is later than `last_seen`, else `Pending`.
    pub fn poll_fresh(&self, last_seen: u64) -> (r: WaitOutcome)
        ensures
            r@ == self@.poll_fresh(last_seen as nat),
    {
        if self.stop_requested {
            WaitOutcome::Stopped
        } else if self.generation > last_seen {
            WaitOutcome::Fresh(Observed { frame: self.frame.clone(), generation: self.generation })
        } else {
            WaitOutcome::Pending
        }
    }

    /// Asks everyone to stop. The flag is never cleared again. The caller
    /// wakes the readers that sleep on the slot, so that they see it.
    pub fn request_stop(&mut self)
        ensures
            final(self)@ == old(self)@.request_stop(),
            old(self).wf() ==> final(self).wf(),
    {
        self.stop_requested = true;
    }
}

} // verus!
