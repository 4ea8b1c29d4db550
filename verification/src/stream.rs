//! A stream: one slot, the capture loop that fills it, and the operations
//! that the stream's owner and its consumers have on both.

use vstd::prelude::*;
use crate::capture::{
    limit_view, CaptureLoop, DeviceEvent, EventView, LoopAction, LoopState, LoopView, StreamError,
    DEFAULT_FAILURE_LIMIT,
};
use crate::frame::{Frame, FrameView};
use crate::slot::{FrameSlot, FreshView, SlotView, WaitOutcome};

verus! {

/// What to do with the stored frame when it is to be shown.
#[derive(Clone, Copy, Debug, PartialEq, Eq, Structural)]
pub enum ShowAction {
    /// The frame has an area: draw it.
    Display,
    /// A dimension is zero or negative: draw nothing.
    SkipInvalidDimensions,
}

/// What the one who started a stream is told about the start.
#[derive(Clone, Copy, Debug, PartialEq, Eq, Structural)]
pub enum StartOutcome {
    /// The device is not open yet: wait.
    Pending,
    /// The device was opened.
    Started,
    /// The device could not be opened: there is no stream.
    Failed(StreamError),
}

/// What a stream is: the device it reads, its slot and its capture loop.
pub struct StreamView {
    pub device_index: int,
    pub slot: SlotView,
    pub capture: LoopView,
}

impl StreamView {
    /// The stream before its loop has done anything.
    pub open spec fn initial(device_index: int, limit: Option<nat>) -> StreamView {
        StreamView { device_index, slot: SlotView::initial(), capture: LoopView::initial(limit) }
    }

    /// The slot is well formed, and a stream that ended with an error has
    /// stopped its slot and writes no more.
    pub open spec fn wf(self) -> bool {
        &&& self.slot.wf()
        &&& self.capture.error is Some ==> self.slot.stop_requested && !self.capture.may_publish()
        &&& self.capture.state == LoopState::Starting ==> self.capture.error is None
    }

    /// The stream after `event` was reported by its loop.
    pub open spec fn on_event(self, event: EventView) -> StreamView {
        let (capture, slot) = self.capture.on_event(self.slot, event);
        StreamView { slot, capture, ..self }
    }

    /// The stream after its loop has looked at the stop flag.
    pub open spec fn check_stop(self) -> StreamView {
        StreamView { capture: self.capture.check_stop(self.slot.stop_requested), ..self }
    }

    /// The stream after it was asked to stop.
    pub open spec fn stop(self) -> StreamView {
        StreamView { slot: self.slot.request_stop(), ..self }
    }

    /// What a consumer that does not wait is given.
    pub open spec fn latest_frame(self) -> Result<Option<FrameView>, StreamError> {
        match self.capture.error {
            Some(e) => Err(e),
            None => Ok(self.slot.peek()),
        }
    }

    /// What a consumer that saw generation `since` last is given.
    pub open spec fn next_frame(self, since: nat) -> Result<FreshView, StreamError> {
        match self.capture.error {
            Some(e) => Err(e),
            None => Ok(self.slot.poll_fresh(since)),
        }
    }

    /// What the one who started the stream is told.
    pub open spec fn start_outcome(self) -> StartOutcome {
        if self.capture.state == LoopState::Starting {
            StartOutcome::Pending
        } else if self.capture.error == Some(StreamError::DeviceUnavailable) {
            StartOutcome::Failed(StreamError::DeviceUnavailable)
        } else {
            StartOutcome::Started
        }
    }

    /// What to do with the stored frame when it is to be shown.
    pub open spec fn show(self) -> ShowAction {
        if self.slot.frame.displayable() {
            ShowAction::Display
        } else {
            ShowAction::SkipInvalidDimensions
        }
    }
}

/// The shared state of one camera stream.
///
/// The capture task and the consumers each take a step on it under mutual
/// exclusion; after a step that publishes or stops, the one who took it
/// wakes the consumers that sleep.
#[derive(Debug)]
pub struct Stream {
    device_index: i32,
    slot: FrameSlot,
    capture: CaptureLoop,
}

impl View for Stream {
    type V = StreamView;

    closed spec fn view(&self) -> StreamView {
        StreamView {
            device_index: self.device_index as int,
            slot: self.slot@,
            capture: self.capture@,
        }
    }
}

impl Stream {
    /// The stream's invariant, and that its counter fits the machine word.
    pub open spec fn wf(&self) -> bool {
        self@.wf() && self@.slot.generation <= u64::MAX
    }

    /// A stream on camera `cam_idx` that has not opened it yet and holds no
    /// frame. It bears `DEFAULT_FAILURE_LIMIT` failed reads in a row.
    pub fn new(cam_idx: i32) -> (s: Stream)
        ensures
            s.wf(),
            s@ == StreamView::initial(cam_idx as int, Some(DEFAULT_FAILURE_LIMIT as nat)),
    {
        Stream::with_failure_limit(cam_idx, Some(DEFAULT_FAILURE_LIMIT))
    }

    /// As `new`, with a failure limit of the caller's choice: `Some(n)` ends
    /// the stream at the `n`-th failed read in a row, `None` never does.
    pub fn with_failure_limit(cam_idx: i32, limit: Option<u32>) -> (s: Stream)
        ensures
            s.wf(),
            s@ == StreamView::initial(cam_idx as int, limit_view(limit)),
    {
        Stream { device_index: cam_idx, slot: FrameSlot::new(), capture: CaptureLoop::new(limit) }
    }

    /// The camera that the stream reads.
    pub fn device_index(&self) -> (i: i32)
        ensures
            i == self@.device_index,
    {
        self.device_index
    }

    /// Where the capture loop stands.
    pub fn camera_state(&self) -> (s: LoopState)
        ensures
            s == self@.capture.state,
    {
        self.capture.state()
    }

    /// The error the stream ended with, if any.
    pub fn error(&self) -> (e: Option<StreamError>)
        ensures
            e == self@.capture.error,
    {
        self.capture.error()
    }

    /// The number of frames published so far.
    pub fn generation(&self) -> (g: u64)
        ensures
            g == self@.slot.generation,
    {
        self.slot.generation()
    }

    /// Whether a stop was requested, by the owner or by a fatal error.
    pub fn stop_requested(&self) -> (b: bool)
        ensures
            b == self@.slot.stop_requested,
    {
        self.slot.stop_requested()
    }

    /// Whether the loop has returned, so that the stream can be torn down.
    pub fn is_finished(&self) -> (b: bool)
        ensures
            b == (self@.capture.state == LoopState::Stopped),
    {
        match self.capture.state() {
            LoopState::Stopped => true,
            _ => false,
        }
    }

    /// The stored frame as it is: the empty frame until the first publish.
    pub fn frame(&self) -> (f: &Frame)
        ensures
            f@ == self@.slot.frame,
    {
        self.slot.stored()
    }

    /// Whether the stored frame is to be drawn: only one with positive
    /// width and height is.
    pub fn show(&self) -> (a: ShowAction)
        ensures
            a == self@.show(),
    {
        if self.slot.stored().is_displayable() {
            ShowAction::Display
        } else {
            ShowAction::SkipInvalidDimensions
        }
    }

    /// What the one who started the stream is told: `Pending` until the
    /// device was tried, then `Started`, or `Failed` if it could not be
    /// opened.
    pub fn start_outcome(&self) -> (o: StartOutcome)
        ensures
            o == self@.start_outcome(),
    {
        match self.capture.state() {
            LoopState::Starting => StartOutcome::Pending,
            _ => match self.capture.error() {
                Some(StreamError::DeviceUnavailable) => StartOutcome::Failed(
                    StreamError::DeviceUnavailable,
                ),
                _ => StartOutcome::Started,
            },
        }
    }

    /// The most recent frame, without waiting: the stream's error if it
    /// ended with one, else a copy of the frame, or `None` before the first
    /// publish.
    pub fn latest_frame(&self) -> (r: Result<Option<Frame>, StreamError>)
        ensures
            match r {
                Ok(Some(f)) => self@.latest_frame() == Ok::<Option<FrameView>, StreamError>(
                    Some(f@),
                ),
                Ok(None) => self@.latest_frame() == Ok::<Option<FrameView>, StreamError>(None),
                Err(e) => self@.latest_frame() == Err::<Option<FrameView>, StreamError>(e),
            },
    {
        match self.capture.error() {
            Some(e) => Err(e),
            None => Ok(self.slot.peek()),
        }
    }

    /// One look by a consumer that waits for a frame later than `since`:
    /// the stream's error if it ended with one, else what the slot answers.
    /// On `Pending` the consumer sleeps until the stream changes and looks
    /// again.
    pub fn next_frame(&self, since: u64) -> (r: Result<WaitOutcome, StreamError>)
        ensures
            match r {
                Ok(w) => self@.next_frame(since as nat) == Ok::<FreshView, StreamError>(w@),
                Err(e) => self@.next_frame(since as nat) == Err::<FreshView, StreamError>(e),
            },
    {
        match self.capture.error() {
            Some(e) => Err(e),
            None => Ok(self.slot.poll_fresh(since)),
        }
    }

    /// Asks the stream to stop. Asking again changes nothing. The result
    /// says whether the consumers that sleep have to be woken: they have to
    /// whenever the call changed the slot.
    pub fn stop_stream(&mut self) -> (wake: bool)
        requires
            old(self).wf(),
        ensures
            final(self).wf(),
            final(self)@ == old(self)@.stop(),
            wake == (final(self)@.slot != old(self)@.slot),
            wake == !old(self)@.slot.stop_requested,
    {
        let was_stopped = self.slot.stop_requested();
        self.slot.request_stop();
        !was_stopped
    }

    /// Takes note of what the capture loop met on the device. The result
    /// says whether the consumers that sleep have to be woken: they have to
    /// whenever the event changed the slot, by a publish or by a stop.
    pub fn on_event(&mut self, event: DeviceEvent) -> (wake: bool)
        requires
            old(self).wf(),
            old(self)@.capture.may_publish() && event is FrameRead ==> old(self)@.slot.generation
                < u64::MAX,
        ensures
            final(self).wf(),
            final(self)@ == old(self)@.on_event(event@),
            wake == (final(self)@.slot != old(self)@.slot),
    {
        let generation = self.slot.generation();
        let was_stopped = self.slot.stop_requested();
        self.capture.on_event(&mut self.slot, event);
        self.slot.generation() != generation || self.slot.stop_requested() != was_stopped
    }

    /// Looks at the stop flag for the capture loop and says what the loop
    /// has to do next on the device.
    pub fn next_action(&mut self) -> (a: LoopAction)
        requires
            old(self).wf(),
        ensures
            final(self).wf(),
            final(self)@ == old(self)@.check_stop(),
            a == final(self)@.capture.action(),
    {
        self.capture.next_action(&self.slot)
    }
}

} // verus!
