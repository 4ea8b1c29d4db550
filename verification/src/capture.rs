//! The capture loop as a state machine.
//!
//! The loop itself runs elsewhere: it asks [`CaptureLoop::next_action`] what
//! to do, does it on the device, and reports what happened through
//! [`CaptureLoop::on_event`]. All decisions are taken here.

use vstd::prelude::*;
use crate::frame::{Frame, FrameView};
use crate::slot::{FrameSlot, SlotView};

verus! {

/// How many read failures in a row a stream bears, unless told otherwise.
pub const DEFAULT_FAILURE_LIMIT: u32 = 30;

/// Where the capture loop stands in its life.
#[derive(Clone, Copy, Debug, PartialEq, Eq, Structural)]
pub enum LoopState {
    /// The device is not open yet.
    Starting,
    /// The device is open and frames are being read.
    Running,
    /// The loop has left its cycle and still holds the device.
    Stopping,
    /// The device is released, or was never opened: nothing is written
    /// any more.
    Stopped,
}

/// Why a stream ended without being asked to.
#[derive(Clone, Copy, Debug, PartialEq, Eq, Structural)]
pub enum StreamError {
    /// The device could not be opened.
    DeviceUnavailable,
    /// Too many reads in a row failed.
    DeviceLost,
}

/// What the loop has to do next on the device.
#[derive(Clone, Copy, Debug, PartialEq, Eq, Structural)]
pub enum LoopAction {
    /// Open the device, then report `Opened` or `OpenFailed`.
    OpenDevice,
    /// Read one frame, then report `FrameRead` or `ReadFailed`.
    ReadFrame,
    /// Release the device, then report `Released`.
    ReleaseDevice,
    /// Return: the loop is over.
    Exit,
}

/// What happened on the device.
#[derive(Debug)]
pub enum DeviceEvent {
    /// The device was opened.
    Opened,
    /// The device could not be opened.
    OpenFailed,
    /// A frame was read.
    FrameRead(Frame),
    /// A read failed; the device may recover.
    ReadFailed,
    /// The device was released.
    Released,
}

/// A device event over frame values.
pub enum EventView {
    Opened,
    OpenFailed,
    FrameRead(FrameView),
    ReadFailed,
    Released,
}

impl View for DeviceEvent {
    type V = EventView;

    open spec fn view(&self) -> EventView {
        match self {
            DeviceEvent::Opened => EventView::Opened,
            DeviceEvent::OpenFailed => EventView::OpenFailed,
            DeviceEvent::FrameRead(f) => EventView::FrameRead(f@),
            DeviceEvent::ReadFailed => EventView::ReadFailed,
            DeviceEvent::Released => EventView::Released,
        }
    }
}

/// What a capture loop is: its state, the read failures in a row so far,
/// the number of them at which the device counts as lost (if any), and the
/// error it ended with (if any).
pub struct LoopView {
    pub state: LoopState,
    pub failures: nat,
    pub limit: Option<nat>,
    pub error: Option<StreamError>,
}

/// A failure limit as a natural number.
pub open spec fn limit_view(limit: Option<u32>) -> Option<nat> {
    match limit {
        Some(n) => Some(n as nat),
        None => None,
    }
}

impl LoopView {
    /// The loop before it has done anything.
    pub open spec fn initial(limit: Option<nat>) -> LoopView {
        LoopView { state: LoopState::Starting, failures: 0, limit, error: None }
    }

    /// The failure count after one more failure: it stops at the largest
    /// number the counter holds.
    pub open spec fn bumped(self) -> nat {
        if self.failures < u32::MAX {
            self.failures + 1
        } else {
            self.failures
        }
    }

    /// Whether one more failure reaches the limit.
    pub open spec fn next_failure_is_fatal(self) -> bool {
        match self.limit {
            Some(n) => self.bumped() >= n,
            None => false,
        }
    }

    /// The loop and the slot after `event` was reported. An event that does
    /// not belong to the current state changes nothing.
    pub open spec fn on_event(self, slot: SlotView, event: EventView) -> (LoopView, SlotView) {
        match (self.state, event) {
            (LoopState::Starting, EventView::Opened) => (
                LoopView { state: LoopState::Running, ..self },
                slot,
            ),
            (LoopState::Starting, EventView::OpenFailed) => (
                LoopView {
                    state: LoopState::Stopped,
                    error: Some(StreamError::DeviceUnavailable),
                    ..self
                },
                slot.request_stop(),
            ),
            (LoopState::Running, EventView::FrameRead(f)) => (
                LoopView { failures: 0, ..self },
                slot.publish(f),
            ),
            (LoopState::Running, EventView::ReadFailed) => if self.next_failure_is_fatal() {
                (
                    LoopView {
                        state: LoopState::Stopping,
                        failures: self.bumped(),
                        error: Some(StreamError::DeviceLost),
                        ..self
                    },
                    slot.request_stop(),
                )
            } else {
                (LoopView { failures: self.bumped(), ..self }, slot)
            },
            (LoopState::Stopping, EventView::Released) => (
                LoopView { state: LoopState::Stopped, ..self },
                slot,
            ),
            _ => (self, slot),
        }
    }

    /// The loop after it has looked at the stop flag between two reads.
    pub open spec fn check_stop(self, stop_requested: bool) -> LoopView {
        if self.state == LoopState::Running && stop_requested {
            LoopView { state: LoopState::Stopping, ..self }
        } else {
            self
        }
    }

    /// What a loop in this state does next.
    pub open spec fn action(self) -> LoopAction {
        match self.state {
            LoopState::Starting => LoopAction::OpenDevice,
            LoopState::Running => LoopAction::ReadFrame,
            LoopState::Stopping => LoopAction::ReleaseDevice,
            LoopState::Stopped => LoopAction::Exit,
        }
    }

    /// Whether a frame may be written into the slot in this state.
    pub open spec fn may_publish(self) -> bool {
        self.state == LoopState::Running
    }
}

/// The decisions of the task that reads frames from a device and publishes
/// them into a slot.
#[derive(Debug)]
pub struct CaptureLoop {
    state: LoopState,
    failures: u32,
    limit: Option<u32>,
    error: Option<StreamError>,
}

impl View for CaptureLoop {
    type V = LoopView;

    closed spec fn view(&self) -> LoopView {
        LoopView {
            state: self.state,
            failures: self.failures as nat,
            limit: limit_view(self.limit),
            error: self.error,
        }
    }
}

impl CaptureLoop {
    /// A loop that has not opened its device yet. With `Some(n)` the `n`-th
    /// read failure in a row ends the stream; with `None` reads are retried
    /// for ever.
    pub fn new(limit: Option<u32>) -> (c: CaptureLoop)
        ensures
            c@ == LoopView::initial(limit_view(limit)),
    {
        CaptureLoop { state: LoopState::Starting, failures: 0, limit, error: None }
    }

    /// Where the loop stands.
    pub fn state(&self) -> (s: LoopState)
        ensures
            s == self@.state,
    {
        self.state
    }

    /// The error the loop ended with, if any.
    pub fn error(&self) -> (e: Option<StreamError>)
        ensures
            e == self@.error,
    {
        self.error
    }

    /// The number of reads that have failed in a row.
    pub fn consecutive_failures(&self) -> (n: u32)
        ensures
            n == self@.failures,
    {
        self.failures
    }

    /// The number of failures in a row that ends the stream, if any.
    pub fn failure_limit(&self) -> (l: Option<u32>)
        ensures
            limit_view(l) == self@.limit,
    {
        self.limit
    }

    /// Takes note of what happened on the device.
    ///
    /// A frame that was read while running is published and clears the
    /// failure count. A failed read is counted; the one that reaches the
    /// limit ends the stream with `DeviceLost` and stops the slot. A failed
    /// open ends the stream with `DeviceUnavailable` and stops the slot.
    pub fn on_event(&mut self, slot: &mut FrameSlot, event: DeviceEvent)
        requires
            old(slot).wf(),
            old(self)@.may_publish() && event is FrameRead ==> old(slot)@.generation < u64::MAX,
        ensures
            final(slot).wf(),
            (final(self)@, final(slot)@) == old(self)@.on_event(old(slot)@, event@),
    {
        match self.state {
            LoopState::Starting => match event {
                DeviceEvent::Opened => {
                    self.state = LoopState::Running;
                },
                DeviceEvent::OpenFailed => {
                    self.state = LoopState::Stopped;
                    self.error = Some(StreamError::DeviceUnavailable);
                    slot.request_stop();
                },
                _ => {},
            },
            LoopState::Running => match event {
                DeviceEvent::FrameRead(frame) => {
                    slot.publish(frame);
                    self.failures = 0;
                },
                DeviceEvent::ReadFailed => {
                    if self.failures < u32::MAX {
                        self.failures = self.failures + 1;
                    }
                    let fatal = match self.limit {
                        Some(n) => self.failures >= n,
                        None => false,
                    };
                    if fatal {
                        self.state = LoopState::Stopping;
                        self.error = Some(StreamError::DeviceLost);
                        slot.request_stop();
                    }
                },
                _ => {},
            },
            LoopState::Stopping => match event {
                DeviceEvent::Released => {
                    self.state = LoopState::Stopped;
                },
                _ => {},
            },
            LoopState::Stopped => {},
        }
    }

    /// Looks at the stop flag, as the loop does between two reads, and says
    /// what to do next on the device. A running loop whose slot was stopped
    /// goes on to release the device.
    pub fn next_action(&mut self, slot: &FrameSlot) -> (a: LoopAction)
        ensures
            final(self)@ == old(self)@.check_stop(slot@.stop_requested),
            a == final(self)@.action(),
    {
        match self.state {
            LoopState::Starting => LoopAction::OpenDevice,
            LoopState::Running => {
                if slot.stop_requested() {
                    self.state = LoopState::Stopping;
                    LoopAction::ReleaseDevice
                } else {
                    LoopAction::ReadFrame
                }
            },
            LoopState::Stopping => LoopAction::ReleaseDevice,
            LoopState::Stopped => LoopAction::Exit,
        }
    }
}

} // verus!
