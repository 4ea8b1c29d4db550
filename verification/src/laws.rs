//! What holds of every history of a slot and of a stream.
//!
//! A history is a sequence of steps, each taken under mutual exclusion, so
//! that the steps of the writer and of the consumers form one line.

use vstd::prelude::*;
use crate::capture::{EventView, LoopAction, LoopState, StreamError};
use crate::frame::FrameView;
use crate::slot::{FreshView, SlotView};
use crate::stream::StreamView;

verus! {

/// One step in the history of a slot, as one consumer sees it.
pub enum SlotStep {
    /// The writer publishes a frame.
    Publish(FrameView),
    /// Someone asks for a stop.
    RequestStop,
    /// The consumer looks for a frame later than the last one it was given,
    /// and remembers the generation of the one it gets.
    Poll,
}

/// A slot together with one of its consumers.
pub struct Watched {
    pub slot: SlotView,
    /// The generation that the consumer saw last.
    pub last_seen: nat,
    /// The generations that the consumer was given, in order.
    pub observed: Seq<nat>,
}

impl Watched {
    /// A consumer that saw `last_seen` last and has been given nothing since.
    pub open spec fn start(slot: SlotView, last_seen: nat) -> Watched {
        Watched { slot, last_seen, observed: Seq::empty() }
    }

    /// The slot and its consumer after one step.
    pub open spec fn step(self, step: SlotStep) -> Watched {
        match step {
            SlotStep::Publish(f) => Watched { slot: self.slot.publish(f), ..self },
            SlotStep::RequestStop => Watched { slot: self.slot.request_stop(), ..self },
            SlotStep::Poll => match self.slot.poll_fresh(self.last_seen) {
                FreshView::Fresh { frame, generation } => Watched {
                    last_seen: generation,
                    observed: self.observed.push(generation),
                    ..self
                },
                _ => self,
            },
        }
    }

    /// The slot and its consumer after all of `steps`, in order.
    pub open spec fn run(self, steps: Seq<SlotStep>) -> Watched
        decreases steps.len(),
    {
        if steps.len() == 0 {
            self
        } else {
            self.run(steps.drop_last()).step(steps.last())
        }
    }
}

/// The number of publishes among `steps`.
pub open spec fn publishes(steps: Seq<SlotStep>) -> nat
    decreases steps.len(),
{
    if steps.len() == 0 {
        0
    } else if steps.last() is Publish {
        publishes(steps.drop_last()) + 1
    } else {
        publishes(steps.drop_last())
    }
}

/// The frame of the last publish among `steps`, if there is one.
pub open spec fn last_published(steps: Seq<SlotStep>) -> Option<FrameView>
    decreases steps.len(),
{
    if steps.len() == 0 {
        None
    } else {
        match steps.last() {
            SlotStep::Publish(f) => Some(f),
            _ => last_published(steps.drop_last()),
        }
    }
}

/// Whether `s` grows strictly from each element to the next.
pub open spec fn strictly_increasing(s: Seq<nat>) -> bool {
    forall|i: int, j: int| 0 <= i < j < s.len() ==> s[i] < s[j]
}

/// What a history keeps true, step by step.
proof fn lemma_run(slot: SlotView, last_seen: nat, steps: Seq<SlotStep>)
    requires
        last_seen <= slot.generation,
    ensures
        ({
            let w = Watched::start(slot, last_seen).run(steps);
            &&& w.slot.generation == slot.generation + publishes(steps)
            &&& last_seen <= w.last_seen <= w.slot.generation
            &&& slot.stop_requested ==> w.slot.stop_requested
            &&& slot.stop_requested ==> w.observed.len() == 0
            &&& slot.wf() ==> w.slot.wf()
            &&& publishes(steps) > 0 ==> w.slot.ready
            &&& w.slot.frame == match last_published(steps) {
                Some(f) => f,
                None => slot.frame,
            }
            &&& strictly_increasing(w.observed)
            &&& forall|i: int| 0 <= i < w.observed.len() ==> last_seen < #[trigger] w.observed[i]
            &&& forall|i: int| 0 <= i < w.observed.len() ==> #[trigger] w.observed[i] <= w.last_seen
        }),
    decreases steps.len(),
{
    if steps.len() > 0 {
        lemma_run(slot, last_seen, steps.drop_last());
    }
}

/// The generations that a consumer is given grow strictly, whatever is
/// published or stopped in between, and each is later than the one the
/// consumer started from: no frame is given twice or out of order.
pub proof fn law_observed_generations_increase(
    slot: SlotView,
    last_seen: nat,
    steps: Seq<SlotStep>,
)
    requires
        last_seen <= slot.generation,
    ensures
        strictly_increasing(Watched::start(slot, last_seen).run(steps).observed),
        forall|i: int|
            0 <= i < Watched::start(slot, last_seen).run(steps).observed.len() ==> last_seen
                < #[trigger] Watched::start(slot, last_seen).run(steps).observed[i],
{
    lemma_run(slot, last_seen, steps);
}

/// The generation of a slot counts the publishes: it never goes back, so
/// whoever saw generation G never sees an earlier one afterwards.
pub proof fn law_generation_counts_publishes(slot: SlotView, steps: Seq<SlotStep>)
    ensures
        Watched::start(slot, 0).run(steps).slot.generation == slot.generation + publishes(steps),
        Watched::start(slot, 0).run(steps).slot.generation >= slot.generation,
        slot.wf() ==> Watched::start(slot, 0).run(steps).slot.wf(),
{
    lemma_run(slot, 0, steps);
}

/// A consumer that waits for a frame later than `last_seen` is never given
/// one that is not later, and it waits no longer once such a frame was
/// published into a slot that is not stopped.
pub proof fn law_wait_ends_with_later_frame(slot: SlotView, last_seen: nat, frame: FrameView)
    ensures
        slot.poll_fresh(last_seen) matches FreshView::Fresh { generation, .. } ==> generation
            > last_seen,
        slot.poll_fresh(last_seen) is Pending <==> !slot.stop_requested && slot.generation
            <= last_seen,
        !slot.stop_requested && slot.generation >= last_seen ==> slot.publish(frame).poll_fresh(
            last_seen,
        ) == (FreshView::Fresh { frame, generation: slot.generation + 1 }),
{
}

/// Once a stop was requested, every consumer is told `Stopped`, whatever
/// generation it saw last and whatever happens to the slot afterwards, and
/// no consumer is given a frame any more.
pub proof fn law_stop_is_final(
    slot: SlotView,
    last_seen: nat,
    steps: Seq<SlotStep>,
    any_seen: nat,
)
    requires
        last_seen <= slot.generation,
    ensures
        Watched::start(slot.request_stop(), last_seen).run(steps).slot.poll_fresh(any_seen)
            == FreshView::Stopped,
        Watched::start(slot.request_stop(), last_seen).run(steps).observed.len() == 0,
{
    lemma_run(slot.request_stop(), last_seen, steps);
}

/// Before the first publish a slot has no frame to show; after exactly one
/// publish it shows that frame.
pub proof fn law_first_publish_is_visible(frame: FrameView)
    ensures
        SlotView::initial().peek() == None::<FrameView>,
        SlotView::initial().publish(frame).peek() == Some(frame),
        SlotView::initial().publish(frame).generation == 1,
{
}

/// The frame in the slot is always one frame as a whole: the one that was
/// published last, or the one the slot began with if nothing was published.
pub proof fn law_stored_frame_is_last_published(slot: SlotView, steps: Seq<SlotStep>)
    ensures
        Watched::start(slot, 0).run(steps).slot.frame == match last_published(steps) {
            Some(f) => f,
            None => slot.frame,
        },
        publishes(steps) > 0 ==> Watched::start(slot, 0).run(steps).slot.peek() == last_published(
            steps,
        ),
{
    lemma_run(slot, 0, steps);
    lemma_published(steps);
}

/// Where there was a publish there is a last one.
proof fn lemma_published(steps: Seq<SlotStep>)
    ensures
        publishes(steps) > 0 <==> last_published(steps) is Some,
    decreases steps.len(),
{
    if steps.len() > 0 {
        lemma_published(steps.drop_last());
    }
}

/// The stream after `k` reads in a row have failed.
pub open spec fn after_failures(stream: StreamView, k: nat) -> StreamView
    decreases k,
{
    if k == 0 {
        stream
    } else {
        after_failures(stream, (k - 1) as nat).on_event(EventView::ReadFailed)
    }
}

/// Whether the stream is reading frames and has met no error.
pub open spec fn healthy(stream: StreamView) -> bool {
    stream.capture.state == LoopState::Running && stream.capture.error is None
}

/// Failed reads that stay below the limit change nothing but the count:
/// the stream keeps running without an error, the slot keeps its frame, and
/// the next frame that is read is published and clears the count.
pub proof fn law_failures_below_limit_keep_running(stream: StreamView, k: nat, frame: FrameView)
    requires
        healthy(stream),
        match stream.capture.limit {
            Some(n) => stream.capture.failures + k < n <= u32::MAX,
            None => true,
        },
    ensures
        healthy(after_failures(stream, k)),
        after_failures(stream, k).slot == stream.slot,
        after_failures(stream, k).capture.limit == stream.capture.limit,
        stream.capture.limit is Some ==> after_failures(stream, k).capture.failures
            == stream.capture.failures + k,
        healthy(after_failures(stream, k).on_event(EventView::FrameRead(frame))),
        after_failures(stream, k).on_event(EventView::FrameRead(frame)).capture.failures == 0,
        after_failures(stream, k).on_event(EventView::FrameRead(frame)).slot == stream.slot.publish(
            frame,
        ),
        after_failures(stream, k).on_event(EventView::FrameRead(frame)).latest_frame() == Ok::<
            Option<FrameView>,
            StreamError,
        >(Some(frame)),
    decreases k,
{
    if k > 0 {
        let prev = after_failures(stream, (k - 1) as nat);
        law_failures_below_limit_keep_running(stream, (k - 1) as nat, frame);
        assert(after_failures(stream, k) == prev.on_event(EventView::ReadFailed));
    }
}

/// The failed read that reaches the limit ends the stream: the device is
/// lost, the slot is stopped, every consumer is told so whatever it saw
/// last, and the loop releases the device and is over.
pub proof fn law_failures_at_limit_lose_device(stream: StreamView, n: nat, any_seen: nat)
    requires
        healthy(stream),
        stream.capture.limit == Some(n),
        0 < n <= u32::MAX,
        stream.capture.failures == 0,
    ensures
        ({
            let lost = after_failures(stream, n);
            &&& lost.capture.error == Some(StreamError::DeviceLost)
            &&& lost.capture.state == LoopState::Stopping
            &&& lost.slot == stream.slot.request_stop()
            &&& lost.next_frame(any_seen) == Err::<FreshView, StreamError>(StreamError::DeviceLost)
            &&& lost.latest_frame() == Err::<Option<FrameView>, StreamError>(
                StreamError::DeviceLost,
            )
            &&& lost.check_stop().capture.action() == LoopAction::ReleaseDevice
            &&& lost.check_stop().on_event(EventView::Released).capture.state == LoopState::Stopped
        }),
{
    let last = after_failures(stream, (n - 1) as nat);
    law_failures_below_limit_keep_running(stream, (n - 1) as nat, FrameView::empty());
    assert(after_failures(stream, n) == last.on_event(EventView::ReadFailed));
}

/// One step in the history of a stream.
pub enum StreamStep {
    /// The capture loop reports what happened on the device.
    Event(EventView),
    /// The capture loop looks at the stop flag.
    CheckStop,
    /// The owner asks the stream to stop.
    Stop,
}

/// The stream after one step.
pub open spec fn stream_step(stream: StreamView, step: StreamStep) -> StreamView {
    match step {
        StreamStep::Event(e) => stream.on_event(e),
        StreamStep::CheckStop => stream.check_stop(),
        StreamStep::Stop => stream.stop(),
    }
}

/// The stream after all of `steps`, in order.
pub open spec fn stream_after(stream: StreamView, steps: Seq<StreamStep>) -> StreamView
    decreases steps.len(),
{
    if steps.len() == 0 {
        stream
    } else {
        stream_step(stream_after(stream, steps.drop_last()), steps.last())
    }
}

/// How far a loop has come: a state never gives way to an earlier one.
pub open spec fn progress(state: LoopState) -> nat {
    match state {
        LoopState::Starting => 0,
        LoopState::Running => 1,
        LoopState::Stopping => 2,
        LoopState::Stopped => 3,
    }
}

/// Every history keeps a stream well formed, moves its loop only forward
/// through `Starting`, `Running`, `Stopping`, `Stopped`, never takes a
/// generation back, and never takes back a stop or an error.
pub proof fn law_stream_only_moves_forward(stream: StreamView, steps: Seq<StreamStep>)
    requires
        stream.wf(),
    ensures
        stream_after(stream, steps).wf(),
        progress(stream.capture.state) <= progress(stream_after(stream, steps).capture.state),
        stream.slot.generation <= stream_after(stream, steps).slot.generation,
        stream.slot.stop_requested ==> stream_after(stream, steps).slot.stop_requested,
        stream.capture.error is Some ==> stream_after(stream, steps).capture.error
            == stream.capture.error,
        stream_after(stream, steps).capture.limit == stream.capture.limit,
        stream_after(stream, steps).device_index == stream.device_index,
    decreases steps.len(),
{
    if steps.len() > 0 {
        law_stream_only_moves_forward(stream, steps.drop_last());
    }
}

/// Once the loop has left its cycle nothing is written into the slot any
/// more, so the device is released only when no publish can follow; and
/// once the loop is over it stays over and asks for nothing but to exit, so
/// the device is released once.
pub proof fn law_nothing_is_published_after_the_loop_stops(
    stream: StreamView,
    steps: Seq<StreamStep>,
)
    requires
        stream.wf(),
        stream.capture.state == LoopState::Stopping || stream.capture.state == LoopState::Stopped,
    ensures
        stream_after(stream, steps).slot.generation == stream.slot.generation,
        stream_after(stream, steps).slot.frame == stream.slot.frame,
        stream_after(stream, steps).slot.ready == stream.slot.ready,
        stream.capture.state == LoopState::Stopped ==> stream_after(stream, steps).capture
            == stream.capture,
        stream.capture.state == LoopState::Stopped ==> stream_after(stream, steps).capture.action()
            == LoopAction::Exit,
    decreases steps.len(),
{
    if steps.len() > 0 {
        law_nothing_is_published_after_the_loop_stops(stream, steps.drop_last());
        law_stream_only_moves_forward(stream, steps.drop_last());
    }
}

/// Of two frames that a consumer of a stream is given one after the other,
/// the second has the later generation, whatever happened in between, and
/// each is the newest of its moment.
pub proof fn law_successive_frames_are_later(
    stream: StreamView,
    steps: Seq<StreamStep>,
    since: nat,
)
    requires
        stream.wf(),
    ensures
        stream.next_frame(since) matches Ok(FreshView::Fresh { generation: first, .. }) ==> {
            &&& since < first
            &&& first == stream.slot.generation
            &&& stream_after(stream, steps).next_frame(first) matches Ok(
                FreshView::Fresh { generation: second, .. },
            ) ==> first < second && second == stream_after(stream, steps).slot.generation
        },
{
    law_stream_only_moves_forward(stream, steps);
}

/// After a stream was asked to stop, no consumer is kept waiting or given
/// a frame, whatever happens afterwards: each is told that the stream
/// stopped, or the error that it ended with.
pub proof fn law_stopped_stream_tells_every_consumer(
    stream: StreamView,
    steps: Seq<StreamStep>,
    any_seen: nat,
)
    requires
        stream.wf(),
    ensures
        match stream_after(stream.stop(), steps).next_frame(any_seen) {
            Ok(FreshView::Stopped) => stream_after(stream.stop(), steps).capture.error is None,
            Ok(_) => false,
            Err(e) => stream_after(stream.stop(), steps).capture.error == Some(e),
        },
{
    law_stream_only_moves_forward(stream.stop(), steps);
}

/// Every publish and every first request to stop changes the slot, so the
/// one who takes that step is told to wake the consumers that sleep.
pub proof fn law_publish_and_stop_change_the_slot(stream: StreamView, frame: FrameView)
    ensures
        stream.capture.state == LoopState::Running ==> stream.on_event(
            EventView::FrameRead(frame),
        ).slot != stream.slot,
        !stream.slot.stop_requested ==> stream.stop().slot != stream.slot,
        stream.slot.stop_requested ==> stream.stop().slot == stream.slot,
{
}

/// Asking a stream to stop a second time changes nothing.
pub proof fn law_stop_stream_is_idempotent(stream: StreamView)
    ensures
        stream.stop().stop() == stream.stop(),
{
}

/// A running loop that finds the stop flag set reads no more: it releases
/// the device and is over.
pub proof fn law_stop_ends_running_loop(stream: StreamView)
    requires
        stream.capture.state == LoopState::Running,
    ensures
        stream.stop().check_stop().capture.state == LoopState::Stopping,
        stream.stop().check_stop().capture.action() == LoopAction::ReleaseDevice,
        stream.stop().check_stop().on_event(EventView::Released).capture.state
            == LoopState::Stopped,
        stream.stop().check_stop().on_event(EventView::Released).capture.action()
            == LoopAction::Exit,
        stream.stop().check_stop().on_event(EventView::Released).slot == stream.slot.request_stop(),
{
}

/// A device that cannot be opened ends the stream before it runs: the one
/// who started it is told `DeviceUnavailable`, nothing is ever published,
/// and the loop is over without a device to release.
pub proof fn law_failed_open_never_runs(device_index: int, limit: Option<nat>, any_seen: nat)
    ensures
        ({
            let failed = StreamView::initial(device_index, limit).on_event(EventView::OpenFailed);
            &&& failed.capture.state == LoopState::Stopped
            &&& failed.capture.action() == LoopAction::Exit
            &&& failed.capture.error == Some(StreamError::DeviceUnavailable)
            &&& failed.slot.generation == 0
            &&& failed.next_frame(any_seen) == Err::<FreshView, StreamError>(
                StreamError::DeviceUnavailable,
            )
        }),
{
}

} // verus!
