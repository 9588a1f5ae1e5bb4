use vstd::prelude::*;

verus! {

use crossbeam::channel::Sender;

use crate::channel::channel_send;
use crate::frame::{extract_frame, packed_frame};
use crate::readiness::{frame_counter, readiness_next, recorded, SceneController, SceneState};

/// What the per-tick non-blocking device poll reported about the in-flight
/// staging-buffer map: still pending, completed with the mapped bytes, or
/// failed on the backend side.
pub enum MapPoll {
    Pending,
    Ready(Vec<u8>),
    Failed,
}

/// The abstract outcome of a device poll, once the mapped bytes have been
/// judged: a map only counts as done when the buffer covers a full frame;
/// a short buffer is a backend fault and the frame is dropped.
#[derive(Clone, Copy, PartialEq, Eq, Structural, Debug)]
pub enum PollKind {
    Pending,
    Done,
    Fail,
}

/// One tick of the render-thread pipeline, abstractly: the readiness state
/// and busy flag afterwards, whether a payload was emitted, and whether a
/// fresh copy command was issued.
pub ghost struct TickStep {
    pub state: SceneState,
    pub in_flight: bool,
    pub emit: bool,
    pub issue: bool,
}

/// The pipeline's per-tick transition. A completed map emits the frame and
/// advances the counter; a pending map keeps the single copy slot busy, so
/// the tick's copy is skipped (back-pressure by frame drop, never by
/// blocking); otherwise a copy is issued whenever the copy window is open.
pub open spec fn tick_step(s: SceneState, in_flight: bool, k: PollKind) -> TickStep {
    let completed = in_flight && k is Done;
    let busy = in_flight && k is Pending;
    let stepped = readiness_next(if completed { recorded(s) } else { s });
    let issue = (stepped is Rendering) && !busy;
    TickStep { state: stepped, in_flight: issue || busy, emit: completed, issue }
}

/// How a concrete poll outcome is judged against the target dimensions.
pub open spec fn poll_kind(height: u32, bytes_per_row: usize, poll: MapPoll) -> PollKind {
    match poll {
        MapPoll::Pending => PollKind::Pending,
        MapPoll::Failed => PollKind::Fail,
        MapPoll::Ready(b) => if b@.len() >= height * bytes_per_row {
            PollKind::Done
        } else {
            PollKind::Fail
        },
    }
}

/// What one tick handed back: whether the caller must issue a GPU copy of
/// the render target into the staging buffer, and the packed payload of a
/// previously copied frame if its map completed this tick.
pub struct TickResult {
    pub issue_copy: bool,
    pub payload: Option<Vec<u8>>,
}

/// The render-thread-local context: the readiness-gated target description
/// plus the single-slot state of the asynchronous host mapper. `in_flight`
/// is true exactly while a copy of an earlier tick still awaits its map.
pub struct RenderContext {
    pub controller: SceneController,
    pub in_flight: bool,
    pub bytes_per_row: usize,
}

impl RenderContext {
    /// The staging row stride covers a logical row, one whole staging
    /// buffer fits in memory, and the copy slot is only busy while frames
    /// are actually being produced.
    pub open spec fn wf(self) -> bool {
        &&& self.controller.wf()
        &&& self.controller.width * 4 <= self.bytes_per_row
        &&& self.controller.height * self.bytes_per_row <= usize::MAX
        &&& (self.in_flight ==> self.controller.state is Rendering)
    }

    pub fn new(controller: SceneController, bytes_per_row: usize) -> (r: Self)
        requires
            controller.wf(),
            controller.width * 4 <= bytes_per_row,
            controller.height * bytes_per_row <= usize::MAX,
            !(controller.state is Rendering),
        ensures
            r == (RenderContext { controller, in_flight: false, bytes_per_row }),
            r.wf(),
    {
        RenderContext { controller, in_flight: false, bytes_per_row }
    }

    /// One render tick, entered after the scene has been drawn for this
    /// tick and the device has been polled. Resolves the in-flight map,
    /// steps the readiness machine, and decides on this tick's copy.
    pub fn tick(&mut self, poll: MapPoll) -> (r: TickResult)
        requires
            old(self).wf(),
            frame_counter(old(self).controller.state) < u64::MAX,
        ensures
            final(self).wf(),
            final(self).controller.width == old(self).controller.width,
            final(self).controller.height == old(self).controller.height,
            final(self).bytes_per_row == old(self).bytes_per_row,
            ({
                let step = tick_step(
                    old(self).controller.state,
                    old(self).in_flight,
                    poll_kind(old(self).controller.height, old(self).bytes_per_row, poll),
                );
                &&& final(self).controller.state == step.state
                &&& final(self).in_flight == step.in_flight
                &&& r.issue_copy == step.issue
                &&& (r.payload is Some) == step.emit
            }),
            (match poll {
                MapPoll::Ready(b) => r.payload matches Some(p) ==> p@ == packed_frame(
                    b@,
                    old(self).controller.width as nat,
                    old(self).controller.height as nat,
                    old(self).bytes_per_row as nat,
                ),
                _ => r.payload is None,
            }),
            r.payload matches Some(p) ==> p@.len() == old(self).controller.spec_frame_len(),
    {
        let mut payload: Option<Vec<u8>> = None;
        match poll {
            MapPoll::Pending => {}
            MapPoll::Failed => {
                self.in_flight = false;
            }
            MapPoll::Ready(b) => {
                if self.in_flight {
                    let needed: usize = (self.controller.height as usize) * self.bytes_per_row;
                    if b.len() >= needed {
                        payload = Some(extract_frame(
                            &b,
                            self.controller.width,
                            self.controller.height,
                            self.bytes_per_row,
                        ));
                        self.controller.record_handoff();
                    }
                }
                self.in_flight = false;
            }
        }
        let copy_open = self.controller.tick();
        let issue_copy = copy_open && !self.in_flight;
        if issue_copy {
            self.in_flight = true;
        }
        TickResult { issue_copy, payload }
    }

    /// One render tick that hands a completed frame straight to the frame
    /// channel. A failed send only means the consumer dropped its handle;
    /// the frame is then discarded and the loop carries on.
    pub fn tick_and_deliver(&mut self, frames_tx: &Sender<Vec<u8>>, poll: MapPoll) -> (issue_copy:
        bool)
        requires
            old(self).wf(),
            frame_counter(old(self).controller.state) < u64::MAX,
        ensures
            final(self).wf(),
            final(self).controller.width == old(self).controller.width,
            final(self).controller.height == old(self).controller.height,
            final(self).bytes_per_row == old(self).bytes_per_row,
            ({
                let step = tick_step(
                    old(self).controller.state,
                    old(self).in_flight,
                    poll_kind(old(self).controller.height, old(self).bytes_per_row, poll),
                );
                &&& final(self).controller.state == step.state
                &&& final(self).in_flight == step.in_flight
                &&& issue_copy == step.issue
            }),
    {
        let r = self.tick(poll);
        match r.payload {
            Some(payload) => {
                let _delivered: bool = channel_send(frames_tx, payload);
            }
            None => {}
        }
        r.issue_copy
    }
}

} // verus!
