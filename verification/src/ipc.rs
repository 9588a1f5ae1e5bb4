use vstd::prelude::*;

verus! {

use crossbeam::channel::{Receiver, Sender};

use crate::channel::{channel_pair, channel_send, channel_try_recv, ChannelPoll};

/// The channel ends the render thread works with: it pushes finished frame
/// payloads out and watches for an incoming stop token.
pub struct RenderEndpoints {
    pub frames_tx: Sender<Vec<u8>>,
    pub stop_rx: Receiver<()>,
}

/// The consumer-facing control handle: polls for the newest frame payload
/// and requests a graceful shutdown. It owns the consumer ends of the two
/// channels that are the pipeline's only cross-thread traffic.
pub struct IPC {
    stop_tx: Sender<()>,
    frames_rx: Receiver<Vec<u8>>,
}

/// The two channels of a fresh pipeline: the consumer handle and, for the
/// render thread, the matching frame sender and stop receiver.
pub fn connect() -> (ends: (IPC, RenderEndpoints)) {
    let (frames_tx, frames_rx) = channel_pair::<Vec<u8>>();
    let (stop_tx, stop_rx) = channel_pair::<()>();
    (IPC { stop_tx, frames_rx }, RenderEndpoints { frames_tx, stop_rx })
}

/// Latest-wins selection over everything that was waiting in the frame
/// channel: the newest payload, or nothing when no frame was waiting; all
/// older payloads are discarded.
pub fn newest(frames: Vec<Vec<u8>>) -> (r: Option<Vec<u8>>)
    ensures
        frames@.len() == 0 ==> r is None,
        frames@.len() > 0 ==> r == Some(frames@.last()),
{
    let mut frames = frames;
    frames.pop()
}

impl IPC {
    /// Non-blocking poll for the most recent undelivered frame payload.
    /// Drains every payload the render thread has produced so far and hands
    /// back only the newest one; returns nothing when no new frame has
    /// arrived, which is the steady-state common case, not a failure.
    pub fn recv(&self) -> (r: Option<Vec<u8>>) {
        let mut drained: Vec<Vec<u8>> = Vec::new();
        // The drain provably stops: it gives up after more messages than a
        // producer could ever have queued in memory.
        let mut fuel: u64 = u64::MAX;
        while fuel > 0
            decreases fuel,
        {
            fuel = fuel - 1;
            match channel_try_recv(&self.frames_rx) {
                ChannelPoll::Item(frame) => drained.push(frame),
                ChannelPoll::Empty => break,
                ChannelPoll::Disconnected => break,
            }
        }
        newest(drained)
    }

    /// Request a graceful shutdown of the render thread. A failed send only
    /// means the thread is already gone, so the outcome is dropped rather
    /// than raised; calling this again after the thread exited is harmless.
    pub fn stop(&self) {
        let _delivered: bool = channel_send(&self.stop_tx, ());
    }
}

/// How the render loop ends an iteration: keep ticking, exit because the
/// engine asked to, or exit because the consumer sent a stop token.
#[derive(Clone, Copy, PartialEq, Eq, Structural, Debug)]
pub enum RunnerVerdict {
    Continue,
    ExitEngine,
    ExitStopped,
}

/// The loop's exit rule: an engine-requested exit wins, a pending stop
/// token ends the loop the very iteration it is observed, and otherwise
/// the loop goes on.
pub open spec fn runner_verdict(engine_exit: bool, stop_requested: bool) -> RunnerVerdict {
    if engine_exit {
        RunnerVerdict::ExitEngine
    } else if stop_requested {
        RunnerVerdict::ExitStopped
    } else {
        RunnerVerdict::Continue
    }
}

/// The decision taken at the end of every render-loop iteration, after the
/// engine was ticked once.
pub fn runner_step(engine_exit: bool, stop_requested: bool) -> (r: RunnerVerdict)
    ensures
        r == runner_verdict(engine_exit, stop_requested),
{
    if engine_exit {
        RunnerVerdict::ExitEngine
    } else if stop_requested {
        RunnerVerdict::ExitStopped
    } else {
        RunnerVerdict::Continue
    }
}

/// Non-blocking check of the control channel: true exactly when a stop
/// token was waiting. A disconnected control channel is not a stop
/// request; the loop then runs until the engine itself exits.
pub fn poll_control(stop_rx: &Receiver<()>) -> (stop_requested: bool) {
    match channel_try_recv(stop_rx) {
        ChannelPoll::Item(_) => true,
        ChannelPoll::Empty => false,
        ChannelPoll::Disconnected => false,
    }
}

} // verus!
