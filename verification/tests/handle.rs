use framepipe::ipc::{connect, newest, poll_control, runner_step, RunnerVerdict};
use framepipe::pipeline::{MapPoll, RenderContext};
use framepipe::readiness::SceneController;

/// One delivered 1x1 frame whose four bytes carry a sequence counter.
fn counted_frame(counter: u8) -> Vec<u8> {
    vec![counter; 4]
}

/// Drive `frames` render ticks to completion, sending each finished frame
/// into the pipe the consumer handle drains.
fn produce(ctx: &mut RenderContext, tx: &crossbeam::channel::Sender<Vec<u8>>, frames: u8) {
    assert!(ctx.tick_and_deliver(tx, MapPoll::Pending));
    for i in 0..frames {
        assert!(ctx.tick_and_deliver(tx, MapPoll::Ready(counted_frame(i))));
    }
}

#[test]
fn idle_poll_returns_no_frame() {
    let (ipc, _ends) = connect();
    assert_eq!(ipc.recv(), None);
    assert_eq!(ipc.recv(), None);
}

#[test]
fn latest_wins_over_unpolled_frames() {
    let (ipc, ends) = connect();
    let mut ctx = RenderContext::new(SceneController::new(1, 1, 0), 4);
    produce(&mut ctx, &ends.frames_tx, 5);
    // Five frames were produced without a poll: the next poll returns the
    // newest one, and the four older ones are gone for good.
    assert_eq!(ipc.recv(), Some(counted_frame(4)));
    assert_eq!(ipc.recv(), None);
}

#[test]
fn frames_are_observed_in_order() {
    let (ipc, ends) = connect();
    let mut ctx = RenderContext::new(SceneController::new(1, 1, 0), 4);
    assert!(ctx.tick_and_deliver(&ends.frames_tx, MapPoll::Pending));
    let mut seen: Vec<u8> = Vec::new();
    for i in 0..6 {
        assert!(ctx.tick_and_deliver(&ends.frames_tx, MapPoll::Ready(counted_frame(i))));
        if i % 2 == 1 {
            if let Some(p) = ipc.recv() {
                seen.push(p[0]);
            }
        }
    }
    assert!(seen.windows(2).all(|w| w[0] < w[1]));
    assert!(!seen.is_empty());
}

#[test]
fn no_frame_attributable_to_warmup_ticks() {
    let (ipc, ends) = connect();
    let mut ctx = RenderContext::new(SceneController::new(1, 1, 2), 4);
    for _ in 0..2 {
        assert!(!ctx.tick_and_deliver(&ends.frames_tx, MapPoll::Pending));
        assert_eq!(ipc.recv(), None);
    }
}

#[test]
fn newest_returns_last_of_many() {
    let frames = vec![counted_frame(1), counted_frame(2), counted_frame(3)];
    assert_eq!(newest(frames), Some(counted_frame(3)));
}

#[test]
fn newest_of_nothing_is_none() {
    assert_eq!(newest(Vec::new()), None);
}

#[test]
fn stop_is_observed_within_one_tick() {
    let (ipc, ends) = connect();
    assert!(!poll_control(&ends.stop_rx));
    ipc.stop();
    assert!(poll_control(&ends.stop_rx));
    assert_eq!(runner_step(false, true), RunnerVerdict::ExitStopped);
}

#[test]
fn stop_twice_neither_panics_nor_blocks() {
    let (ipc, ends) = connect();
    ipc.stop();
    ipc.stop();
    assert!(poll_control(&ends.stop_rx));
    drop(ends);
    // The render thread is gone; a further stop request is a harmless no-op.
    ipc.stop();
}

#[test]
fn runner_prefers_engine_exit() {
    assert_eq!(runner_step(true, true), RunnerVerdict::ExitEngine);
    assert_eq!(runner_step(true, false), RunnerVerdict::ExitEngine);
    assert_eq!(runner_step(false, false), RunnerVerdict::Continue);
}

#[test]
fn disconnected_control_channel_is_not_a_stop() {
    let (ipc, ends) = connect();
    drop(ipc);
    assert!(!poll_control(&ends.stop_rx));
    assert_eq!(runner_step(false, false), RunnerVerdict::Continue);
}
