use framepipe::frame::extract_frame;
use framepipe::pipeline::{MapPoll, RenderContext};
use framepipe::readiness::{SceneController, SceneState};

/// A staging buffer of `height` rows of `stride` bytes, whose logical
/// `width * 4` leading bytes per row hold `fill`, the padding holding a
/// marker that must never reach a payload.
fn staged(width: u32, height: u32, stride: usize, fill: u8) -> Vec<u8> {
    let mut buf = vec![0xEEu8; height as usize * stride];
    for r in 0..height as usize {
        for c in 0..width as usize * 4 {
            buf[r * stride + c] = fill;
        }
    }
    buf
}

#[test]
fn readiness_counts_down_before_first_copy() {
    let mut c = SceneController::new(64, 64, 3);
    assert_eq!(c.state, SceneState::Building(3));
    assert!(!c.tick());
    assert!(!c.tick());
    assert!(!c.tick());
    assert_eq!(c.state, SceneState::Building(0));
    assert!(c.tick());
    assert_eq!(c.state, SceneState::Rendering(0));
    assert!(c.tick());
    assert_eq!(c.state, SceneState::Rendering(0));
}

#[test]
fn readiness_zero_latency_opens_on_first_tick() {
    let mut c = SceneController::new(64, 64, 0);
    assert!(c.tick());
    assert_eq!(c.state, SceneState::Rendering(0));
}

#[test]
fn handoff_advances_frame_index() {
    let mut c = SceneController::new(8, 8, 0);
    c.tick();
    c.record_handoff();
    c.record_handoff();
    assert_eq!(c.state, SceneState::Rendering(2));
}

#[test]
fn no_payload_before_warmup_ends() {
    // With latency 3, ticks 1..=3 must neither copy nor emit anything.
    let c = SceneController::new(4, 4, 3);
    let mut ctx = RenderContext::new(c, 16);
    for _ in 0..3 {
        let r = ctx.tick(MapPoll::Pending);
        assert!(!r.issue_copy);
        assert!(r.payload.is_none());
        assert!(!ctx.in_flight);
    }
    let r = ctx.tick(MapPoll::Pending);
    assert!(r.issue_copy);
    assert!(r.payload.is_none());
}

#[test]
fn extract_frame_has_exact_length_64x64() {
    let src = staged(64, 64, 64 * 4, 1);
    let out = extract_frame(&src, 64, 64, 64 * 4);
    assert_eq!(out.len(), 16384);
}

#[test]
fn extract_frame_has_exact_length_1280x720() {
    let src = staged(1280, 720, 1280 * 4, 1);
    let out = extract_frame(&src, 1280, 720, 1280 * 4);
    assert_eq!(out.len(), 3_686_400);
}

#[test]
fn extract_frame_strips_row_padding() {
    // Two rows of one pixel each, padded to a stride of 7 bytes.
    let src = vec![1, 2, 3, 4, 0xEE, 0xEE, 0xEE, 5, 6, 7, 8, 0xEE, 0xEE, 0xEE];
    let out = extract_frame(&src, 1, 2, 7);
    assert_eq!(out, vec![1, 2, 3, 4, 5, 6, 7, 8]);
}

#[test]
fn extract_frame_identity_without_padding() {
    let src = vec![9, 8, 7, 6, 5, 4, 3, 2];
    let out = extract_frame(&src, 2, 1, 8);
    assert_eq!(out, src);
}

#[test]
fn delivered_payload_has_fixed_size() {
    let c = SceneController::new(64, 64, 0);
    let mut ctx = RenderContext::new(c, 64 * 4 + 32);
    assert!(ctx.tick(MapPoll::Pending).issue_copy);
    let r = ctx.tick(MapPoll::Ready(staged(64, 64, 64 * 4 + 32, 3)));
    let payload = r.payload.expect("completed map must deliver");
    assert_eq!(payload.len(), 64 * 64 * 4);
    assert!(payload.iter().all(|&b| b == 3));
}

#[test]
fn backpressure_skips_exactly_while_busy() {
    // Hold the mapper busy for five ticks: five ticks issue no copy and
    // deliver nothing, and the pipeline resumes once the map completes.
    let c = SceneController::new(1, 1, 0);
    let mut ctx = RenderContext::new(c, 4);
    assert!(ctx.tick(MapPoll::Pending).issue_copy);
    for _ in 0..5 {
        let r = ctx.tick(MapPoll::Pending);
        assert!(!r.issue_copy);
        assert!(r.payload.is_none());
        assert!(ctx.in_flight);
    }
    let r = ctx.tick(MapPoll::Ready(vec![7, 7, 7, 7]));
    assert!(r.issue_copy);
    assert_eq!(r.payload, Some(vec![7, 7, 7, 7]));
    assert_eq!(ctx.controller.state, SceneState::Rendering(1));
}

#[test]
fn failed_map_drops_frame_and_continues() {
    let c = SceneController::new(1, 1, 0);
    let mut ctx = RenderContext::new(c, 4);
    assert!(ctx.tick(MapPoll::Pending).issue_copy);
    let r = ctx.tick(MapPoll::Failed);
    assert!(r.payload.is_none());
    // The slot was freed, so the same tick issues the next copy.
    assert!(r.issue_copy);
    assert_eq!(ctx.controller.state, SceneState::Rendering(0));
}

#[test]
fn short_mapped_buffer_counts_as_failure() {
    let c = SceneController::new(1, 1, 0);
    let mut ctx = RenderContext::new(c, 4);
    assert!(ctx.tick(MapPoll::Pending).issue_copy);
    let r = ctx.tick(MapPoll::Ready(vec![1, 2]));
    assert!(r.payload.is_none());
    assert!(r.issue_copy);
    assert_eq!(ctx.controller.state, SceneState::Rendering(0));
}
