//! Core logic of a headless render/readback/delivery pipeline.
//!
//! A dedicated render thread draws into an off-screen target, copies each
//! finished frame into a host-visible staging buffer, and hands tightly
//! packed pixel payloads to a consumer thread over a non-blocking channel.
//! This crate holds the verified decision logic of that pipeline: the
//! readiness state machine that accounts for backend latency, the copy
//! gating with single-slot back-pressure, the padding-stripping frame
//! extraction, and the latest-wins consumer handle.

pub mod channel;
pub mod frame;
pub mod ipc;
pub mod laws;
pub mod pipeline;
pub mod readiness;
