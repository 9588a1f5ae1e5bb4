use vstd::prelude::*;

verus! {

/// Readiness of the render pipeline with respect to the backend's internal
/// frame buffering: a submitted frame's pixels are only guaranteed to be
/// resolved on the host side a fixed number of ticks after submission.
#[derive(Clone, Copy, PartialEq, Eq, Structural, Debug)]
pub enum SceneState {
    /// The backend still needs this many warm-up ticks before a submitted
    /// frame is fully resolved; no copy may run yet.
    Building(u32),
    /// Frames are being produced; the value is the sequence index that the
    /// next delivered frame will carry.
    Rendering(u64),
}

/// The readiness transition performed once per render tick: warm-up ticks
/// count down, and once the countdown is exhausted the machine enters
/// `Rendering(0)`, never to leave it.
pub open spec fn readiness_next(s: SceneState) -> SceneState {
    match s {
        SceneState::Building(n) => if n > 0 {
            SceneState::Building((n - 1) as u32)
        } else {
            SceneState::Rendering(0)
        },
        SceneState::Rendering(i) => SceneState::Rendering(i),
    }
}

/// State after recording one successful hand-off of a finished frame to the
/// host mapper: the frame index advances, and never regresses.
pub open spec fn recorded(s: SceneState) -> SceneState {
    match s {
        SceneState::Building(n) => SceneState::Building(n),
        SceneState::Rendering(i) => SceneState::Rendering((i + 1) as u64),
    }
}

/// The sequence index the next delivered frame would carry (zero while the
/// pipeline is still warming up).
pub open spec fn frame_counter(s: SceneState) -> u64 {
    match s {
        SceneState::Building(_) => 0,
        SceneState::Rendering(i) => i,
    }
}

/// Fixed render-target description plus the readiness state that gates the
/// per-tick copy of its contents to the host.
pub struct SceneController {
    pub state: SceneState,
    pub width: u32,
    pub height: u32,
}

impl SceneController {
    /// Logical length in bytes of one delivered frame: four bytes per pixel,
    /// row-major, without any staging padding.
    pub open spec fn spec_frame_len(self) -> int {
        self.width * self.height * 4
    }

    /// A frame must fit in host memory as one byte vector.
    pub open spec fn wf(self) -> bool {
        self.spec_frame_len() <= usize::MAX
    }

    /// A fresh controller for a `width` x `height` target on a backend that
    /// needs `latency` warm-up ticks before host-side pixels are available.
    pub fn new(width: u32, height: u32, latency: u32) -> (r: Self)
        requires
            width * height * 4 <= usize::MAX,
        ensures
            r == (SceneController { state: SceneState::Building(latency), width, height }),
            r.wf(),
    {
        SceneController { state: SceneState::Building(latency), width, height }
    }

    /// One readiness step per render tick. Returns whether the copy window
    /// is open this tick: it opens on the first tick after the warm-up
    /// countdown reaches zero and stays open from then on.
    pub fn tick(&mut self) -> (copy_open: bool)
        ensures
            final(self).state == readiness_next(old(self).state),
            final(self).width == old(self).width,
            final(self).height == old(self).height,
            copy_open == (final(self).state is Rendering),
    {
        match self.state {
            SceneState::Building(n) => {
                if n > 0 {
                    self.state = SceneState::Building(n - 1);
                    false
                } else {
                    self.state = SceneState::Rendering(0);
                    true
                }
            }
            SceneState::Rendering(_) => true,
        }
    }

    /// Record one successful hand-off to the host mapper: the index the next
    /// frame will carry moves up by one.
    pub fn record_handoff(&mut self)
        requires
            old(self).state is Rendering,
            frame_counter(old(self).state) < u64::MAX,
        ensures
            final(self).state == recorded(old(self).state),
            final(self).width == old(self).width,
            final(self).height == old(self).height,
    {
        match self.state {
            SceneState::Rendering(i) => {
                self.state = SceneState::Rendering(i + 1);
            }
            SceneState::Building(_) => {}
        }
    }
}

} // verus!
