use vstd::prelude::*;

verus! {

use crate::ipc::{runner_verdict, RunnerVerdict};
use crate::pipeline::{tick_step, PollKind};
use crate::readiness::{frame_counter, readiness_next, recorded, SceneState};

/// The whole pipeline, abstractly: the readiness state, the single-slot
/// mapper busy flag, and the sequence numbers of the frames that sit in the
/// frame channel, oldest first, not yet drained by the consumer.
pub ghost struct PipeModel {
    pub state: SceneState,
    pub in_flight: bool,
    pub queue: Seq<u64>,
}

/// A freshly started pipeline on a backend that needs `latency` warm-up
/// ticks: still building, nothing in flight, nothing delivered.
pub open spec fn model_init(latency: u32) -> PipeModel {
    PipeModel { state: SceneState::Building(latency), in_flight: false, queue: Seq::empty() }
}

/// One render tick of the whole pipeline: the per-tick transition of the
/// render context, with a completed map appending the finished frame's
/// sequence number to the channel.
pub open spec fn model_tick(m: PipeModel, k: PollKind) -> PipeModel {
    let step = tick_step(m.state, m.in_flight, k);
    PipeModel {
        state: step.state,
        in_flight: step.in_flight,
        queue: if step.emit {
            m.queue.push(frame_counter(m.state))
        } else {
            m.queue
        },
    }
}

/// A run of consecutive ticks, one poll outcome per tick.
pub open spec fn model_run(m: PipeModel, polls: Seq<PollKind>) -> PipeModel
    decreases polls.len(),
{
    if polls.len() == 0 {
        m
    } else {
        model_run(model_tick(m, polls[0]), polls.drop_first())
    }
}

/// What a consumer poll returns: the newest queued frame, or nothing; every
/// older queued frame is discarded with it.
pub open spec fn polled_frame(m: PipeModel) -> Option<u64> {
    if m.queue.len() == 0 {
        None
    } else {
        Some(m.queue.last())
    }
}

/// The pipeline's invariant: the copy slot is only busy while frames are
/// being produced, nothing is delivered during warm-up, queued frames carry
/// strictly increasing sequence numbers, and all of them predate the frame
/// the pipeline would deliver next.
pub open spec fn model_inv(m: PipeModel) -> bool {
    &&& (m.in_flight ==> m.state is Rendering)
    &&& (m.state is Building ==> m.queue.len() == 0 && !m.in_flight)
    &&& (forall|j: int, k: int| 0 <= j < k < m.queue.len() ==> m.queue[j] < m.queue[k])
    &&& (forall|j: int| 0 <= j < m.queue.len() ==> m.queue[j] < frame_counter(m.state))
}

/// Once the pipeline produces frames it does so for good: readiness never
/// leaves the rendering phase, and recording a delivery advances the frame
/// index, which never regresses.
pub proof fn lemma_rendering_is_forever(s: SceneState)
    requires
        s is Rendering,
        frame_counter(s) < u64::MAX,
    ensures
        readiness_next(s) == s,
        recorded(s) is Rendering,
        frame_counter(recorded(s)) == frame_counter(s) + 1,
{
}

/// A fresh pipeline satisfies the invariant.
pub proof fn lemma_init_inv(latency: u32)
    ensures
        model_inv(model_init(latency)),
{
}

/// Readiness law: however the device polls turn out, for the first
/// `latency` ticks the pipeline is still warming up, no copy is in flight,
/// and not a single frame payload has been produced.
pub proof fn lemma_no_frame_before_ready(latency: u32, polls: Seq<PollKind>)
    requires
        polls.len() <= latency,
    ensures
        model_run(model_init(latency), polls).queue.len() == 0,
        model_run(model_init(latency), polls).state == SceneState::Building(
            (latency - polls.len()) as u32,
        ),
        !model_run(model_init(latency), polls).in_flight,
    decreases polls.len(),
{
    if polls.len() > 0 {
        let m1 = model_tick(model_init(latency), polls[0]);
        assert(m1.state == SceneState::Building((latency - 1) as u32));
        assert(m1.queue =~= model_init((latency - 1) as u32).queue);
        lemma_no_frame_before_ready((latency - 1) as u32, polls.drop_first());
    }
}

/// Monotonic delivery, single step: the invariant is preserved by every
/// tick, so the frame channel always holds strictly increasing sequence
/// numbers and the consumer can never observe frames out of order.
pub proof fn lemma_monotonic_delivery(m: PipeModel, k: PollKind)
    requires
        model_inv(m),
        frame_counter(m.state) < u64::MAX,
    ensures
        model_inv(model_tick(m, k)),
{
    let m2 = model_tick(m, k);
    let step = tick_step(m.state, m.in_flight, k);
    if step.emit {
        let q2 = m.queue.push(frame_counter(m.state));
        assert forall|j: int, l: int| 0 <= j < l < q2.len() implies q2[j] < q2[l] by {
            if l == q2.len() - 1 {
                assert(q2[l] == frame_counter(m.state));
            }
        }
        assert forall|j: int| 0 <= j < q2.len() implies q2[j] < frame_counter(m2.state) by {
            assert(frame_counter(m2.state) == frame_counter(m.state) + 1);
        }
    }
}

/// The next frame's sequence number grows by at most one per tick.
pub proof fn lemma_counter_step(m: PipeModel, k: PollKind)
    ensures
        frame_counter(model_tick(m, k).state) <= frame_counter(m.state) + 1,
{
}

/// Monotonic delivery over a whole run: from any state satisfying the
/// invariant, any sequence of ticks short enough for the frame counter not
/// to exhaust its machine word leaves the invariant intact.
pub proof fn lemma_monotonic_delivery_run(m: PipeModel, polls: Seq<PollKind>)
    requires
        model_inv(m),
        frame_counter(m.state) + polls.len() <= u64::MAX,
    ensures
        model_inv(model_run(m, polls)),
    decreases polls.len(),
{
    if polls.len() > 0 {
        lemma_monotonic_delivery(m, polls[0]);
        lemma_counter_step(m, polls[0]);
        lemma_monotonic_delivery_run(model_tick(m, polls[0]), polls.drop_first());
    }
}

/// Latest wins: whenever frames are waiting, a consumer poll returns the
/// newest of them — the one every other queued frame predates — and the
/// rest are discarded, never delivered later.
pub proof fn lemma_latest_wins(m: PipeModel)
    requires
        model_inv(m),
        m.queue.len() > 0,
    ensures
        polled_frame(m) == Some(m.queue.last()),
        forall|j: int| 0 <= j < m.queue.len() - 1 ==> m.queue[j] < m.queue.last(),
{
}

/// Back-pressure, single tick: while the mapper still holds an unfinished
/// map, a tick issues no copy and emits no frame.
pub proof fn lemma_backpressure_no_issue(m: PipeModel)
    requires
        m.in_flight,
    ensures
        !tick_step(m.state, m.in_flight, PollKind::Pending).issue,
        !tick_step(m.state, m.in_flight, PollKind::Pending).emit,
{
}

/// Back-pressure, stalled run: however many consecutive ticks find the map
/// still pending, the pipeline neither crashes nor wedges — its state is
/// exactly what it was, and nothing was delivered.
pub proof fn lemma_backpressure_stall(m: PipeModel, polls: Seq<PollKind>)
    requires
        model_inv(m),
        m.in_flight,
        forall|j: int| 0 <= j < polls.len() ==> polls[j] == PollKind::Pending,
    ensures
        model_run(m, polls).state == m.state,
        model_run(m, polls).in_flight == m.in_flight,
        model_run(m, polls).queue == m.queue,
    decreases polls.len(),
{
    if polls.len() > 0 {
        let m1 = model_tick(m, polls[0]);
        assert(m1.state == m.state);
        lemma_backpressure_stall(m1, polls.drop_first());
    }
}

/// Back-pressure, resumption: the tick whose poll finally reports the map
/// complete both delivers the finished frame and immediately issues the
/// next copy — the pipeline resumes producing.
pub proof fn lemma_backpressure_resume(m: PipeModel)
    requires
        model_inv(m),
        m.in_flight,
    ensures
        tick_step(m.state, m.in_flight, PollKind::Done).emit,
        tick_step(m.state, m.in_flight, PollKind::Done).issue,
{
}

/// Shutdown bound: whatever the engine reports, an iteration that observes
/// a pending stop request never decides to continue — the render loop ends
/// within the very tick that sees the token.
pub proof fn lemma_stop_bound(engine_exit: bool)
    ensures
        runner_verdict(engine_exit, true) != RunnerVerdict::Continue,
{
}

} // verus!
