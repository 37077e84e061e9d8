//! Dispatch decisions of one worker: each worker loops pull → mix → emit
//! until its channel fails or the global shutdown signal is raised.
//!
//! The loop's waiting (on the channel, on the audio sink) happens outside the
//! library; the library decides, from the worker's state and the event the
//! wait produced, whether to emit a mixed segment and whether to keep
//! running. Shutdown is final: a worker that has observed it never mixes
//! another cycle, whatever arrives later.

use vstd::prelude::*;
use crate::packet::{PacketInfo, PacketModel};
use crate::collector::{PollDecision, collect_step, spec_decoded_batch};
use crate::mix::{MixedSegment, mix_batch, spec_batch_voices, spec_normalized_gain};

verus! {

/// What one wait on a worker's channel came back with: a decoded batch, the
/// channel's producer-side failure, or the global shutdown signal.
pub enum WorkerEvent {
    Batch(Vec<PacketInfo>),
    ChannelFailed,
    Shutdown,
}

/// Mathematical model of one event.
pub ghost enum EventModel {
    Batch(Seq<PacketModel>),
    ChannelFailed,
    Shutdown,
}

impl View for WorkerEvent {
    type V = EventModel;

    open spec fn view(&self) -> EventModel {
        match self {
            WorkerEvent::Batch(b) => EventModel::Batch(b@.map_values(|p: PacketInfo| p@)),
            WorkerEvent::ChannelFailed => EventModel::ChannelFailed,
            WorkerEvent::Shutdown => EventModel::Shutdown,
        }
    }
}

/// One worker's state: whether it is still pulling batches.
pub struct WorkerState {
    pub running: bool,
}

/// What the worker does with one event: hand a mixed segment to the shared
/// sink, or stop pulling.
pub enum WorkerAction {
    Emit(MixedSegment),
    Stop,
}

impl WorkerState {
    /// A freshly spawned worker is running.
    pub fn new() -> (s: WorkerState)
        ensures
            s.running,
    {
        WorkerState { running: true }
    }
}

/// The state after one event: a worker keeps running only while it is already
/// running and the event is a batch; failure and shutdown both stop it.
pub open spec fn spec_step_state(s: WorkerState, e: EventModel) -> WorkerState {
    WorkerState { running: s.running && e is Batch }
}

/// Whether one event makes the worker mix and emit: only a batch, and only
/// while the worker is still running.
pub open spec fn spec_step_emits(s: WorkerState, e: EventModel) -> bool {
    s.running && e is Batch
}

/// The state after a whole history of events, oldest first.
pub open spec fn spec_run_state(s0: WorkerState, events: Seq<EventModel>) -> WorkerState
    decreases events.len(),
{
    if events.len() == 0 {
        s0
    } else {
        spec_step_state(spec_run_state(s0, events.drop_last()), events.last())
    }
}

/// Process one event. A running worker mixes each incoming batch under the
/// normalization law and emits the segment; a channel failure or the shutdown
/// signal stops the worker, and a stopped worker never emits again.
pub fn worker_step(state: &mut WorkerState, event: WorkerEvent, num_workers: usize) -> (a: WorkerAction)
    requires
        num_workers >= 1,
        event matches WorkerEvent::Batch(b) ==> b@.len() > 0,
    ensures
        *final(state) == spec_step_state(*old(state), event@),
        a is Emit <==> spec_step_emits(*old(state), event@),
        a matches WorkerAction::Emit(seg) ==> seg.wf(),
        a matches WorkerAction::Emit(seg) ==> (event@ matches EventModel::Batch(b)
            && seg.voices@ == spec_batch_voices(
                b,
                spec_normalized_gain(num_workers as int, b.len() as int),
            )),
{
    match event {
        WorkerEvent::Batch(b) => {
            if state.running {
                let seg = mix_batch(&b, num_workers);
                WorkerAction::Emit(seg)
            } else {
                WorkerAction::Stop
            }
        },
        WorkerEvent::ChannelFailed => {
            state.running = false;
            WorkerAction::Stop
        },
        WorkerEvent::Shutdown => {
            state.running = false;
            WorkerAction::Stop
        },
    }
}

/// What one whole mixing cycle led to: a segment for the sink, another poll
/// because nothing valid arrived, or nothing because the worker has stopped.
pub enum CycleOutcome {
    Emitted(MixedSegment),
    Polled,
    Stopped,
}

/// One whole mixing cycle of a running worker: decode the poll's buffers,
/// map and mix the batch, and emit the segment. A poll without a valid
/// record only asks for the next poll, and a stopped worker pulls no batch
/// at all.
pub fn mixing_cycle(
    state: &mut WorkerState,
    bufs: &Vec<Vec<u8>>,
    read: usize,
    lost: u64,
    num_workers: usize,
) -> (r: CycleOutcome)
    requires
        num_workers >= 1,
    ensures
        ({
            let recs = spec_decoded_batch(
                bufs@.map_values(|b: Vec<u8>| b@),
                if read <= bufs@.len() { read as int } else { bufs@.len() as int },
            );
            &&& !old(state).running ==> (r is Stopped && *final(state) == *old(state))
            &&& (old(state).running && recs.len() == 0) ==> (r is Polled && *final(state) == *old(
                state,
            ))
            &&& (old(state).running && recs.len() > 0) ==> (r matches CycleOutcome::Emitted(seg)
                && final(state).running && seg.wf() && seg.voices@ == spec_batch_voices(
                recs,
                spec_normalized_gain(num_workers as int, recs.len() as int),
            ))
        }),
{
    if !state.running {
        return CycleOutcome::Stopped;
    }
    match collect_step(bufs, read, lost) {
        PollDecision::Retry => CycleOutcome::Polled,
        PollDecision::Deliver(batch) => {
            match worker_step(state, WorkerEvent::Batch(batch), num_workers) {
                WorkerAction::Emit(seg) => CycleOutcome::Emitted(seg),
                WorkerAction::Stop => {
                    // unreachable: a running worker always emits on a
                    // delivered batch, and delivered batches are never empty
                    proof {
                        assert(false);
                    }
                    CycleOutcome::Stopped
                },
            }
        },
    }
}

proof fn lemma_stopped_after_shutdown(s0: WorkerState, events: Seq<EventModel>, i: int, j: int)
    requires
        0 <= i < j <= events.len(),
        !(events[i] is Batch),
    ensures
        !spec_run_state(s0, events.take(j)).running,
    decreases j,
{
    assert(events.take(j).drop_last() =~= events.take(j - 1));
    assert(events.take(j).last() == events[j - 1]);
    if j > i + 1 {
        lemma_stopped_after_shutdown(s0, events, i, j - 1);
    }
}

/// Shutdown is final: if any event of a worker's history was the shutdown
/// signal (or a channel failure), then no later event — batch or otherwise —
/// makes the worker emit another segment.
pub proof fn lemma_no_emission_after_shutdown(s0: WorkerState, events: Seq<EventModel>, i: int, j: int)
    requires
        0 <= i < j < events.len(),
        !(events[i] is Batch),
    ensures
        !spec_step_emits(spec_run_state(s0, events.take(j)), events[j]),
{
    lemma_stopped_after_shutdown(s0, events, i, j);
}

} // verus!
