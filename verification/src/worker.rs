//! The worker state machine.
//!
//! A worker alternates between waiting for a task, issuing the remote
//! storage-read call for it, and logging the outcome. The decisions are a
//! pure step function from state and event to next state and action; the
//! asynchronous shell drives it: it waits on the queue, issues the remote
//! call, measures the elapsed time, and performs the emitted action (a log
//! line). Failure isolation is per call: a failed call sends the worker back
//! to waiting, never out of service. A worker ends only when the queue
//! reports end-of-stream, and then emits exactly one finished notice.

use vstd::prelude::*;

use crate::task::{Address, Slot, Task};

verus! {

/// How the remote storage-read call for one task came back.
pub enum CallOutcome {
    /// The provider answered; the shell measured this elapsed wall-clock
    /// time, in microseconds, between issuing the call and the answer.
    Returned { elapsed_micros: u64 },
    /// The provider failed this one call, with this detail text.
    Failed { detail: String },
}

/// Where a worker stands.
pub enum WorkerState {
    /// Waiting for the queue to hand out a task.
    Idle,
    /// A task was received and its remote call is in flight.
    Processing { task: Task },
    /// The queue ended; the worker is done and takes no further step.
    Terminated,
}

/// What the shell must do after a step.
pub enum WorkerAction {
    /// Issue the remote storage-read call for the task now held in the
    /// `Processing` state, measuring its duration.
    IssueCall,
    /// Emit the success log line: worker identity, duration, address, slot.
    LogSuccess { worker: usize, address: Address, slot: Slot, elapsed_micros: u64 },
    /// Emit the error log line: worker identity and error detail.
    LogFailure { worker: usize, detail: String },
    /// Emit the one final "finished" notice for this worker.
    LogFinished { worker: usize },
    /// Nothing to do: the event does not belong to this state.
    Nothing,
}

/// What the shell observed for a worker.
pub enum WorkerEvent {
    /// The queue handed out a task.
    TaskArrived { task: Task },
    /// The queue is closed and drained: no task will ever follow.
    StreamEnded,
    /// The in-flight remote call came back.
    CallReturned { outcome: CallOutcome },
}

/// Whether `event` is one the protocol can present to a worker in `state`:
/// an idle worker hears only from the queue, a processing worker only from
/// its in-flight call, and a terminated worker hears nothing.
pub open spec fn expects(state: WorkerState, event: WorkerEvent) -> bool {
    match state {
        WorkerState::Idle => event is TaskArrived || event is StreamEnded,
        WorkerState::Processing { .. } => event is CallReturned,
        WorkerState::Terminated => false,
    }
}

/// The worker's transition function on states.
pub open spec fn next_state(state: WorkerState, event: WorkerEvent) -> WorkerState {
    match (state, event) {
        (WorkerState::Idle, WorkerEvent::TaskArrived { task }) => WorkerState::Processing {
            task,
        },
        (WorkerState::Idle, WorkerEvent::StreamEnded) => WorkerState::Terminated,
        (WorkerState::Processing { .. }, WorkerEvent::CallReturned { .. }) => WorkerState::Idle,
        (s, _) => s,
    }
}

/// The action a worker with identity `worker` emits on a step.
pub open spec fn step_action(worker: usize, state: WorkerState, event: WorkerEvent) -> WorkerAction {
    match (state, event) {
        (WorkerState::Idle, WorkerEvent::TaskArrived { .. }) => WorkerAction::IssueCall,
        (WorkerState::Idle, WorkerEvent::StreamEnded) => WorkerAction::LogFinished { worker },
        (
            WorkerState::Processing { task },
            WorkerEvent::CallReturned { outcome: CallOutcome::Returned { elapsed_micros } },
        ) => WorkerAction::LogSuccess {
            worker,
            address: task.address,
            slot: task.slot,
            elapsed_micros,
        },
        (
            WorkerState::Processing { .. },
            WorkerEvent::CallReturned { outcome: CallOutcome::Failed { detail } },
        ) => WorkerAction::LogFailure { worker, detail },
        (_, _) => WorkerAction::Nothing,
    }
}

/// One step of worker `worker`: consumes the current state and the observed
/// event, returns the next state and the action the shell must perform.
pub fn worker_step(worker: usize, state: WorkerState, event: WorkerEvent) -> (r: (
    WorkerState,
    WorkerAction,
))
    ensures
        r.0 == next_state(state, event),
        r.1 == step_action(worker, state, event),
        !expects(state, event) ==> r.0 == state && r.1 is Nothing,
{
    match (state, event) {
        (WorkerState::Idle, WorkerEvent::TaskArrived { task }) => (
            WorkerState::Processing { task },
            WorkerAction::IssueCall,
        ),
        (WorkerState::Idle, WorkerEvent::StreamEnded) => (
            WorkerState::Terminated,
            WorkerAction::LogFinished { worker },
        ),
        (
            WorkerState::Processing { task },
            WorkerEvent::CallReturned { outcome: CallOutcome::Returned { elapsed_micros } },
        ) => (
            WorkerState::Idle,
            WorkerAction::LogSuccess {
                worker,
                address: task.address,
                slot: task.slot,
                elapsed_micros,
            },
        ),
        (
            WorkerState::Processing { .. },
            WorkerEvent::CallReturned { outcome: CallOutcome::Failed { detail } },
        ) => (WorkerState::Idle, WorkerAction::LogFailure { worker, detail }),
        (s, _) => (s, WorkerAction::Nothing),
    }
}

/// The state a worker reaches after observing a whole sequence of events.
pub open spec fn run_state(state: WorkerState, events: Seq<WorkerEvent>) -> WorkerState
    decreases events.len(),
{
    if events.len() == 0 {
        state
    } else {
        run_state(next_state(state, events[0]), events.skip(1))
    }
}

/// How many "finished" notices worker `worker` emits while observing
/// `events` from `state`.
pub open spec fn finished_count(worker: usize, state: WorkerState, events: Seq<WorkerEvent>) -> nat
    decreases events.len(),
{
    if events.len() == 0 {
        0
    } else {
        (if step_action(worker, state, events[0]) is LogFinished {
            1nat
        } else {
            0nat
        }) + finished_count(worker, next_state(state, events[0]), events.skip(1))
    }
}

/// How many actions other than `Nothing` worker `worker` emits while
/// observing `events` from `state`.
pub open spec fn emitted_count(worker: usize, state: WorkerState, events: Seq<WorkerEvent>) -> nat
    decreases events.len(),
{
    if events.len() == 0 {
        0
    } else {
        (if step_action(worker, state, events[0]) is Nothing {
            0nat
        } else {
            1nat
        }) + emitted_count(worker, next_state(state, events[0]), events.skip(1))
    }
}

/// A worker survives a failed call: the failure sends it back to `Idle` —
/// never to `Terminated` — it emits the error log line for the failure, and
/// the next task the queue hands it is taken up as usual, with its remote
/// call issued.
pub proof fn lemma_live_after_call_failure(
    worker: usize,
    task: Task,
    detail: String,
    next_task: Task,
)
    ensures
        next_state(
            WorkerState::Processing { task },
            WorkerEvent::CallReturned { outcome: CallOutcome::Failed { detail } },
        ) == WorkerState::Idle,
        step_action(
            worker,
            WorkerState::Processing { task },
            WorkerEvent::CallReturned { outcome: CallOutcome::Failed { detail } },
        ) == (WorkerAction::LogFailure { worker, detail }),
        next_state(WorkerState::Idle, WorkerEvent::TaskArrived { task: next_task })
            == (WorkerState::Processing { task: next_task }),
        step_action(worker, WorkerState::Idle, WorkerEvent::TaskArrived { task: next_task })
            is IssueCall,
{
}

/// A terminated worker is silent: it never leaves `Terminated` and emits no
/// action at all — in particular no further call-result event and no second
/// "finished" notice.
pub proof fn lemma_terminated_is_silent(worker: usize, events: Seq<WorkerEvent>)
    ensures
        run_state(WorkerState::Terminated, events) is Terminated,
        emitted_count(worker, WorkerState::Terminated, events) == 0,
        finished_count(worker, WorkerState::Terminated, events) == 0,
    decreases events.len(),
{
    if events.len() > 0 {
        lemma_terminated_is_silent(worker, events.skip(1));
    }
}

/// Each live worker finishes exactly once: over any sequence of observed
/// events, a worker emits at most one "finished" notice, and exactly one
/// precisely when the run ends terminated — which a live worker reaches
/// exactly by hearing end-of-stream.
pub proof fn lemma_finished_exactly_once(worker: usize, state: WorkerState, events: Seq<WorkerEvent>)
    ensures
        finished_count(worker, state, events) <= 1,
        state is Terminated ==> finished_count(worker, state, events) == 0,
        !(state is Terminated) ==> (finished_count(worker, state, events) == 1 <==> run_state(
            state,
            events,
        ) is Terminated),
    decreases events.len(),
{
    if state is Terminated {
        lemma_terminated_is_silent(worker, events);
    } else if events.len() > 0 {
        lemma_finished_exactly_once(worker, next_state(state, events[0]), events.skip(1));
        if next_state(state, events[0]) is Terminated {
            lemma_terminated_is_silent(worker, events.skip(1));
        }
    }
}

} // verus!
