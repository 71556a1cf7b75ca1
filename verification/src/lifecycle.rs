use vstd::prelude::*;

verus! {

/// The lifecycle of one persistent worker: blocked on its inbound channel
/// waiting for a batch, running a batch's claim loop, or stopped for good
/// once the pool is torn down.
#[derive(Clone, Copy, Debug, PartialEq, Eq, Structural)]
pub enum WorkerState {
    /// Blocked on the inbound channel, waiting for the next batch.
    Idle,
    /// Executing a batch share: draining the shared cursor.
    Running,
    /// The inbound channel closed; the worker exits and never runs again.
    Stopped,
}

/// What a worker can observe: one event drives one lifecycle transition.
#[derive(Clone, Copy, Debug, PartialEq, Eq, Structural)]
pub enum WorkerEvent {
    /// A batch share arrived on the worker's inbound channel.
    BatchReceived,
    /// The claim loop found the shared cursor exhausted, and the worker
    /// signalled the dispatch barrier.
    BatchExhausted,
    /// The inbound channel is closed for good: the pool was torn down.
    ChannelClosed,
}

/// The events a worker can observe in a given state: while idle, either a
/// batch or the pool's teardown; while running, only the end of its own
/// claim loop — a worker holds at most one batch share at a time, so no
/// second batch can arrive before the current one is exhausted. A stopped
/// worker observes nothing ever again.
pub open spec fn event_possible(state: WorkerState, event: WorkerEvent) -> bool {
    match state {
        WorkerState::Idle => event == WorkerEvent::BatchReceived || event
            == WorkerEvent::ChannelClosed,
        WorkerState::Running => event == WorkerEvent::BatchExhausted,
        WorkerState::Stopped => false,
    }
}

/// One transition of the worker lifecycle: receiving a batch starts the
/// claim loop, exhausting it returns the worker to waiting, and a closed
/// channel stops the worker cleanly.
pub fn worker_transition(state: WorkerState, event: WorkerEvent) -> (next: WorkerState)
    requires
        event_possible(state, event),
    ensures
        state == WorkerState::Idle && event == WorkerEvent::BatchReceived ==> next
            == WorkerState::Running,
        state == WorkerState::Idle && event == WorkerEvent::ChannelClosed ==> next
            == WorkerState::Stopped,
        state == WorkerState::Running ==> next == WorkerState::Idle,
{
    match (state, event) {
        (WorkerState::Idle, WorkerEvent::BatchReceived) => WorkerState::Running,
        (WorkerState::Idle, WorkerEvent::ChannelClosed) => WorkerState::Stopped,
        (WorkerState::Running, WorkerEvent::BatchExhausted) => WorkerState::Idle,
        _ => vstd::pervasive::unreached(),
    }
}

/// A stopped worker is stopped for good: no event can ever drive it again.
pub proof fn lemma_stopped_is_terminal(event: WorkerEvent)
    ensures
        !event_possible(WorkerState::Stopped, event),
{
}

} // verus!
