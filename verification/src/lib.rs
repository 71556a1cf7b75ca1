//! A fixed-size worker pool for data-parallel `foreach` and `map` over a
//! sequence, built around a single shared claim counter: each worker
//! repeatedly reserves the next unprocessed index and applies the
//! user-supplied function to the element at that index, so that every index
//! in the batch is visited exactly once.

mod batch;
mod cursor;
mod dispatch;
mod lifecycle;
mod pool;
mod sequential;
mod worker;

pub use batch::{batch_post, batch_pre, deterministic_on, lemma_batch_output_unique, slot_filled};
pub use cursor::Cursor;
pub use dispatch::{
    arrive_step, batch_invariant, claim_step, claimed_indices, complete, execution, index_granted,
    initial, lemma_batch_exactly_once, lemma_execution_exactly_once, lemma_execution_invariant,
    lemma_initial_invariant, lemma_sequential_schedule_is_execution,
    lemma_step_preserves_invariant, schedule_arrivals, schedule_cursor, schedule_state,
    sequential_schedule, step, BatchState, IndexClaim,
};
pub use lifecycle::{
    event_possible, lemma_stopped_is_terminal, worker_transition, WorkerEvent, WorkerState,
};
pub use pool::ThreadPool;
pub use sequential::{foreach_sequential, map_sequential};
pub use worker::{collect_filled, run_foreach_worker, run_map_worker};
