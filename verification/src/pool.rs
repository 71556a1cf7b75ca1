use vstd::prelude::*;

use crate::batch::{batch_post, batch_pre, slot_filled};
use crate::cursor::Cursor;
use crate::worker::{collect_filled, run_foreach_worker, run_map_worker};

verus! {

/// A fixed-size pool of workers for data-parallel batches.
///
/// The pool is created with a worker count that never changes. Each call to
/// [`ThreadPool::foreach`] or [`ThreadPool::map`] is one batch: a fresh
/// [`Cursor`] is shared by every worker, each worker drains it in turn, and
/// the call returns only once the batch is exhausted, with every index
/// processed exactly once. Which worker processes which index is never
/// promised; the contracts speak only of the finished batch, which is why
/// the result does not depend on the worker count.
pub struct ThreadPool {
    num_workers: usize,
}

impl ThreadPool {
    /// How many workers this pool dispatches each batch to.
    pub closed spec fn worker_count(&self) -> nat {
        self.num_workers as nat
    }

    /// A pool is well formed when it has at least one worker: a batch
    /// dispatched to no workers would return with nothing processed.
    pub open spec fn wf(&self) -> bool {
        self.worker_count() >= 1
    }

    /// The worker count this pool was constructed with.
    pub fn num_workers(&self) -> (n: usize)
        ensures
            n == self.worker_count(),
    {
        self.num_workers
    }

    /// A pool of exactly `num_threads` workers.
    pub fn new(num_threads: usize) -> (pool: ThreadPool)
        requires
            1 <= num_threads,
        ensures
            pool.wf(),
            pool.worker_count() == num_threads,
    {
        ThreadPool { num_workers: num_threads }
    }

    /// A pool sized to the hardware parallelism the caller detected, handed
    /// in as `detected`; when detection was unavailable or reported no
    /// usable count, the pool falls back to a single worker rather than
    /// fail.
    pub fn new_max_parallelism(detected: Option<usize>) -> (pool: ThreadPool)
        ensures
            pool.wf(),
            match detected {
                Some(n) => pool.worker_count() == if n >= 1 {
                    n as nat
                } else {
                    1nat
                },
                None => pool.worker_count() == 1,
            },
    {
        match detected {
            Some(n) => {
                if n >= 1 {
                    ThreadPool::new(n)
                } else {
                    ThreadPool::new(1)
                }
            },
            None => ThreadPool::new(1),
        }
    }

    /// One `foreach` batch: every element of `data` is rewritten, in place,
    /// with a result the user function admits for it, each index visited
    /// exactly once.
    pub fn foreach<T, F: Fn(&T) -> T>(&mut self, data: &mut Vec<T>, f: F)
        requires
            old(self).wf(),
            batch_pre(f, old(data)@),
        ensures
            *final(self) == *old(self),
            batch_post(f, old(data)@, final(data)@),
    {
        let ghost me = *self;
        let ghost orig = data@;
        let mut cursor = Cursor::new();
        let mut shared = f;
        let mut w: usize = 0;
        while w < self.num_workers
            invariant
                *self == me,
                me.wf(),
                w <= me.worker_count(),
                shared == f,
                data@.len() == orig.len(),
                batch_pre(f, orig),
                w == 0 ==> cursor.next_index() == 0 && data@ == orig,
                w >= 1 ==> cursor.next_index() == orig.len() && batch_post(f, orig, data@),
            decreases me.worker_count() - w,
        {
            shared = run_foreach_worker(&mut cursor, data, shared);
            w = w + 1;
        }
    }

    /// One `map` batch: the returned sequence has the input's length, and
    /// each returned element is a result the user function admits for the
    /// input element at the same index, each index filled exactly once.
    pub fn map<T, R, F: Fn(&T) -> R>(&mut self, input: &Vec<T>, f: F) -> (out: Vec<R>)
        requires
            old(self).wf(),
            batch_pre(f, input@),
        ensures
            *final(self) == *old(self),
            batch_post(f, input@, out@),
    {
        let ghost me = *self;
        let mut cursor = Cursor::new();
        let mut slots: Vec<Option<R>> = Vec::new();
        let mut k: usize = 0;
        while k < input.len()
            invariant
                k <= input@.len(),
                slots@.len() == k,
                forall|i: int| 0 <= i < k ==> (#[trigger] slots@[i]) is None,
            decreases input@.len() - k,
        {
            slots.push(None);
            k = k + 1;
        }
        let mut shared = f;
        let mut w: usize = 0;
        while w < self.num_workers
            invariant
                *self == me,
                me.wf(),
                w <= me.worker_count(),
                shared == f,
                slots@.len() == input@.len(),
                batch_pre(f, input@),
                w == 0 ==> cursor.next_index() == 0 && (forall|i: int|
                    0 <= i < input@.len() ==> (#[trigger] slots@[i]) is None),
                w >= 1 ==> cursor.next_index() == input@.len() && (forall|i: int|
                    0 <= i < input@.len() ==> #[trigger] slot_filled(f, input@[i], slots@[i])),
            decreases me.worker_count() - w,
        {
            shared = run_map_worker(&mut cursor, input, &mut slots, shared);
            w = w + 1;
        }
        let ghost filled = slots@;
        proof {
            assert forall|i: int| 0 <= i < slots@.len() implies (#[trigger] slots@[i]) is Some by {
                assert(slot_filled(f, input@[i], slots@[i]));
            }
        }
        let out = collect_filled(slots);
        proof {
            assert forall|i: int| 0 <= i < input@.len() implies #[trigger] call_ensures(
                f,
                (&input@[i],),
                out@[i],
            ) by {
                assert(slot_filled(f, input@[i], filled[i]));
                assert(filled[i] == Some(out@[i]));
            }
        }
        out
    }
}

} // verus!
