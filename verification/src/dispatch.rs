use vstd::prelude::*;

verus! {

/// One claim granted during a batch: worker `worker` reserved index `index`.
pub struct IndexClaim {
    pub worker: nat,
    pub index: nat,
}

/// A snapshot of one in-flight batch, shared by `num_workers` workers over
/// `length` elements: the shared cursor's value, the history of claims in
/// the order the cursor granted them, and the set of workers that have
/// observed the batch exhausted and arrived at the dispatch barrier.
///
/// This is the mathematical model of the concurrent dispatch: the executable
/// pool runs its workers one after another, but nothing in this model fixes
/// an order — at every step any worker still running may act, so the
/// guarantees proved of it hold of every interleaving.
#[verifier::ext_equal]
pub struct BatchState {
    pub num_workers: nat,
    pub length: nat,
    pub next: nat,
    pub claims: Seq<IndexClaim>,
    pub arrived: Set<nat>,
}

/// The batch as the dispatcher sets it up: cursor at zero, no claims
/// granted, no worker at the barrier yet.
pub open spec fn initial(s: BatchState) -> bool {
    &&& s.next == 0
    &&& s.claims.len() == 0
    &&& forall|w: nat| !(#[trigger] s.arrived.contains(w))
}

/// Worker `w` claims the next index: it has not yet arrived at the barrier,
/// work remains, and the cursor's current value is granted to `w` and
/// advanced — atomically, which is why one claim is one whole step. A fetch
/// that finds the cursor at or past the batch length grants nothing and is
/// not recorded here; the worker making it arrives next.
pub open spec fn claim_step(pre: BatchState, post: BatchState, w: nat) -> bool {
    &&& w < pre.num_workers
    &&& !pre.arrived.contains(w)
    &&& pre.next < pre.length
    &&& post == (BatchState {
        next: pre.next + 1,
        claims: pre.claims.push(IndexClaim { worker: w, index: pre.next }),
        ..pre
    })
}

/// Worker `w` arrives at the dispatch barrier: it has observed the cursor at
/// or past the batch length, so it stops claiming for good and signals that
/// its share of the batch is done.
pub open spec fn arrive_step(pre: BatchState, post: BatchState, w: nat) -> bool {
    &&& w < pre.num_workers
    &&& !pre.arrived.contains(w)
    &&& pre.next >= pre.length
    &&& post == (BatchState { arrived: pre.arrived.insert(w), ..pre })
}

/// One step of the batch: some worker, any worker, claims or arrives.
pub open spec fn step(pre: BatchState, post: BatchState) -> bool {
    exists|w: nat|
        #![trigger claim_step(pre, post, w)]
        #![trigger arrive_step(pre, post, w)]
        (claim_step(pre, post, w) || arrive_step(pre, post, w))
}

/// What every reachable batch state satisfies: the cursor never passes the
/// batch length, the k-th claim ever granted is for index k, claims go only
/// to the batch's own workers, and a worker stands at the barrier only once
/// the whole batch has been claimed.
pub open spec fn batch_invariant(s: BatchState) -> bool {
    &&& s.next <= s.length
    &&& s.claims.len() == s.next
    &&& forall|k: int| 0 <= k < s.claims.len() ==> (#[trigger] s.claims[k]).index == k
    &&& forall|k: int| 0 <= k < s.claims.len() ==> (#[trigger] s.claims[k]).worker < s.num_workers
    &&& forall|w: nat| #[trigger] s.arrived.contains(w) ==> w < s.num_workers && s.next == s.length
}

/// The indices granted so far, in grant order.
pub open spec fn claimed_indices(s: BatchState) -> Seq<nat> {
    s.claims.map(|k: int, c: IndexClaim| c.index)
}

/// Some claim of the batch granted index `idx`.
pub open spec fn index_granted(s: BatchState, idx: int) -> bool {
    exists|k: int| 0 <= k < s.claims.len() && (#[trigger] s.claims[k]).index == idx
}

/// Every worker of the batch has arrived at the barrier — the moment the
/// dispatching call is allowed to return.
pub open spec fn complete(s: BatchState) -> bool {
    forall|w: nat| w < s.num_workers ==> #[trigger] s.arrived.contains(w)
}

/// A fresh batch satisfies the invariant.
pub proof fn lemma_initial_invariant(s: BatchState)
    requires
        initial(s),
    ensures
        batch_invariant(s),
{
}

/// Any step of any worker preserves the invariant.
pub proof fn lemma_step_preserves_invariant(pre: BatchState, post: BatchState)
    requires
        batch_invariant(pre),
        step(pre, post),
    ensures
        batch_invariant(post),
{
    let w = choose|w: nat|
        #![trigger claim_step(pre, post, w)]
        #![trigger arrive_step(pre, post, w)]
        (claim_step(pre, post, w) || arrive_step(pre, post, w));
    if claim_step(pre, post, w) {
        let granted = IndexClaim { worker: w, index: pre.next };
        assert(post.claims == pre.claims.push(granted));
        assert forall|k: int| 0 <= k < post.claims.len() implies (#[trigger] post.claims[k]).index
            == k && post.claims[k].worker < post.num_workers by {
            if k < pre.claims.len() {
                assert(post.claims[k] == pre.claims[k]);
            } else {
                assert(post.claims[k] == granted);
            }
        }
    } else {
        assert(arrive_step(pre, post, w));
    }
}

/// Exactly-once coverage of a finished batch: once every worker has arrived,
/// the batch has granted exactly `length` claims, every index in the batch
/// was claimed at least once, no index was claimed twice, and the claim
/// history as a whole is the index sequence `0, 1, ..., length - 1`.
pub proof fn lemma_batch_exactly_once(s: BatchState)
    requires
        batch_invariant(s),
        complete(s),
        s.num_workers >= 1,
    ensures
        s.claims.len() == s.length,
        forall|idx: int| 0 <= idx < s.length ==> #[trigger] index_granted(s, idx),
        forall|k1: int, k2: int|
            0 <= k1 < k2 < s.claims.len() ==> (#[trigger] s.claims[k1]).index
                != (#[trigger] s.claims[k2]).index,
        claimed_indices(s) =~= Seq::new(s.length, |i: int| i as nat),
{
    assert(s.arrived.contains(0nat));
    assert forall|idx: int| 0 <= idx < s.length implies #[trigger] index_granted(s, idx) by {
        assert(s.claims[idx].index == idx);
    }
}

/// A whole run of one batch: it starts fresh, and every state follows from
/// the one before it by a step of some worker.
pub open spec fn execution(b: Seq<BatchState>) -> bool {
    &&& b.len() >= 1
    &&& initial(b[0])
    &&& forall|j: int| 0 <= j < b.len() - 1 ==> #[trigger] step(b[j], b[j + 1])
}

/// Every state of a run satisfies the invariant.
pub proof fn lemma_execution_invariant(b: Seq<BatchState>, j: int)
    requires
        execution(b),
        0 <= j < b.len(),
    ensures
        batch_invariant(b[j]),
    decreases j,
{
    if j == 0 {
        lemma_initial_invariant(b[0]);
    } else {
        lemma_execution_invariant(b, j - 1);
        assert(step(b[j - 1], b[j - 1 + 1]));
        lemma_step_preserves_invariant(b[j - 1], b[j]);
    }
}

/// The cursor value of the library's own schedule after `j` steps: the
/// first worker's claims drain the whole batch before anyone arrives.
pub open spec fn schedule_cursor(length: nat, j: int) -> nat {
    if j <= length {
        j as nat
    } else {
        length
    }
}

/// How many workers of the library's own schedule have arrived after `j`
/// steps: none until the batch is drained, and one more with each further
/// step.
pub open spec fn schedule_arrivals(length: nat, j: int) -> int {
    if j <= length {
        0
    } else {
        j - length
    }
}

/// The batch state after `j` steps of the library's own schedule: the first
/// worker claims every index in order, and once the cursor is exhausted the
/// workers arrive at the barrier one after another.
pub open spec fn schedule_state(num_workers: nat, length: nat, j: int) -> BatchState {
    BatchState {
        num_workers,
        length,
        next: schedule_cursor(length, j),
        claims: Seq::new(
            schedule_cursor(length, j),
            |k: int| IndexClaim { worker: 0, index: k as nat },
        ),
        arrived: Set::new(|w: nat| (w as int) < schedule_arrivals(length, j)),
    }
}

/// The run the library's own dispatcher performs when its workers drain the
/// cursor one after another: a fresh batch, `length` claims, then one
/// arrival per worker.
pub open spec fn sequential_schedule(num_workers: nat, length: nat) -> Seq<BatchState> {
    Seq::new(1 + length + num_workers, |j: int| schedule_state(num_workers, length, j))
}

/// The model admits the library's own schedule: running one batch with the
/// first worker claiming every index is an execution that ends complete.
/// So the exactly-once law is never vacuous, and the executable dispatcher's
/// behaviour is one of the interleavings the law covers.
pub proof fn lemma_sequential_schedule_is_execution(num_workers: nat, length: nat)
    requires
        num_workers >= 1,
    ensures
        execution(sequential_schedule(num_workers, length)),
        complete(sequential_schedule(num_workers, length).last()),
{
    let b = sequential_schedule(num_workers, length);
    assert(b.len() == 1 + length + num_workers);
    assert(initial(b[0]));
    assert forall|j: int| 0 <= j < b.len() - 1 implies #[trigger] step(b[j], b[j + 1]) by {
        let pre = b[j];
        let post = b[j + 1];
        assert(pre == schedule_state(num_workers, length, j));
        assert(post == schedule_state(num_workers, length, j + 1));
        if j < length {
            let granted = IndexClaim { worker: 0 as nat, index: j as nat };
            assert(post.claims =~= pre.claims.push(granted));
            assert(post.arrived =~= pre.arrived);
            assert(post =~= (BatchState {
                next: (pre.next + 1) as nat,
                claims: pre.claims.push(granted),
                ..pre
            }));
            assert(claim_step(pre, post, 0 as nat));
        } else {
            let w = (j - length) as nat;
            assert(!pre.arrived.contains(w));
            assert(post.claims =~= pre.claims);
            assert(post.arrived =~= pre.arrived.insert(w));
            assert(post =~= (BatchState { arrived: pre.arrived.insert(w), ..pre }));
            assert(arrive_step(pre, post, w));
        }
    }
    let last = b[b.len() - 1];
    assert(last == schedule_state(num_workers, length, length + num_workers as int));
    assert forall|w: nat| w < num_workers implies #[trigger] last.arrived.contains(w) by {
        assert(schedule_arrivals(length, length + num_workers as int) == num_workers);
    }
    assert(b.last() == last);
}

/// The exactly-once law over a whole run: however the workers' claims and
/// arrivals interleave, a batch that starts fresh and ends with every worker
/// at the barrier has claimed each of its indices exactly once.
pub proof fn lemma_execution_exactly_once(b: Seq<BatchState>)
    requires
        execution(b),
        complete(b.last()),
        b.last().num_workers >= 1,
    ensures
        b.last().claims.len() == b.last().length,
        claimed_indices(b.last()) =~= Seq::new(b.last().length, |i: int| i as nat),
        forall|k1: int, k2: int|
            0 <= k1 < k2 < b.last().claims.len() ==> (#[trigger] b.last().claims[k1]).index
                != (#[trigger] b.last().claims[k2]).index,
{
    assert(b.last() == b[b.len() - 1]);
    lemma_execution_invariant(b, b.len() - 1);
    lemma_batch_exactly_once(b.last());
}

} // verus!
