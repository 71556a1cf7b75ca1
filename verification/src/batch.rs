use vstd::prelude::*;

verus! {

/// The user function may be applied to every element of the batch: its
/// precondition holds of each element of `input`.
///
/// Both pool operations demand this of their callers, since which worker
/// claims which index is not promised and every element will be visited.
pub open spec fn batch_pre<T, R, F: Fn(&T) -> R>(f: F, input: Seq<T>) -> bool {
    forall|i: int| 0 <= i < input.len() ==> #[trigger] call_requires(f, (&input[i],))
}

/// What one completed batch guarantees: the output has the input's length,
/// and each output element is a possible result of the user function applied
/// to the input element at the same index.
///
/// For `map` the output is the returned sequence; for `foreach` it is the
/// buffer after the call, related pointwise to the buffer before it.
pub open spec fn batch_post<T, R, F: Fn(&T) -> R>(f: F, input: Seq<T>, output: Seq<R>) -> bool {
    &&& output.len() == input.len()
    &&& forall|i: int|
        0 <= i < input.len() ==> #[trigger] call_ensures(f, (&input[i],), output[i])
}

/// An output slot of a `map` batch holds a finished result for the input
/// element `x`: it has been written, and what it holds is a possible result
/// of the user function applied to `x`.
pub open spec fn slot_filled<T, R, F: Fn(&T) -> R>(f: F, x: T, slot: Option<R>) -> bool {
    slot matches Some(y) && call_ensures(f, (&x,), y)
}

/// On the elements of `input`, the user function determines its result: any
/// two results it admits for the same element are equal.
pub open spec fn deterministic_on<T, R, F: Fn(&T) -> R>(f: F, input: Seq<T>) -> bool {
    forall|i: int, y1: R, y2: R|
        0 <= i < input.len() && #[trigger] call_ensures(f, (&input[i],), y1)
            && #[trigger] call_ensures(f, (&input[i],), y2) ==> y1 == y2
}

/// A deterministic user function pins the batch output completely: any two
/// outputs that satisfy one batch's guarantee on the same input are equal.
///
/// The batch guarantee never mentions the worker count or the order in which
/// indices were claimed, so this law says at once that a single-worker pool,
/// a pool of any other size, and a plain sequential loop all produce the
/// same output whenever the user function is deterministic.
pub proof fn lemma_batch_output_unique<T, R, F: Fn(&T) -> R>(
    f: F,
    input: Seq<T>,
    out1: Seq<R>,
    out2: Seq<R>,
)
    requires
        batch_post(f, input, out1),
        batch_post(f, input, out2),
        deterministic_on(f, input),
    ensures
        out1 =~= out2,
{
    assert forall|i: int| 0 <= i < out1.len() implies out1[i] == out2[i] by {
        assert(call_ensures(f, (&input[i],), out1[i]));
        assert(call_ensures(f, (&input[i],), out2[i]));
    }
}

} // verus!
