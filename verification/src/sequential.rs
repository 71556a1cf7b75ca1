use vstd::prelude::*;

use crate::batch::{batch_post, batch_pre};

verus! {

/// The plain sequential loop that a `map` batch must agree with: one pass
/// over the input, front to back, applying the user function to each
/// element. It promises exactly what a pool of any size promises, which
/// together with [`crate::batch::lemma_batch_output_unique`] makes the two
/// agree whenever the user function is deterministic.
pub fn map_sequential<T, R, F: Fn(&T) -> R>(input: &Vec<T>, f: F) -> (out: Vec<R>)
    requires
        batch_pre(f, input@),
    ensures
        batch_post(f, input@, out@),
{
    let mut out: Vec<R> = Vec::new();
    let mut k: usize = 0;
    while k < input.len()
        invariant
            k <= input@.len(),
            out@.len() == k,
            batch_pre(f, input@),
            forall|i: int| 0 <= i < k ==> #[trigger] call_ensures(f, (&input@[i],), out@[i]),
        decreases input@.len() - k,
    {
        proof {
            assert(call_requires(f, (&input@[k as int],)));
        }
        let produced = f(&input[k]);
        out.push(produced);
        k = k + 1;
    }
    out
}

/// The plain sequential loop that a `foreach` batch must agree with: one
/// pass over the buffer, front to back, rewriting each element in place
/// with the user function's result for it.
pub fn foreach_sequential<T, F: Fn(&T) -> T>(data: &mut Vec<T>, f: F)
    requires
        batch_pre(f, old(data)@),
    ensures
        batch_post(f, old(data)@, final(data)@),
{
    let ghost orig = data@;
    let mut k: usize = 0;
    while k < data.len()
        invariant
            k <= orig.len(),
            data@.len() == orig.len(),
            batch_pre(f, orig),
            forall|i: int| k <= i < orig.len() ==> data@[i] == orig[i],
            forall|i: int| 0 <= i < k ==> #[trigger] call_ensures(f, (&orig[i],), data@[i]),
        decreases orig.len() - k,
    {
        proof {
            assert(data@[k as int] == orig[k as int]);
            assert(call_requires(f, (&orig[k as int],)));
        }
        let updated = f(&data[k]);
        data.set(k, updated);
        k = k + 1;
    }
}

} // verus!
