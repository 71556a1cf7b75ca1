use vstd::pervasive::VecAdditionalExecFns;
use vstd::prelude::*;

use crate::batch::slot_filled;
use crate::cursor::Cursor;

verus! {

/// One worker's share of a `foreach` batch: drain the shared cursor,
/// applying the user function in place to the element at each claimed index,
/// until the cursor reports the batch exhausted.
///
/// The worker leaves every index below the cursor's starting point alone and
/// rewrites each remaining element with a result the user function admits
/// for it. The function value is handed back to the dispatcher unchanged, so
/// the next worker of the batch runs the very same function.
pub fn run_foreach_worker<T, F: Fn(&T) -> T>(cursor: &mut Cursor, data: &mut Vec<T>, f: F) -> (g: F)
    requires
        forall|i: int|
            old(cursor).next_index() <= i < old(data)@.len() ==> #[trigger] call_requires(
                f,
                (&old(data)@[i],),
            ),
    ensures
        g == f,
        final(data)@.len() == old(data)@.len(),
        final(cursor).next_index() == if old(cursor).next_index() < old(data)@.len() {
            old(data)@.len() as nat
        } else {
            old(cursor).next_index()
        },
        forall|i: int|
            0 <= i < old(cursor).next_index() && i < old(data)@.len() ==> final(data)@[i] == old(
                data,
            )@[i],
        forall|i: int|
            old(cursor).next_index() <= i < old(data)@.len() ==> #[trigger] call_ensures(
                f,
                (&old(data)@[i],),
                final(data)@[i],
            ),
{
    let ghost orig = data@;
    let ghost start = cursor.next_index();
    loop
        invariant_except_break
            data@.len() == orig.len(),
            start <= cursor.next_index(),
            start < orig.len() ==> cursor.next_index() <= orig.len(),
            start >= orig.len() ==> cursor.next_index() == start,
            forall|i: int| 0 <= i < start && i < orig.len() ==> data@[i] == orig[i],
            forall|i: int| cursor.next_index() <= i < orig.len() ==> data@[i] == orig[i],
            forall|i: int|
                start <= i < cursor.next_index() && i < orig.len() ==> #[trigger] call_ensures(
                    f,
                    (&orig[i],),
                    data@[i],
                ),
            forall|i: int|
                start <= i < orig.len() ==> #[trigger] call_requires(f, (&orig[i],)),
        ensures
            data@.len() == orig.len(),
            cursor.next_index() == if start < orig.len() {
                orig.len()
            } else {
                start
            },
            forall|i: int| 0 <= i < start && i < orig.len() ==> data@[i] == orig[i],
            forall|i: int|
                start <= i < orig.len() ==> #[trigger] call_ensures(f, (&orig[i],), data@[i]),
        decreases
                if cursor.next_index() < orig.len() {
                    orig.len() - cursor.next_index()
                } else {
                    0
                },
    {
        match cursor.claim(data.len()) {
            Some(index) => {
                proof {
                    assert(data@[index as int] == orig[index as int]);
                    assert(call_requires(f, (&orig[index as int],)));
                }
                let updated = f(&data[index]);
                data.set(index, updated);
            },
            None => {
                break;
            },
        }
    }
    f
}

/// One worker's share of a `map` batch: drain the shared cursor and, for
/// each claimed index, write the user function's result for the input
/// element into the output slot at the same index.
///
/// A slot is written at most once per batch; the cursor hands each index out
/// only once, and the proof obligation where the slot is written turns the
/// defensive write-once check into a verified fact instead of a runtime
/// assertion. Slots outside the worker's share are left untouched.
pub fn run_map_worker<T, R, F: Fn(&T) -> R>(
    cursor: &mut Cursor,
    input: &Vec<T>,
    slots: &mut Vec<Option<R>>,
    f: F,
) -> (g: F)
    requires
        old(slots)@.len() == input@.len(),
        forall|i: int|
            old(cursor).next_index() <= i < input@.len() ==> #[trigger] call_requires(
                f,
                (&input@[i],),
            ),
        forall|i: int|
            old(cursor).next_index() <= i < input@.len() ==> (#[trigger] old(slots)@[i]) is None,
    ensures
        g == f,
        final(slots)@.len() == input@.len(),
        final(cursor).next_index() == if old(cursor).next_index() < input@.len() {
            input@.len() as nat
        } else {
            old(cursor).next_index()
        },
        forall|i: int|
            0 <= i < old(cursor).next_index() && i < input@.len() ==> final(slots)@[i] == old(
                slots,
            )@[i],
        forall|i: int|
            old(cursor).next_index() <= i < input@.len() ==> #[trigger] slot_filled(
                f,
                input@[i],
                final(slots)@[i],
            ),
{
    let ghost orig_slots = slots@;
    let ghost start = cursor.next_index();
    loop
        invariant_except_break
            slots@.len() == input@.len(),
            start <= cursor.next_index(),
            start < input@.len() ==> cursor.next_index() <= input@.len(),
            start >= input@.len() ==> cursor.next_index() == start,
            forall|i: int| 0 <= i < start && i < input@.len() ==> slots@[i] == orig_slots[i],
            forall|i: int|
                cursor.next_index() <= i < input@.len() ==> (#[trigger] slots@[i]) is None,
            forall|i: int|
                start <= i < cursor.next_index() && i < input@.len() ==> #[trigger] slot_filled(
                    f,
                    input@[i],
                    slots@[i],
                ),
            forall|i: int|
                start <= i < input@.len() ==> #[trigger] call_requires(f, (&input@[i],)),
        ensures
            slots@.len() == input@.len(),
            cursor.next_index() == if start < input@.len() {
                input@.len()
            } else {
                start
            },
            forall|i: int| 0 <= i < start && i < input@.len() ==> slots@[i] == orig_slots[i],
            forall|i: int|
                start <= i < input@.len() ==> #[trigger] slot_filled(f, input@[i], slots@[i]),
        decreases
                if cursor.next_index() < input@.len() {
                    input@.len() - cursor.next_index()
                } else {
                    0
                },
    {
        match cursor.claim(input.len()) {
            Some(index) => {
                proof {
                    assert(slots@[index as int] is None);
                    assert(call_requires(f, (&input@[index as int],)));
                }
                let produced = f(&input[index]);
                slots.set(index, Some(produced));
            },
            None => {
                break;
            },
        }
    }
    f
}

/// The unwrap step after a `map` batch: strip the written output slots down
/// to the finished sequence, index for index.
///
/// A batch run by at least one worker fills every slot, so an unfilled slot
/// here can only mean the partitioning itself went wrong; the precondition
/// states that this never happens, and the body proves the unfilled case
/// unreachable rather than tolerating it.
pub fn collect_filled<R>(slots: Vec<Option<R>>) -> (out: Vec<R>)
    requires
        forall|i: int| 0 <= i < slots@.len() ==> (#[trigger] slots@[i]) is Some,
    ensures
        out@.len() == slots@.len(),
        forall|i: int| 0 <= i < slots@.len() ==> slots@[i] == Some(#[trigger] out@[i]),
{
    let ghost orig = slots@;
    let mut rest = slots;
    let mut out: Vec<R> = Vec::new();
    while rest.len() > 0
        invariant
            out@.len() + rest@.len() == orig.len(),
            rest@ =~= orig.skip(out@.len() as int),
            forall|i: int| 0 <= i < orig.len() ==> (#[trigger] orig[i]) is Some,
            forall|i: int| 0 <= i < out@.len() ==> orig[i] == Some(#[trigger] out@[i]),
        decreases rest@.len(),
    {
        let ghost filled = out@.len() as int;
        let slot = rest.remove(0);
        proof {
            assert(slot == orig[filled]);
            assert(rest@ =~= orig.skip(filled + 1));
        }
        match slot {
            Some(value) => {
                out.push(value);
            },
            None => {
                proof {
                    assert(false);
                }
            },
        }
    }
    out
}

} // verus!
