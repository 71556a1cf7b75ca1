use vstd::prelude::*;

verus! {

/// The shared claim counter of one batch.
///
/// A batch hands every worker the same counter, starting at zero. A worker
/// partitions work by claiming the counter's current value and advancing it;
/// a claimed value below the batch length is that worker's next index to
/// process, and a value at or past the length means the batch is exhausted.
/// Claiming is the only coordination between workers, so the counter is the
/// whole partitioning algorithm: the k-th claim of a batch yields index k,
/// whoever makes it.
pub struct Cursor {
    next: usize,
}

impl Cursor {
    /// The next index this cursor will hand out.
    pub closed spec fn next_index(&self) -> nat {
        self.next as nat
    }

    /// A fresh cursor for a new batch, positioned at index zero.
    pub fn new() -> (c: Cursor)
        ensures
            c.next_index() == 0,
    {
        Cursor { next: 0 }
    }

    /// Claim the next unprocessed index of a batch of `length` elements.
    ///
    /// Returns `Some(i)` exactly when an unclaimed index `i < length`
    /// remains, advancing the cursor past it; once the batch is exhausted
    /// every further claim returns `None` and leaves the cursor unchanged.
    pub fn claim(&mut self, length: usize) -> (r: Option<usize>)
        ensures
            old(self).next_index() < length ==> {
                &&& r == Some((old(self).next_index()) as usize)
                &&& final(self).next_index() == old(self).next_index() + 1
            },
            old(self).next_index() >= length ==> {
                &&& r is None
                &&& final(self).next_index() == old(self).next_index()
            },
    {
        if self.next < length {
            let claimed = self.next;
            self.next = self.next + 1;
            Some(claimed)
        } else {
            None
        }
    }
}

} // verus!
