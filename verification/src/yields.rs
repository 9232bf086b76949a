use vstd::prelude::*;
use crate::poll::Polled;

verus! {

/// A future that yields a given number of times before it completes; each
/// time it yields it asks to be woken again at once.
#[derive(Clone, Copy, Debug)]
pub struct Yields(pub u32);

/// One poll of a `Yields` with `count` yields left: the result, and the
/// count afterwards.
pub open spec fn yields_poll_outcome(count: u32) -> (Polled<()>, u32) {
    if count == 0 {
        (Polled::Ready(()), 0)
    } else {
        (Polled::Pending, (count - 1) as u32)
    }
}

/// The count left after `polls` polls, starting from `count`.
pub open spec fn yields_count_after(count: u32, polls: nat) -> u32
    decreases polls,
{
    if polls == 0 {
        count
    } else {
        yields_poll_outcome(yields_count_after(count, (polls - 1) as nat)).1
    }
}

impl Yields {
    /// Poll once: complete when no yields are left, otherwise use one up and
    /// stay pending (the caller then wakes the task at once).
    pub fn poll(&mut self) -> (p: Polled<()>)
        ensures
            (p, final(self).0) == yields_poll_outcome(old(self).0),
    {
        if self.0 == 0 {
            Polled::Ready(())
        } else {
            self.0 -= 1;
            Polled::Pending
        }
    }
}

/// `Yields(n)` is pending on exactly its first `n` polls and ready on every
/// poll after them: the poll numbered `k` (from zero) is pending if and only
/// if `k < n`.
pub proof fn lemma_yields_pending_exactly_n_times(count: u32, k: nat)
    ensures
        yields_count_after(count, k) == (if k <= count { count - k } else { 0 }),
        yields_poll_outcome(yields_count_after(count, k)).0 is Pending <==> k < count,
    decreases k,
{
    if k > 0 {
        lemma_yields_pending_exactly_n_times(count, (k - 1) as nat);
    }
}

} // verus!
