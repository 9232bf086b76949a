use vstd::prelude::*;

verus! {

/// The slot that holds a spawned task's future between polls: full while
/// the future has not completed, empty once it has.
pub struct FutureSlot<F> {
    future: Option<F>,
}

impl<F> View for FutureSlot<F> {
    type V = Option<F>;

    closed spec fn view(&self) -> Option<F> {
        self.future
    }
}

impl<F> FutureSlot<F> {
    /// The slot of a freshly spawned future.
    pub fn new(future: F) -> (slot: Self)
        ensures
            slot@ == Some(future),
    {
        FutureSlot { future: Some(future) }
    }

    /// Take the future out to poll it. An empty slot gives nothing: the task
    /// has completed, and a late wake-up of it is ignored.
    pub fn take_for_poll(&mut self) -> (future: Option<F>)
        ensures
            future == old(self)@,
            final(self)@ is None,
    {
        self.future.take()
    }

    /// Put a polled future back if it is still pending; drop it if it has
    /// completed.
    pub fn settle(&mut self, future: F, pending: bool)
        requires
            old(self)@ is None,
        ensures
            final(self)@ == settle_outcome(future, pending),
    {
        if pending {
            self.future = Some(future);
        }
    }
}

/// The slot after a polled `future` is settled: kept if still pending.
pub open spec fn settle_outcome<F>(future: F, pending: bool) -> Option<F> {
    if pending {
        Some(future)
    } else {
        None
    }
}

/// A completed future is never polled again, and a pending one is polled
/// again as it was: after settling, the next `take_for_poll` gives the
/// future back exactly when it was still pending.
pub proof fn lemma_settled_future_comes_back_iff_pending<F>(future: F, pending: bool)
    ensures
        settle_outcome(future, pending) == (if pending { Some(future) } else { None::<F> }),
        settle_outcome(future, false) is None,
        settle_outcome(future, true) == Some(future),
{
}

} // verus!
