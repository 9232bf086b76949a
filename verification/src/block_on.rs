use vstd::prelude::*;
use crate::poll::Polled;
use crossbeam::sync::Parker as ThreadParker;

verus! {

#[verifier::external_type_specification]
#[verifier::external_body]
pub struct ExThreadParker(ThreadParker);

/// Calls crossbeam's `Parker::park`, which blocks the current thread until
/// the parker's token is available and then consumes it. Nothing is stated
/// of it: the token lives inside the parker, which Verus does not see into,
/// and the call returns nothing.
#[verifier::external_body]
fn park_thread(parker: &ThreadParker) {
    parker.park()
}

/// One turn of a blocking executor loop, after the future has been polled:
/// a ready future's value ends the loop; a pending future sends the thread
/// to sleep on `parker` until its waker unparks it, and the loop polls again.
pub fn complete_or_park<T>(polled: Polled<T>, parker: &ThreadParker) -> (output: Option<T>)
    ensures
        match polled {
            Polled::Ready(value) => output == Some(value),
            Polled::Pending => output is None,
        },
{
    match polled {
        Polled::Ready(value) => Some(value),
        Polled::Pending => {
            park_thread(parker);
            None
        },
    }
}

} // verus!
