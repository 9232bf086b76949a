use vstd::prelude::*;

verus! {

/// The outcome of polling a future once: its value, or not yet.
#[derive(Clone, Copy, Debug, PartialEq, Eq)]
pub enum Polled<T> {
    /// The future has completed with this value.
    Ready(T),
    /// The future has not completed; it has arranged to be woken.
    Pending,
}

} // verus!
