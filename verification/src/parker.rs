use vstd::prelude::*;

verus! {

/// The wake-up token of a parked thread.
///
/// `unpark` makes the token available (it does not accumulate), and `park`
/// consumes it when it is there; when it is not, the caller has to wait for
/// an `unpark` and ask again.
#[derive(Debug)]
pub struct Parker {
    resumable: bool,
}

/// What a call of `park` tells the parked thread to do next.
#[derive(Clone, Copy, Debug, PartialEq, Eq)]
pub enum ParkStep {
    /// The token was available and has been consumed: carry on.
    Resume,
    /// No token: block until someone unparks, then call `park` again.
    Wait,
}

impl View for Parker {
    type V = bool;

    /// Whether the token is available.
    closed spec fn view(&self) -> bool {
        self.resumable
    }
}

/// What `park` does with a token state: the step it reports and the token
/// state it leaves.
pub open spec fn park_outcome(token: bool) -> (ParkStep, bool) {
    if token {
        (ParkStep::Resume, false)
    } else {
        (ParkStep::Wait, false)
    }
}

impl Default for Parker {
    /// A parker without a token.
    fn default() -> (p: Self)
        ensures
            !p@,
    {
        Parker { resumable: false }
    }
}

impl Parker {
    /// Consume the token if it is available.
    ///
    /// With the token, the token is gone afterwards and the thread resumes;
    /// without it, nothing changes and the thread has to wait.
    pub fn park(&mut self) -> (step: ParkStep)
        ensures
            (step, final(self)@) == park_outcome(old(self)@),
    {
        if self.resumable {
            self.resumable = false;
            ParkStep::Resume
        } else {
            ParkStep::Wait
        }
    }

    /// Make the token available, whether or not it already was.
    pub fn unpark(&mut self)
        ensures
            final(self)@,
    {
        self.resumable = true;
    }
}


/// An `unpark` is never lost: whatever the token state, an `unpark` followed
/// by a `park` lets the thread resume at once, and consumes the token.
pub proof fn lemma_unpark_then_park_resumes(token: bool)
    ensures
        park_outcome(true) == (ParkStep::Resume, false),
{
}

/// Tokens do not accumulate: after any number of `unpark`s (one or two here),
/// the first `park` resumes and the second has to wait.
pub proof fn lemma_tokens_do_not_accumulate(token: bool)
    ensures
        park_outcome(true).0 == ParkStep::Resume,
        park_outcome(park_outcome(true).1).0 == ParkStep::Wait,
{
}

/// A `park` that has to wait leaves the token state as it was, so the thread
/// can ask again after being notified.
pub proof fn lemma_waiting_changes_nothing(token: bool)
    ensures
        park_outcome(token).0 == ParkStep::Wait ==> park_outcome(token).1 == token,
        park_outcome(token).0 == ParkStep::Wait <==> !token,
{
}

} // verus!
