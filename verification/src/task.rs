use vstd::prelude::*;

verus! {

/// A unit of work the runtime polls: the future it drives to completion.
pub struct Task<F> {
    pub future: F,
}

impl<F> Task<F> {
    /// A task that drives `future`.
    pub fn new(future: F) -> (t: Self)
        ensures
            t.future == future,
    {
        Task { future }
    }
}

} // verus!
