//! The outcome of polling a suspendable computation once.

use vstd::prelude::*;

verus! {

/// What a single poll of a computation reports: either the computation is
/// still running, or it has finished with a value.
pub enum Step<T> {
    /// The computation has not finished yet; poll again later.
    Pending,
    /// The computation finished and delivers its value.
    Ready(T),
}

impl<T> Step<T> {
    /// True when this step carries a finished value.
    pub fn is_ready(&self) -> (r: bool)
        ensures
            r == (self is Ready),
    {
        match self {
            Step::Pending => false,
            Step::Ready(_) => true,
        }
    }
}

} // verus!
