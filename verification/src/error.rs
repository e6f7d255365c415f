//! The single opaque error type that every stage of a pipeline reports.

use vstd::prelude::*;

verus! {

/// An opaque pipeline error.  Heterogeneous failure causes are unified by
/// erasing them to a textual description; the framework never inspects the
/// description, it only carries it through.
#[derive(Debug)]
pub struct ConveyorError {
    msg: String,
}

impl View for ConveyorError {
    type V = Seq<char>;

    closed spec fn view(&self) -> Seq<char> {
        self.msg@
    }
}

impl ConveyorError {
    /// Wraps an underlying failure description.
    pub fn new(msg: &str) -> (e: ConveyorError)
        ensures
            e@ == msg@,
    {
        ConveyorError { msg: msg.to_owned() }
    }

    /// The description this error carries.
    pub fn message(&self) -> (m: &str)
        ensures
            m@ == self@,
    {
        self.msg.as_str()
    }
}

} // verus!
