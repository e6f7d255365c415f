//! Pollable streams with a deterministic model of the items they yield.

use vstd::prelude::*;

use crate::step::Step;

verus! {

/// A pollable source of a sequence of items.
///
/// `model` lists the items still to be yielded, in order; polling either
/// reports pending, yields the head of the model, or — once the model is
/// empty — reports exhaustion, which is terminal.  `fuel` bounds the number
/// of polls the stream may still consume, so that drivers terminate.
pub trait Stream: Sized {
    type Item;

    /// Structural invariant of the stream.
    spec fn wf(&self) -> bool;

    /// The items still to be yielded, in order.
    spec fn model(&self) -> Seq<Self::Item>;

    /// An upper bound on the number of polls before exhaustion.
    spec fn fuel(&self) -> nat;

    /// Polls for the next item.
    fn poll_next(&mut self) -> (s: Step<Option<Self::Item>>)
        requires
            old(self).wf(),
        ensures
            final(self).wf(),
            match s {
                Step::Pending => final(self).model() == old(self).model() && final(self).fuel()
                    < old(self).fuel(),
                Step::Ready(o) => match o {
                    Some(x) => old(self).model().len() > 0 && x == old(self).model()[0]
                        && final(self).model() == old(self).model().drop_first()
                        && final(self).fuel() < old(self).fuel(),
                    None => old(self).model().len() == 0 && final(self).model().len() == 0
                        && final(self).fuel() == 0,
                },
            },
    ;
}

/// A stream over an in-memory sequence; it never reports pending.
pub struct VecStream<T> {
    pub items: Vec<T>,
}

impl<T> VecStream<T> {
    /// A stream that yields exactly the given items, in order.
    pub fn new(items: Vec<T>) -> (s: VecStream<T>)
        ensures
            s.wf(),
            s.model() == items@,
    {
        VecStream { items }
    }
}

impl<T> Stream for VecStream<T> {
    type Item = T;

    open spec fn wf(&self) -> bool {
        true
    }

    open spec fn model(&self) -> Seq<T> {
        self.items@
    }

    open spec fn fuel(&self) -> nat {
        self.items@.len()
    }

    fn poll_next(&mut self) -> (s: Step<Option<T>>) {
        if self.items.len() == 0 {
            Step::Ready(None)
        } else {
            let x = self.items.remove(0);
            Step::Ready(Some(x))
        }
    }
}

} // verus!
