//! Suspendable computations, polled step by step until they deliver a value.

use vstd::prelude::*;

use crate::step::Step;

verus! {

/// A suspendable unit of work.  Polling it either reports [`Step::Pending`]
/// or delivers the final value exactly once.
///
/// `post` describes which values the computation may still deliver; polling
/// can only narrow that set.  `wf` is whatever structural invariant the
/// computation needs while it is being polled, and `resolved` records that
/// the value has been delivered: a resolved computation must not be polled
/// again.  `fuel` bounds how many more polls may report pending, so that a
/// driver that polls to completion terminates.
pub trait Computation: Sized {
    type Output;

    /// Structural invariant preserved while the computation is pending.
    spec fn wf(&self) -> bool;

    /// Whether the computation has already delivered its value.
    spec fn resolved(&self) -> bool;

    /// Which values the computation may deliver.
    spec fn post(&self, r: Self::Output) -> bool;

    /// An upper bound on the number of polls that may still report pending.
    spec fn fuel(&self) -> nat;

    /// Advances the computation by one step.
    fn poll(&mut self) -> (s: Step<Self::Output>)
        requires
            old(self).wf(),
            !old(self).resolved(),
        ensures
            match s {
                Step::Pending => final(self).wf() && !final(self).resolved() && final(self).fuel()
                    < old(self).fuel() && (forall|r: Self::Output|
                    final(self).post(r) ==> old(self).post(r)),
                Step::Ready(r) => final(self).resolved() && old(self).post(r),
            },
    ;
}

/// A computation that is ready at once: its first poll delivers the stored
/// value.
pub struct ReadyFuture<T> {
    pub v: Option<T>,
}

impl<T> Computation for ReadyFuture<T> {
    type Output = T;

    open spec fn wf(&self) -> bool {
        true
    }

    open spec fn resolved(&self) -> bool {
        self.v is None
    }

    open spec fn post(&self, r: T) -> bool {
        self.v == Some(r)
    }

    open spec fn fuel(&self) -> nat {
        0
    }

    fn poll(&mut self) -> (s: Step<T>) {
        match self.v.take() {
            Some(v) => Step::Ready(v),
            None => Step::Pending,
        }
    }
}

/// Wraps a value as an immediately ready computation.
pub fn ready<T>(v: T) -> (f: ReadyFuture<T>)
    ensures
        f.wf(),
        !f.resolved(),
        f.fuel() == 0,
        forall|r: T| f.post(r) <==> r == v,
{
    ReadyFuture { v: Some(v) }
}

/// A computation with a controllable completion trigger: it reports pending
/// for a chosen number of polls before delivering its value.
pub struct DelayedFuture<T> {
    pub v: Option<T>,
    pub delay: usize,
}

impl<T> Computation for DelayedFuture<T> {
    type Output = T;

    open spec fn wf(&self) -> bool {
        true
    }

    open spec fn resolved(&self) -> bool {
        self.v is None
    }

    open spec fn post(&self, r: T) -> bool {
        self.v == Some(r)
    }

    open spec fn fuel(&self) -> nat {
        self.delay as nat
    }

    fn poll(&mut self) -> (s: Step<T>) {
        if self.delay > 0 {
            self.delay = self.delay - 1;
            Step::Pending
        } else {
            match self.v.take() {
                Some(v) => Step::Ready(v),
                None => Step::Pending,
            }
        }
    }
}

/// Wraps a value as a computation that completes after `delay` pending polls.
pub fn delayed<T>(v: T, delay: usize) -> (f: DelayedFuture<T>)
    ensures
        f.wf(),
        !f.resolved(),
        f.fuel() == delay,
        forall|r: T| f.post(r) <==> r == v,
{
    DelayedFuture { v: Some(v), delay }
}

/// Runs a computation to completion by polling it repeatedly, and returns the
/// delivered value.  This is the driver an embedding application supplies in
/// place of a task scheduler.
pub fn drive<C: Computation>(c: C) -> (r: C::Output)
    requires
        c.wf(),
        !c.resolved(),
    ensures
        c.post(r),
{
    let mut cur = c;
    loop
        invariant
            cur.wf(),
            !cur.resolved(),
            forall|x: C::Output| cur.post(x) ==> c.post(x),
        decreases cur.fuel(),
    {
        match cur.poll() {
            Step::Ready(r) => {
                return r;
            },
            Step::Pending => {},
        }
    }
}

} // verus!
