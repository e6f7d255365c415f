//! A computation that is either a real computation or an already-known
//! failure, as one concrete type.

use vstd::prelude::*;

use crate::computation::Computation;
use crate::error::ConveyorError;
use crate::step::Step;

verus! {

/// Either a computation to run, or an error to deliver at once.  The error
/// is held in an option so that delivering it can take it out.
pub enum FutureOrErr<F> {
    Error(Option<ConveyorError>),
    Future(F),
}

/// The computation over [`FutureOrErr`]: the error variant delivers its
/// error on the first poll, the future variant behaves as the computation
/// it holds.
pub struct FutureOrErrFuture<F> {
    pub inner: FutureOrErr<F>,
}

impl<F, V> FutureOrErrFuture<F> where F: Computation<Output = Result<V, ConveyorError>> {
    /// An already-failed computation carrying `error`.
    pub fn from_err(error: ConveyorError) -> (f: FutureOrErrFuture<F>)
        ensures
            f.wf(),
            !f.resolved(),
            f.fuel() == 0,
            forall|r: Result<V, ConveyorError>| f.post(r) <==> r == Err::<V, ConveyorError>(error),
    {
        FutureOrErrFuture { inner: FutureOrErr::Error(Some(error)) }
    }
}

impl<F, V> From<F> for FutureOrErrFuture<F> where F: Computation<Output = Result<V, ConveyorError>> {
    /// Wraps a computation unchanged.
    fn from(future: F) -> (f: FutureOrErrFuture<F>) {
        FutureOrErrFuture { inner: FutureOrErr::Future(future) }
    }
}

impl<F, V> vstd::std_specs::convert::FromSpecImpl<F> for FutureOrErrFuture<F> where F: Computation<Output = Result<V, ConveyorError>> {
    open spec fn obeys_from_spec() -> bool {
        true
    }

    open spec fn from_spec(future: F) -> FutureOrErrFuture<F> {
        FutureOrErrFuture { inner: FutureOrErr::Future(future) }
    }
}

impl<F, V> Computation for FutureOrErrFuture<F> where F: Computation<
    Output = Result<V, ConveyorError>,
> {
    type Output = Result<V, ConveyorError>;

    open spec fn wf(&self) -> bool {
        match self.inner {
            FutureOrErr::Error(e) => e is Some,
            FutureOrErr::Future(f) => f.wf(),
        }
    }

    open spec fn resolved(&self) -> bool {
        match self.inner {
            FutureOrErr::Error(e) => e is None,
            FutureOrErr::Future(f) => f.resolved(),
        }
    }

    open spec fn post(&self, r: Result<V, ConveyorError>) -> bool {
        match self.inner {
            FutureOrErr::Error(e) => e matches Some(err) && r == Err::<V, ConveyorError>(err),
            FutureOrErr::Future(f) => f.post(r),
        }
    }

    open spec fn fuel(&self) -> nat {
        match self.inner {
            FutureOrErr::Error(_) => 0,
            FutureOrErr::Future(f) => f.fuel(),
        }
    }

    fn poll(&mut self) -> (s: Step<Result<V, ConveyorError>>) {
        match &mut self.inner {
            FutureOrErr::Error(e) => match e.take() {
                Some(err) => Step::Ready(Err(err)),
                None => Step::Pending,
            },
            FutureOrErr::Future(f) => f.poll(),
        }
    }
}

} // verus!
