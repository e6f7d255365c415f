//! Stations and their sequential composition.
//!
//! A station turns an input into a suspendable computation yielding a result
//! or an error.  Two stations compose into a [`Conveyor`], whose computation
//! runs the first stage, feeds a success into the second stage, and
//! short-circuits on the first error without ever invoking the second stage.

use std::sync::Arc;
use vstd::prelude::*;

use crate::computation::{ready, Computation, ReadyFuture};
use crate::error::ConveyorError;
use crate::promise::Promise;
use crate::step::Step;

verus! {

/// The unit of work of a pipeline: a function from an input value to a
/// suspendable computation yielding a result or an error.
///
/// `pre` says which inputs an invocation accepts; `post` says which results
/// an invocation on a given input may deliver; `fuel_bound` bounds the fuel
/// of any computation the station hands out, so that drivers terminate.
pub trait Station: Sized {
    type Input;

    type Output;

    type Fut: Computation<Output = Result<Self::Output, ConveyorError>>;

    /// Which inputs the station accepts.
    spec fn pre(&self, input: Self::Input) -> bool;

    /// Which results an invocation on `input` may deliver.
    spec fn post(&self, input: Self::Input, r: Result<Self::Output, ConveyorError>) -> bool;

    /// An upper bound on the fuel of any computation this station returns.
    spec fn fuel_bound(&self) -> nat;

    /// Starts one invocation on `input`.
    fn execute(&self, input: Self::Input) -> (f: Self::Fut)
        requires
            self.pre(input),
        ensures
            f.wf(),
            !f.resolved(),
            f.fuel() <= self.fuel_bound(),
            forall|r: Result<Self::Output, ConveyorError>|
                f.post(r) ==> self.post(input, r),
    ;
}

/// Sequential composition of two stations, sharing both by reference count
/// so the composed station can be cloned and invoked concurrently.
pub struct Conveyor<F, N> where F: Station, N: Station {
    pub f: Arc<F>,
    pub n: Arc<N>,
}

impl<F, N> Conveyor<F, N> where F: Station, N: Station<Input = F::Output> {
    /// Composes `f` before `n`.  The composed station accepts an input
    /// when the first stage accepts it and every value the first stage may
    /// produce is accepted by the second; it may deliver exactly the first
    /// stage's errors and whatever the second stage may deliver for a value
    /// the first stage may produce.
    pub fn new(f: F, n: N) -> (c: Conveyor<F, N>)
        ensures
            c.f == f,
            c.n == n,
            c.fuel_bound() == f.fuel_bound() + n.fuel_bound() + 1,
            forall|input: F::Input|
                #[trigger] c.pre(input) == (f.pre(input) && (forall|v: F::Output|
                    f.post(input, Ok(v)) ==> n.pre(v))),
            forall|input: F::Input, r: Result<N::Output, ConveyorError>|
                #[trigger] c.post(input, r) == ((r matches Err(e) && f.post(input, Err(e))) || (
                exists|v: F::Output|
                    #[trigger] f.post(input, Ok(v)) && n.post(v, r))),
    {
        Conveyor { f: Arc::new(f), n: Arc::new(n) }
    }
}

impl<F, N> Station for Conveyor<F, N> where F: Station, N: Station<Input = F::Output> {
    type Input = F::Input;

    type Output = N::Output;

    type Fut = ConveyorFuture<F::Fut, N>;

    open spec fn pre(&self, input: F::Input) -> bool {
        self.f.pre(input) && (forall|v: F::Output|
            self.f.post(input, Ok(v)) ==> self.n.pre(v))
    }

    open spec fn post(&self, input: F::Input, r: Result<N::Output, ConveyorError>) -> bool {
        (r matches Err(e) && self.f.post(input, Err(e))) || (exists|v: F::Output|
            #[trigger] self.f.post(input, Ok(v)) && self.n.post(v, r))
    }

    open spec fn fuel_bound(&self) -> nat {
        self.f.fuel_bound() + self.n.fuel_bound() + 1
    }

    fn execute(&self, input: F::Input) -> (fut: ConveyorFuture<F::Fut, N>) {
        let first = self.f.execute(input);
        proof {
            assert(first.wf());
            assert(!first.resolved());
            assert forall|v: F::Output| first.post(Ok(v)) implies self.n.pre(v) by {
                assert(self.f.post(input, Ok(v)));
            }
        }
        ConveyorFuture { n: arc_clone(&self.n), p: Promise::First(first) }
    }
}

/// Relies on `std::sync::Arc::clone`: the clone is a handle to the very same
/// shared value.
#[verifier::external_body]
pub(crate) fn arc_clone<T>(a: &Arc<T>) -> (r: Arc<T>)
    ensures
        r == *a,
{
    a.clone()
}

/// The two-phase computation of a [`Conveyor`]: run the first stage's
/// computation, then on success run the second stage on the produced value;
/// an error from the first stage is delivered at once and the second stage
/// is never invoked.
pub struct ConveyorFuture<FF, N> where
    N: Station,
    FF: Computation<Output = Result<N::Input, ConveyorError>>,
 {
    pub n: Arc<N>,
    pub p: Promise<FF, N::Fut>,
}

impl<FF, N> Computation for ConveyorFuture<FF, N> where
    N: Station,
    FF: Computation<Output = Result<N::Input, ConveyorError>>,
 {
    type Output = Result<N::Output, ConveyorError>;

    open spec fn wf(&self) -> bool {
        match self.p {
            Promise::First(f) => f.wf() && (forall|v: N::Input|
                f.post(Ok(v)) ==> self.n.pre(v)),
            Promise::Second(s) => s.wf(),
        }
    }

    open spec fn resolved(&self) -> bool {
        match self.p {
            Promise::First(f) => f.resolved(),
            Promise::Second(s) => s.resolved(),
        }
    }

    open spec fn post(&self, r: Result<N::Output, ConveyorError>) -> bool {
        match self.p {
            Promise::First(f) => (r matches Err(e) && f.post(Err(e))) || (exists|v: N::Input|
                #[trigger] f.post(Ok(v)) && self.n.post(v, r)),
            Promise::Second(s) => s.post(r),
        }
    }

    open spec fn fuel(&self) -> nat {
        match self.p {
            Promise::First(f) => f.fuel() + self.n.fuel_bound() + 1,
            Promise::Second(s) => s.fuel(),
        }
    }

    fn poll(&mut self) -> (s: Step<Result<N::Output, ConveyorError>>) {
        match &mut self.p {
            Promise::First(fut) => {
                match fut.poll() {
                    Step::Pending => Step::Pending,
                    Step::Ready(r) => match r {
                        Err(e) => Step::Ready(Err(e)),
                        Ok(v) => {
                            let mut second = self.n.execute(v);
                            let s2 = second.poll();
                            match s2 {
                                Step::Pending => {
                                    self.p = Promise::Second(second);
                                    Step::Pending
                                },
                                Step::Ready(r2) => {
                                    self.p = Promise::Second(second);
                                    Step::Ready(r2)
                                },
                            }
                        },
                    },
                }
            },
            Promise::Second(fut) => fut.poll(),
        }
    }
}

/// A station built from a plain function: every invocation computes the
/// result at once and hands it back as a ready computation.
#[verifier::reject_recursive_types(I)]
#[verifier::reject_recursive_types(O)]
pub struct StationFn<F, I, O> {
    pub f: F,
    pub _i: core::marker::PhantomData<I>,
    pub _o: core::marker::PhantomData<O>,
}

impl<F, I, O> Station for StationFn<F, I, O> where F: Fn(I) -> Result<O, ConveyorError> {
    type Input = I;

    type Output = O;

    type Fut = ReadyFuture<Result<O, ConveyorError>>;

    open spec fn pre(&self, input: I) -> bool {
        call_requires(self.f, (input,))
    }

    open spec fn post(&self, input: I, r: Result<O, ConveyorError>) -> bool {
        call_ensures(self.f, (input,), r)
    }

    open spec fn fuel_bound(&self) -> nat {
        0
    }

    fn execute(&self, input: I) -> (fut: ReadyFuture<Result<O, ConveyorError>>) {
        ready((self.f)(input))
    }
}

/// Wraps a function as a station: the station accepts exactly the inputs
/// the function accepts, and may deliver exactly the results the function
/// may return.
pub fn station_fn<F, I, O>(f: F) -> (s: StationFn<F, I, O>) where
    F: Fn(I) -> Result<O, ConveyorError>,

    ensures
        s.f == f,
        s.fuel_bound() == 0,
        forall|input: I| #[trigger] s.pre(input) == call_requires(f, (input,)),
        forall|input: I, r: Result<O, ConveyorError>|
            #[trigger] s.post(input, r) == call_ensures(f, (input,), r),
{
    StationFn { f, _i: core::marker::PhantomData, _o: core::marker::PhantomData }
}

/// A station built from a function and a fixed, shared context value that
/// every invocation reads.
#[verifier::reject_recursive_types(I)]
#[verifier::reject_recursive_types(O)]
pub struct StationFnCtx<F, I, O, Ctx> {
    pub f: F,
    pub ctx: Ctx,
    pub _i: core::marker::PhantomData<I>,
    pub _o: core::marker::PhantomData<O>,
}

impl<F, I, O, Ctx> Station for StationFnCtx<F, I, O, Ctx> where
    F: Fn(I, &Ctx) -> Result<O, ConveyorError>,
 {
    type Input = I;

    type Output = O;

    type Fut = ReadyFuture<Result<O, ConveyorError>>;

    open spec fn pre(&self, input: I) -> bool {
        call_requires(self.f, (input, &self.ctx))
    }

    open spec fn post(&self, input: I, r: Result<O, ConveyorError>) -> bool {
        call_ensures(self.f, (input, &self.ctx), r)
    }

    open spec fn fuel_bound(&self) -> nat {
        0
    }

    fn execute(&self, input: I) -> (fut: ReadyFuture<Result<O, ConveyorError>>) {
        ready((self.f)(input, &self.ctx))
    }
}

/// Wraps a function and its context as a station: the station accepts
/// exactly the inputs the function accepts beside the context, and may
/// deliver exactly the results the function may return for them.
pub fn station_fn_ctx<F, I, O, Ctx>(f: F, ctx: Ctx) -> (s: StationFnCtx<F, I, O, Ctx>) where
    F: Fn(I, &Ctx) -> Result<O, ConveyorError>,

    ensures
        s.f == f,
        s.ctx == ctx,
        s.fuel_bound() == 0,
        forall|input: I| #[trigger] s.pre(input) == call_requires(f, (input, &s.ctx)),
        forall|input: I, r: Result<O, ConveyorError>|
            #[trigger] s.post(input, r) == call_ensures(f, (input, &s.ctx), r),
{
    StationFnCtx { f, ctx, _i: core::marker::PhantomData, _o: core::marker::PhantomData }
}

/// Every station can be piped into a following station, forming a conveyor.
pub trait Chain: Station {
    /// Composes `self` before `f`.
    fn pipe<F: Station<Input = Self::Output>>(self, f: F) -> (c: Conveyor<Self, F>)
        ensures
            c.f == self,
            c.n == f,
    ;
}

impl<T: Station> Chain for T {
    fn pipe<F: Station<Input = Self::Output>>(self, f: F) -> (c: Conveyor<T, F>) {
        Conveyor::new(self, f)
    }
}

/// A station owned behind a heap allocation, for pipelines whose stages are
/// assembled at run time.
pub struct Boxed<S> where S: Station {
    pub s: Box<S>,
}

impl<S> Station for Boxed<S> where S: Station {
    type Input = S::Input;

    type Output = S::Output;

    type Fut = S::Fut;

    open spec fn pre(&self, input: S::Input) -> bool {
        self.s.pre(input)
    }

    open spec fn post(&self, input: S::Input, r: Result<S::Output, ConveyorError>) -> bool {
        self.s.post(input, r)
    }

    open spec fn fuel_bound(&self) -> nat {
        self.s.fuel_bound()
    }

    fn execute(&self, input: S::Input) -> (fut: S::Fut) {
        self.s.execute(input)
    }
}

/// Moves a station behind a heap allocation; the boxed station behaves
/// exactly as the station it holds.
pub fn into_box<S: Station>(i: S) -> (b: Boxed<S>)
    ensures
        b.s == i,
        b.fuel_bound() == i.fuel_bound(),
        forall|input: S::Input| #[trigger] b.pre(input) == i.pre(input),
        forall|input: S::Input, r: Result<S::Output, ConveyorError>|
            #[trigger] b.post(input, r) == i.post(input, r),
{
    Boxed { s: Box::new(i) }
}

/// Law: when the first stage of a chain can only fail with error `e`, the
/// chain as a whole can only deliver exactly that error — the second stage
/// contributes nothing to the result.
pub proof fn lemma_chain_short_circuit<F: Station, N: Station<Input = F::Output>>(
    c: Conveyor<F, N>,
    input: F::Input,
    e: ConveyorError,
    r: Result<N::Output, ConveyorError>,
)
    requires
        forall|x: Result<F::Output, ConveyorError>|
            c.f.post(input, x) ==> x == Err::<F::Output, ConveyorError>(e),
        c.post(input, r),
    ensures
        r == Err::<N::Output, ConveyorError>(e),
{
    if exists|v: F::Output| #[trigger] c.f.post(input, Ok(v)) && c.n.post(v, r) {
        let v = choose|v: F::Output| #[trigger] c.f.post(input, Ok(v)) && c.n.post(v, r);
        assert(Ok::<F::Output, ConveyorError>(v) == Err::<F::Output, ConveyorError>(e));
    }
}

/// Law: chaining is associative: `(a.pipe(b)).pipe(c)` and
/// `a.pipe(b.pipe(c))` accept the same inputs and may deliver exactly the
/// same results for each input.
pub proof fn lemma_chain_associative<
    A: Station,
    B: Station<Input = A::Output>,
    C: Station<Input = B::Output>,
>(
    left: Conveyor<Conveyor<A, B>, C>,
    right: Conveyor<A, Conveyor<B, C>>,
    input: A::Input,
    r: Result<C::Output, ConveyorError>,
)
    requires
        left.f.f == right.f,
        left.f.n == right.n.f,
        left.n == right.n.n,
    ensures
        left.pre(input) <==> right.pre(input),
        left.post(input, r) <==> right.post(input, r),
{
    let a = right.f;
    let b = right.n.f;
    let c = right.n.n;
    if left.pre(input) {
        assert(a.pre(input));
        assert forall|u: A::Output| a.post(input, Ok(u)) implies right.n.pre(u) by {
            assert(b.pre(u));
            assert forall|w: B::Output| b.post(u, Ok(w)) implies c.pre(w) by {
                assert(left.f.post(input, Ok(w)));
            }
            assert(right.n.pre(u) == (b.pre(u) && (forall|w: B::Output|
                b.post(u, Ok(w)) ==> c.pre(w))));
        }
        assert(right.pre(input));
    }
    if right.pre(input) {
        assert forall|u: A::Output| a.post(input, Ok(u)) implies b.pre(u) by {
            assert(right.n.pre(u));
        }
        assert(left.f.pre(input));
        assert forall|v: B::Output| left.f.post(input, Ok(v)) implies c.pre(v) by {
            let u = choose|u: A::Output| #[trigger] a.post(input, Ok(u)) && b.post(u, Ok(v));
            assert(right.n.pre(u));
        }
        assert(left.pre(input));
    }
    assert(left.post(input, r) ==> right.post(input, r)) by {
        if left.post(input, r) {
            if r is Err && left.f.post(input, Err(r->Err_0)) {
                let e = r->Err_0;
                // the error arose in a or in b
                if exists|u: A::Output| #[trigger] a.post(input, Ok(u)) && b.post(u, Err(e)) {
                    let u = choose|u: A::Output| #[trigger] a.post(input, Ok(u)) && b.post(
                        u,
                        Err(e),
                    );
                    assert(right.n.post(u, r));
                }
            } else {
                let v = choose|v: B::Output| #[trigger] left.f.post(input, Ok(v)) && left.n.post(
                    v,
                    r,
                );
                let u = choose|u: A::Output| #[trigger] a.post(input, Ok(u)) && b.post(u, Ok(v));
                assert(right.n.post(u, r));
            }
        }
    }
    assert(right.post(input, r) ==> left.post(input, r)) by {
        if right.post(input, r) {
            if r is Err && a.post(input, Err(r->Err_0)) {
                assert(left.f.post(input, Err(r->Err_0)));
            } else {
                let u = choose|u: A::Output| #[trigger] a.post(input, Ok(u)) && right.n.post(u, r);
                if r is Err && b.post(u, Err(r->Err_0)) {
                    assert(left.f.post(input, Err(r->Err_0)));
                } else {
                    let w = choose|w: B::Output| #[trigger] b.post(u, Ok(w)) && c.post(w, r);
                    assert(left.f.post(input, Ok(w)));
                }
            }
        }
    }
}

} // verus!
