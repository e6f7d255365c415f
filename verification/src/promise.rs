//! Tagged unions of heterogeneous computations that share one output type.
//!
//! Where a pipeline must return "computation A or computation B" as a single
//! concrete type, these combinators dispatch each poll to whichever variant
//! is stored, without any allocation.

use vstd::prelude::*;

use crate::computation::Computation;
use crate::step::Step;

verus! {

/// One of two computations.
pub enum Promise<T1, T2> {
    First(T1),
    Second(T2),
}

/// A computation that runs whichever of two computations it holds.
#[verifier::reject_recursive_types(V)]
pub struct OneOfFuture<T1, T2, V> where
    T1: Computation<Output = V>,
    T2: Computation<Output = V>,
 {
    pub inner: Promise<T1, T2>,
}

impl<T1, T2, V> OneOfFuture<T1, T2, V> where
    T1: Computation<Output = V>,
    T2: Computation<Output = V>,
 {
    /// Wraps the chosen variant.
    pub fn new(future: Promise<T1, T2>) -> (f: OneOfFuture<T1, T2, V>)
        ensures
            f.inner == future,
    {
        OneOfFuture { inner: future }
    }
}

impl<T1, T2, V> Computation for OneOfFuture<T1, T2, V> where
    T1: Computation<Output = V>,
    T2: Computation<Output = V>,
 {
    type Output = V;

    open spec fn wf(&self) -> bool {
        match self.inner {
            Promise::First(f) => f.wf(),
            Promise::Second(f) => f.wf(),
        }
    }

    open spec fn resolved(&self) -> bool {
        match self.inner {
            Promise::First(f) => f.resolved(),
            Promise::Second(f) => f.resolved(),
        }
    }

    open spec fn post(&self, r: V) -> bool {
        match self.inner {
            Promise::First(f) => f.post(r),
            Promise::Second(f) => f.post(r),
        }
    }

    open spec fn fuel(&self) -> nat {
        match self.inner {
            Promise::First(f) => f.fuel(),
            Promise::Second(f) => f.fuel(),
        }
    }

    fn poll(&mut self) -> (s: Step<V>) {
        match &mut self.inner {
            Promise::First(f) => f.poll(),
            Promise::Second(f) => f.poll(),
        }
    }
}

/// One of three computations.
pub enum Promise3<T1, T2, T3> {
    First(T1),
    Second(T2),
    Third(T3),
}

/// A computation that runs whichever of three computations it holds.
#[verifier::reject_recursive_types(V)]
pub struct OneOf3Future<T1, T2, T3, V> where
    T1: Computation<Output = V>,
    T2: Computation<Output = V>,
    T3: Computation<Output = V>,
 {
    pub inner: Promise3<T1, T2, T3>,
}

impl<T1, T2, T3, V> OneOf3Future<T1, T2, T3, V> where
    T1: Computation<Output = V>,
    T2: Computation<Output = V>,
    T3: Computation<Output = V>,
 {
    /// Wraps the chosen variant.
    pub fn new(future: Promise3<T1, T2, T3>) -> (f: OneOf3Future<T1, T2, T3, V>)
        ensures
            f.inner == future,
    {
        OneOf3Future { inner: future }
    }
}

impl<T1, T2, T3, V> Computation for OneOf3Future<T1, T2, T3, V> where
    T1: Computation<Output = V>,
    T2: Computation<Output = V>,
    T3: Computation<Output = V>,
 {
    type Output = V;

    open spec fn wf(&self) -> bool {
        match self.inner {
            Promise3::First(f) => f.wf(),
            Promise3::Second(f) => f.wf(),
            Promise3::Third(f) => f.wf(),
        }
    }

    open spec fn resolved(&self) -> bool {
        match self.inner {
            Promise3::First(f) => f.resolved(),
            Promise3::Second(f) => f.resolved(),
            Promise3::Third(f) => f.resolved(),
        }
    }

    open spec fn post(&self, r: V) -> bool {
        match self.inner {
            Promise3::First(f) => f.post(r),
            Promise3::Second(f) => f.post(r),
            Promise3::Third(f) => f.post(r),
        }
    }

    open spec fn fuel(&self) -> nat {
        match self.inner {
            Promise3::First(f) => f.fuel(),
            Promise3::Second(f) => f.fuel(),
            Promise3::Third(f) => f.fuel(),
        }
    }

    fn poll(&mut self) -> (s: Step<V>) {
        match &mut self.inner {
            Promise3::First(f) => f.poll(),
            Promise3::Second(f) => f.poll(),
            Promise3::Third(f) => f.poll(),
        }
    }
}

/// One of four computations.
pub enum Promise4<T1, T2, T3, T4> {
    First(T1),
    Second(T2),
    Third(T3),
    Fourth(T4),
}

/// A computation that runs whichever of four computations it holds.
#[verifier::reject_recursive_types(V)]
pub struct OneOf4Future<T1, T2, T3, T4, V> where
    T1: Computation<Output = V>,
    T2: Computation<Output = V>,
    T3: Computation<Output = V>,
    T4: Computation<Output = V>,
 {
    pub inner: Promise4<T1, T2, T3, T4>,
}

impl<T1, T2, T3, T4, V> OneOf4Future<T1, T2, T3, T4, V> where
    T1: Computation<Output = V>,
    T2: Computation<Output = V>,
    T3: Computation<Output = V>,
    T4: Computation<Output = V>,
 {
    /// Wraps the chosen variant.
    pub fn new(future: Promise4<T1, T2, T3, T4>) -> (f: OneOf4Future<T1, T2, T3, T4, V>)
        ensures
            f.inner == future,
    {
        OneOf4Future { inner: future }
    }
}

impl<T1, T2, T3, T4, V> Computation for OneOf4Future<T1, T2, T3, T4, V> where
    T1: Computation<Output = V>,
    T2: Computation<Output = V>,
    T3: Computation<Output = V>,
    T4: Computation<Output = V>,
 {
    type Output = V;

    open spec fn wf(&self) -> bool {
        match self.inner {
            Promise4::First(f) => f.wf(),
            Promise4::Second(f) => f.wf(),
            Promise4::Third(f) => f.wf(),
            Promise4::Fourth(f) => f.wf(),
        }
    }

    open spec fn resolved(&self) -> bool {
        match self.inner {
            Promise4::First(f) => f.resolved(),
            Promise4::Second(f) => f.resolved(),
            Promise4::Third(f) => f.resolved(),
            Promise4::Fourth(f) => f.resolved(),
        }
    }

    open spec fn post(&self, r: V) -> bool {
        match self.inner {
            Promise4::First(f) => f.post(r),
            Promise4::Second(f) => f.post(r),
            Promise4::Third(f) => f.post(r),
            Promise4::Fourth(f) => f.post(r),
        }
    }

    open spec fn fuel(&self) -> nat {
        match self.inner {
            Promise4::First(f) => f.fuel(),
            Promise4::Second(f) => f.fuel(),
            Promise4::Third(f) => f.fuel(),
            Promise4::Fourth(f) => f.fuel(),
        }
    }

    fn poll(&mut self) -> (s: Step<V>) {
        match &mut self.inner {
            Promise4::First(f) => f.poll(),
            Promise4::Second(f) => f.poll(),
            Promise4::Third(f) => f.poll(),
            Promise4::Fourth(f) => f.poll(),
        }
    }
}

} // verus!
