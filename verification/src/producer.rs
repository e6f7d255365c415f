//! Pull-based sources of items and the driver loop that consumes them.

use vstd::prelude::*;

use crate::computation::{drive, ready, Computation, ReadyFuture};
use crate::error::ConveyorError;
use crate::station::Station;

verus! {

/// A pull-only source of items.  Each pull hands back a computation that
/// yields either the next item (a success or a per-item error) or `None`
/// once the source is exhausted; exhaustion is terminal.
///
/// `model` lists the pull outcomes the source will still deliver, in order;
/// the head of the model is committed to a pull as soon as `next` is called.
pub trait Producer: Sized {
    type Item;

    type Fut: Computation<Output = Option<Result<Self::Item, ConveyorError>>>;

    /// Structural invariant of the source.
    spec fn wf(&self) -> bool;

    /// The pull outcomes still to be delivered, in order.
    spec fn model(&self) -> Seq<Result<Self::Item, ConveyorError>>;

    /// An upper bound on the fuel of any pull computation.
    spec fn fuel_bound(&self) -> nat;

    /// Starts one pull.
    fn next(&mut self) -> (f: Self::Fut)
        requires
            old(self).wf(),
        ensures
            final(self).wf(),
            final(self).fuel_bound() == old(self).fuel_bound(),
            f.wf(),
            !f.resolved(),
            f.fuel() <= old(self).fuel_bound(),
            old(self).model().len() == 0 ==> final(self).model() == old(self).model() && (forall|
                r: Option<Result<Self::Item, ConveyorError>>,
            |
                f.post(r) ==> r is None),
            old(self).model().len() > 0 ==> final(self).model() == old(self).model().drop_first()
                && (forall|r: Option<Result<Self::Item, ConveyorError>>|
                f.post(r) ==> r == Some(old(self).model()[0])),
    ;
}

/// A producer over an in-memory sequence of pull outcomes; its pulls never
/// suspend.
pub struct VecProducer<T> {
    pub items: Vec<Result<T, ConveyorError>>,
}

impl<T> VecProducer<T> {
    /// A producer that delivers exactly the given outcomes, in order.
    pub fn new(items: Vec<Result<T, ConveyorError>>) -> (p: VecProducer<T>)
        ensures
            p.wf(),
            p.model() == items@,
    {
        VecProducer { items }
    }

    /// A producer that delivers the given items, each as a success, in
    /// order.
    pub fn from_items(items: Vec<T>) -> (p: VecProducer<T>)
        ensures
            p.wf(),
            p.model().len() == items@.len(),
            forall|i: int|
                0 <= i < items@.len() ==> p.model()[i] == Ok::<T, ConveyorError>(items@[i]),
    {
        let ghost all = items@;
        let mut src = items;
        let mut out: Vec<Result<T, ConveyorError>> = Vec::new();
        while src.len() > 0
            invariant
                out@.len() + src@.len() == all.len(),
                forall|i: int| 0 <= i < out@.len() ==> out@[i] == Ok::<T, ConveyorError>(all[i]),
                forall|i: int| 0 <= i < src@.len() ==> src@[i] == all[out@.len() + i],
            decreases src@.len(),
        {
            let v = src.remove(0);
            out.push(Ok(v));
        }
        VecProducer { items: out }
    }
}

impl<T> Producer for VecProducer<T> {
    type Item = T;

    type Fut = ReadyFuture<Option<Result<T, ConveyorError>>>;

    open spec fn wf(&self) -> bool {
        true
    }

    open spec fn model(&self) -> Seq<Result<T, ConveyorError>> {
        self.items@
    }

    open spec fn fuel_bound(&self) -> nat {
        0
    }

    fn next(&mut self) -> (f: ReadyFuture<Option<Result<T, ConveyorError>>>) {
        if self.items.len() == 0 {
            ready(None)
        } else {
            let x = self.items.remove(0);
            ready(Some(x))
        }
    }
}

/// The driver that owns a producer and a station: it pulls items one at a
/// time, runs each through the station, and records one result per item, in
/// producer order.  A pull error is recorded as that item's result and the
/// run continues; no item is dropped and no extra item appears.
pub struct Consumer<P, C> {
    pub stream: P,
    pub chain: C,
}

impl<P, C> Consumer<P, C> where P: Producer, C: Station<Input = P::Item> {
    /// Pairs a producer with the station every pulled item is fed through.
    pub fn new(producer: P, chain: C) -> (c: Consumer<P, C>)
        ensures
            c.stream == producer,
            c.chain == chain,
    {
        Consumer { stream: producer, chain }
    }

    /// Drives the producer to exhaustion.  The result holds exactly one
    /// entry per pull outcome, in producer order: a pull error is recorded
    /// unchanged, and for a pulled item the entry is a result the station
    /// may deliver for it.
    pub fn run(&mut self) -> (out: Vec<Result<C::Output, ConveyorError>>)
        requires
            old(self).stream.wf(),
            forall|i: int|
                0 <= i < old(self).stream.model().len() && #[trigger] old(self).stream.model()[i]
                    is Ok ==> old(self).chain.pre(old(self).stream.model()[i]->Ok_0),
        ensures
            final(self).chain == old(self).chain,
            final(self).stream.model().len() == 0,
            out@.len() == old(self).stream.model().len(),
            forall|i: int|
                0 <= i < out@.len() ==> match #[trigger] old(self).stream.model()[i] {
                    Err(e) => out@[i] == Err::<C::Output, ConveyorError>(e),
                    Ok(v) => old(self).chain.post(v, out@[i]),
                },
    {
        let ghost m0 = self.stream.model();
        let ghost chain0 = self.chain;
        let mut out: Vec<Result<C::Output, ConveyorError>> = Vec::new();
        loop
            invariant
                self.stream.wf(),
                self.chain == chain0,
                out@.len() + self.stream.model().len() == m0.len(),
                self.stream.model() == m0.skip(out@.len() as int),
                forall|i: int|
                    0 <= i < m0.len() && #[trigger] m0[i] is Ok ==> chain0.pre(m0[i]->Ok_0),
                forall|i: int|
                    0 <= i < out@.len() ==> match #[trigger] m0[i] {
                        Err(e) => out@[i] == Err::<C::Output, ConveyorError>(e),
                        Ok(v) => chain0.post(v, out@[i]),
                    },
            ensures
                self.chain == chain0,
                self.stream.model().len() == 0,
                out@.len() == m0.len(),
                forall|i: int|
                    0 <= i < out@.len() ==> match #[trigger] m0[i] {
                        Err(e) => out@[i] == Err::<C::Output, ConveyorError>(e),
                        Ok(v) => chain0.post(v, out@[i]),
                    },
            decreases self.stream.model().len(),
        {
            let ghost before = self.stream.model();
            let f = self.stream.next();
            let pull = drive(f);
            match pull {
                None => {
                    break ;
                },
                Some(r) => {
                    proof {
                        assert(before.len() > 0);
                        assert(before[0] == m0[out@.len() as int]);
                    }
                    match r {
                        Err(e) => {
                            out.push(Err(e));
                        },
                        Ok(v) => {
                            let fut = self.chain.execute(v);
                            let res = drive(fut);
                            out.push(res);
                        },
                    }
                },
            }
        }
        out
    }
}

} // verus!
