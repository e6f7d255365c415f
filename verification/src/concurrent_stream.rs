//! Bounded unordered concurrency over a stream of computations.
//!
//! A [`ConcurrentStream`] consumes a stream whose items are themselves
//! computations, keeps at most `max` of them in flight at once (`max == 0`
//! means unbounded), and emits each one's value as soon as it is found
//! complete — not necessarily in submission order.  This is the only
//! admission-control point of a pipeline.

use vstd::prelude::*;

use crate::computation::Computation;
use crate::step::Step;
use crate::stream::Stream;

verus! {

/// True when every value `small` may deliver is also one `big` may deliver.
pub open spec fn subsumes<C: Computation>(big: C, small: C) -> bool {
    forall|r: C::Output| small.post(r) ==> big.post(r)
}

/// True when `item` descends from the `j`-th computation of `origin`:
/// every value it may still deliver is one that computation could deliver.
pub open spec fn tracks<C: Computation>(origin: Seq<C>, j: int, item: C) -> bool {
    0 <= j < origin.len() && subsumes(origin[j], item)
}

/// True when `r` is a value the `j`-th computation of `origin` may deliver.
pub open spec fn emitted_at<C: Computation>(origin: Seq<C>, j: int, r: C::Output) -> bool {
    0 <= j < origin.len() && origin[j].post(r)
}

/// True when `r` is a value some computation of `origin` may deliver.
pub open spec fn emitted_ok<C: Computation>(r: C::Output, origin: Seq<C>) -> bool {
    exists|j: int| #[trigger] emitted_at(origin, j, r)
}

/// The cost of a working set: each computation's remaining fuel plus one
/// poll to collect its value.
pub open spec fn load_sum<C: Computation>(s: Seq<C>) -> nat
    decreases s.len(),
{
    if s.len() == 0 {
        0
    } else {
        s[0].fuel() + 1 + load_sum(s.drop_first())
    }
}

proof fn lemma_load_sum_push<C: Computation>(s: Seq<C>, x: C)
    ensures
        load_sum(s.push(x)) == load_sum(s) + x.fuel() + 1,
    decreases s.len(),
{
    reveal_with_fuel(load_sum, 2);
    if s.len() == 0 {
        assert(s.push(x)[0] == x);
        assert(s.push(x).drop_first() =~= Seq::<C>::empty());
        assert(load_sum(s.push(x)) == x.fuel() + 1 + load_sum(Seq::<C>::empty()));
    } else {
        assert(s.push(x)[0] == s[0]);
        assert(s.push(x).drop_first() =~= s.drop_first().push(x));
        lemma_load_sum_push(s.drop_first(), x);
        assert(load_sum(s.push(x)) == s[0].fuel() + 1 + load_sum(s.drop_first().push(x)));
    }
}

/// A stream combinator that runs up to `max` computations of the source
/// stream concurrently, appending each value to a FIFO result buffer the
/// moment its computation is found complete.
pub struct ConcurrentStream<S> where S: Stream, S::Item: Computation {
    /// The source stream of computations.
    pub s: S,
    /// The working set: admitted computations that are still in flight, in
    /// admission order.
    pub p: Vec<S::Item>,
    /// The FIFO buffer of values completed but not yet emitted.
    pub d: Vec<<S::Item as Computation>::Output>,
    /// The bound on the working set; zero means unbounded.
    pub max: usize,
    /// The computations the source held when this combinator was built.
    pub origin: Ghost<Seq<S::Item>>,
    /// For each working-set entry, which original computation it is.
    pub pidx: Ghost<Seq<int>>,
    /// For each buffered value, which original computation delivered it.
    pub didx: Ghost<Seq<int>>,
    /// The original computations whose values were already emitted.
    pub taken: Ghost<Set<int>>,
    /// Which original computation the most recent emission came from.
    pub emitted_from: Ghost<int>,
}

impl<S> ConcurrentStream<S> where S: Stream, S::Item: Computation {
    /// How many of the original computations the source has already handed
    /// over: the source model is always the remaining suffix of `origin`.
    pub open spec fn admitted(&self) -> int {
        self.origin@.len() - self.s.model().len()
    }

    /// The structural invariant: the working set respects the bound; each
    /// in-flight computation and each buffered value descends from its own
    /// distinct original computation, none of which has emitted yet.
    pub open spec fn inv(&self) -> bool {
        &&& self.s.wf()
        &&& (self.max > 0 ==> self.p@.len() <= self.max as int)
        &&& self.s.model().len() <= self.origin@.len()
        &&& self.origin@.skip(self.admitted()) == self.s.model()
        &&& (forall|i: int|
            0 <= i < self.s.model().len() ==> (#[trigger] self.s.model()[i]).wf()
                && !self.s.model()[i].resolved())
        &&& self.pidx@.len() == self.p@.len()
        &&& (forall|i: int|
            0 <= i < self.p@.len() ==> (#[trigger] self.p@[i]).wf() && !self.p@[i].resolved())
        &&& (forall|i: int|
            0 <= i < self.p@.len() ==> #[trigger] tracks(self.origin@, self.pidx@[i], self.p@[i]))
        &&& (forall|i: int|
            0 <= i < self.pidx@.len() ==> 0 <= (#[trigger] self.pidx@[i]) && self.pidx@[i]
                < self.admitted())
        &&& self.didx@.len() == self.d@.len()
        &&& (forall|i: int|
            0 <= i < self.d@.len() ==> #[trigger] emitted_at(
                self.origin@,
                self.didx@[i],
                self.d@[i],
            ))
        &&& (forall|i: int|
            0 <= i < self.didx@.len() ==> 0 <= (#[trigger] self.didx@[i]) && self.didx@[i]
                < self.admitted())
        &&& self.pidx@.no_duplicates()
        &&& self.didx@.no_duplicates()
        &&& (forall|j: int| self.pidx@.contains(j) ==> !self.didx@.contains(j))
        &&& (forall|j: int|
            self.taken@.contains(j) ==> 0 <= j < self.admitted() && !self.pidx@.contains(j)
                && !self.didx@.contains(j))
    }

    /// How many results are still owed: admitted computations in flight,
    /// buffered values, and computations the source has yet to yield.
    pub open spec fn load(&self) -> nat {
        self.p@.len() + self.d@.len() + self.s.model().len()
    }

    /// The termination measure of one draining run.
    pub open spec fn measure(&self) -> nat {
        self.s.fuel() + load_sum(self.s.model()) + load_sum(self.p@) + self.d@.len()
    }

    /// Wraps a stream of computations, bounding how many run at once.
    pub fn new(stream: S, max: usize) -> (c: ConcurrentStream<S>)
        requires
            stream.wf(),
            forall|i: int|
                0 <= i < stream.model().len() ==> (#[trigger] stream.model()[i]).wf()
                    && !stream.model()[i].resolved(),
        ensures
            c.inv(),
            c.max == max,
            c.s == stream,
            c.origin@ == stream.model(),
            c.taken@ == Set::<int>::empty(),
            c.load() == stream.model().len(),
    {
        let ghost origin = stream.model();
        let c = ConcurrentStream {
            s: stream,
            p: Vec::new(),
            d: Vec::new(),
            max,
            origin: Ghost(origin),
            pidx: Ghost(Seq::empty()),
            didx: Ghost(Seq::empty()),
            taken: Ghost(Set::empty()),
            emitted_from: Ghost(0),
        };
        proof {
            assert(c.origin@.skip(0) =~= c.s.model());
        }
        c
    }

    /// The number of computations currently in flight; when `max > 0` it
    /// never exceeds `max`.
    pub fn in_flight(&self) -> (n: usize)
        ensures
            n == self.p@.len(),
    {
        self.p.len()
    }

    /// One scheduling step: admit a computation from the source if the
    /// working set is below the bound, poll every in-flight computation
    /// once, then emit the front of the result buffer if there is one.
    /// Every emitted value belongs to an original computation that had not
    /// emitted before, so no computation's value is delivered twice.
    #[verifier::rlimit(60)]
    pub fn poll_next(&mut self) -> (step: Step<Option<<S::Item as Computation>::Output>>)
        requires
            old(self).inv(),
        ensures
            final(self).inv(),
            final(self).max == old(self).max,
            final(self).origin == old(self).origin,
            step is Pending ==> final(self).load() == old(self).load() && final(self).measure()
                < old(self).measure() && final(self).taken == old(self).taken,
            step matches Step::Ready(Some(r)) ==> final(self).load() + 1 == old(self).load()
                && final(self).measure() < old(self).measure() && emitted_at(
                old(self).origin@,
                final(self).emitted_from@,
                r,
            ) && !old(self).taken@.contains(final(self).emitted_from@) && final(self).taken@ == old(
                self,
            ).taken@.insert(final(self).emitted_from@),
            step matches Step::Ready(None) ==> old(self).load() == 0 && final(self).load() == 0
                && final(self).taken == old(self).taken,
    {
        let ghost origin = self.origin@;

        // admission: pull one computation while below the bound
        let mut source_done = false;
        let ghost s_before = self.s;
        let ghost p_before = self.p@;
        let ghost b_before = self.admitted();
        if self.max == 0 || self.p.len() < self.max {
            match self.s.poll_next() {
                Step::Pending => {},
                Step::Ready(o) => match o {
                    Some(x) => {
                        proof {
                            assert(origin.skip(b_before) == s_before.model());
                            assert(origin[b_before] == s_before.model()[0]);
                            assert(subsumes(origin[b_before], x));
                            lemma_load_sum_push(p_before, x);
                            assert(origin.skip(b_before + 1) =~= s_before.model().drop_first());
                        }
                        self.p.push(x);
                        proof {
                            let pidx_pre = self.pidx@;
                            self.pidx@ = self.pidx@.push(b_before);
                            // the admitted computation's index is fresh: every
                            // index already placed sits below the boundary
                            assert forall|i1: int, i2: int|
                                0 <= i1 < self.pidx@.len() && 0 <= i2 < self.pidx@.len() && i1
                                    != i2 implies self.pidx@[i1] != self.pidx@[i2] by {
                                if i1 < self.pidx@.len() - 1 && i2 < self.pidx@.len() - 1 {
                                    assert(self.pidx@[i1] == pidx_pre[i1]);
                                    assert(self.pidx@[i2] == pidx_pre[i2]);
                                } else {
                                    let iold = if i1 < i2 {
                                        i1
                                    } else {
                                        i2
                                    };
                                    assert(self.pidx@[iold] == pidx_pre[iold]);
                                    assert(pidx_pre[iold] < b_before);
                                }
                            }
                            assert forall|j: int| self.pidx@.contains(j) implies !self
                                .didx@.contains(j) by {
                                let i = choose|i: int|
                                    0 <= i < self.pidx@.len() && self.pidx@[i] == j;
                                if i < self.pidx@.len() - 1 {
                                    assert(pidx_pre.contains(j));
                                } else {
                                    assert forall|i2: int|
                                        0 <= i2 < self.didx@.len() implies self.didx@[i2]
                                            != b_before by {
                                        assert(self.didx@[i2] < b_before);
                                    }
                                }
                            }
                        }
                    },
                    None => {
                        source_done = true;
                    },
                },
            }
        }

        // poll every in-flight computation once, in admission order
        let ghost b_after = self.admitted();
        let mut work: Vec<S::Item> = Vec::new();
        core::mem::swap(&mut work, &mut self.p);
        let ghost work_idx = self.pidx@;
        let ghost d_idx_before = self.didx@;
        proof {
            assert(forall|i: int| 0 <= i < work_idx.len() ==> #[trigger] work_idx[i] < b_after);
            assert(forall|i: int|
                0 <= i < d_idx_before.len() ==> #[trigger] d_idx_before[i] < b_after);
            assert forall|j: int| work_idx.contains(j) implies !d_idx_before.contains(j) by {
                let i = choose|i: int| 0 <= i < work_idx.len() && work_idx[i] == j;
            }
        }
        let (pending, pending_idx, new_didx) = poll_working_set(
            work,
            &mut self.d,
            Ghost(origin),
            Ghost(work_idx),
            Ghost(d_idx_before),
        );
        self.p = pending;
        proof {
            self.pidx@ = pending_idx@;
            self.didx@ = new_didx@;
        }

        proof {
            assert(self.s.wf());
            assert(self.max > 0 ==> self.p@.len() <= self.max as int);
            assert(self.s.model().len() <= origin.len());
            assert(origin.skip(self.admitted()) == self.s.model());
            assert forall|i: int|
                0 <= i < self.pidx@.len() implies 0 <= (#[trigger] self.pidx@[i])
                    && self.pidx@[i] < self.admitted() by {
                assert(self.pidx@.contains(self.pidx@[i]));
                assert(work_idx.contains(self.pidx@[i]));
                let i2 = choose|i2: int|
                    0 <= i2 < work_idx.len() && work_idx[i2] == self.pidx@[i];
            }
            assert forall|i: int|
                0 <= i < self.didx@.len() implies 0 <= (#[trigger] self.didx@[i])
                    && self.didx@[i] < self.admitted() by {
                assert(self.didx@.contains(self.didx@[i]));
                if d_idx_before.contains(self.didx@[i]) {
                    let i2 = choose|i2: int|
                        0 <= i2 < d_idx_before.len() && d_idx_before[i2] == self.didx@[i];
                } else {
                    assert(work_idx.contains(self.didx@[i]));
                    let i2 = choose|i2: int|
                        0 <= i2 < work_idx.len() && work_idx[i2] == self.didx@[i];
                }
            }
            assert forall|j: int| self.taken@.contains(j) implies !self.pidx@.contains(j)
                && !self.didx@.contains(j) by {
                if self.pidx@.contains(j) {
                    assert(work_idx.contains(j));
                    let i = choose|i: int| 0 <= i < work_idx.len() && work_idx[i] == j;
                }
                if self.didx@.contains(j) {
                    if d_idx_before.contains(j) {
                        let i = choose|i: int|
                            0 <= i < d_idx_before.len() && d_idx_before[i] == j;
                    } else {
                        assert(work_idx.contains(j));
                        let i = choose|i: int| 0 <= i < work_idx.len() && work_idx[i] == j;
                    }
                }
            }
        }

        // emit the front of the result buffer, or report the stream state
        if self.d.len() > 0 {
            let ghost d_full = self.d@;
            let ghost didx_full = self.didx@;
            let ghost j = self.didx@[0];
            let r = self.d.remove(0);
            proof {
                assert(didx_full.contains(j));
                assert(!self.taken@.contains(j));
                self.didx@ = self.didx@.drop_first();
                self.taken@ = self.taken@.insert(j);
                self.emitted_from@ = j;
                assert(emitted_at(origin, j, r));
                assert(!old(self).taken@.contains(j));
                assert(self.taken@ == old(self).taken@.insert(j));
                assert forall|i: int|
                    0 <= i < self.d@.len() implies #[trigger] emitted_at(
                    origin,
                    self.didx@[i],
                    self.d@[i],
                ) by {
                    assert(self.d@[i] == d_full[i + 1]);
                    assert(self.didx@[i] == didx_full[i + 1]);
                }
                assert forall|i: int|
                    0 <= i < self.didx@.len() implies 0 <= (#[trigger] self.didx@[i])
                        && self.didx@[i] < self.admitted() by {
                    assert(self.didx@[i] == didx_full[i + 1]);
                }
                assert forall|i: int| 0 <= i < self.didx@.len() implies self.didx@[i]
                    != didx_full[0] by {
                    assert(self.didx@[i] == didx_full[i + 1]);
                }
                assert forall|jj: int| self.didx@.contains(jj) implies didx_full.contains(jj) by {
                    let i = choose|i: int| 0 <= i < self.didx@.len() && self.didx@[i] == jj;
                    assert(didx_full[i + 1] == jj);
                }
            }
            Step::Ready(Some(r))
        } else if self.p.len() == 0 && source_done {
            Step::Ready(None)
        } else {
            Step::Pending
        }
    }

    /// Runs the whole stream to exhaustion, collecting every emitted value:
    /// exactly one value per computation of the source, each matched to its
    /// own distinct source computation, in completion order.
    pub fn drain(&mut self) -> (out: Vec<<S::Item as Computation>::Output>)
        requires
            old(self).inv(),
        ensures
            final(self).inv(),
            out@.len() == old(self).load(),
            forall|i: int| 0 <= i < out@.len() ==> emitted_ok(#[trigger] out@[i], old(self).origin@),
            exists|m: Seq<int>|
                #[trigger] m.no_duplicates() && m.len() == out@.len() && (forall|i: int|
                    0 <= i < out@.len() ==> emitted_at(old(self).origin@, m[i], out@[i])),
    {
        let ghost origin = self.origin@;
        let ghost load0 = self.load();
        let ghost taken0 = self.taken@;
        let ghost mut marks: Seq<int> = Seq::empty();
        let mut out: Vec<<S::Item as Computation>::Output> = Vec::new();
        loop
            invariant
                self.inv(),
                self.origin@ == origin,
                out@.len() + self.load() == load0,
                marks.len() == out@.len(),
                marks.no_duplicates(),
                forall|i: int|
                    0 <= i < out@.len() ==> emitted_at(origin, #[trigger] marks[i], out@[i]),
                forall|j: int| marks.contains(j) ==> self.taken@.contains(j),
            ensures
                self.inv(),
                self.origin@ == origin,
                self.load() == 0,
                out@.len() == load0,
                marks.len() == out@.len(),
                marks.no_duplicates(),
                forall|i: int|
                    0 <= i < out@.len() ==> emitted_at(origin, #[trigger] marks[i], out@[i]),
            decreases self.measure(),
        {
            let ghost taken_pre = self.taken@;
            let ghost marks_pre = marks;
            match self.poll_next() {
                Step::Pending => {},
                Step::Ready(o) => match o {
                    Some(r) => {
                        proof {
                            let j = self.emitted_from@;
                            assert(emitted_at(origin, j, r));
                            assert(!taken_pre.contains(j));
                            assert(self.taken@ == taken_pre.insert(j));
                            marks = marks.push(j);
                            assert(marks[marks.len() - 1] == j);
                            assert forall|i1: int, i2: int|
                                0 <= i1 < marks.len() && 0 <= i2 < marks.len() && i1
                                    != i2 implies marks[i1] != marks[i2] by {
                                if i1 < marks.len() - 1 && i2 < marks.len() - 1 {
                                    assert(marks[i1] == marks_pre[i1]);
                                    assert(marks[i2] == marks_pre[i2]);
                                } else {
                                    let iold = if i1 < i2 {
                                        i1
                                    } else {
                                        i2
                                    };
                                    assert(marks_pre.contains(marks_pre[iold]));
                                    assert(taken_pre.contains(marks_pre[iold]));
                                }
                            }
                            assert forall|jj: int| marks.contains(jj) implies self.taken@.contains(
                                jj,
                            ) by {
                                let i = choose|i: int| 0 <= i < marks.len() && marks[i] == jj;
                                if i < marks.len() - 1 {
                                    assert(marks_pre.contains(jj));
                                }
                            }
                        }
                        out.push(r);
                    },
                    None => {
                        break ;
                    },
                },
            }
        }
        proof {
            assert forall|i: int| 0 <= i < out@.len() implies emitted_ok(
                #[trigger] out@[i],
                origin,
            ) by {
                assert(emitted_at(origin, marks[i], out@[i]));
            }
        }
        out
    }
}

/// Law: while the bound is positive, the number of in-flight computations
/// never exceeds it; this holds in every state the combinator can reach,
/// since construction establishes the invariant and every scheduling step
/// preserves it.
pub proof fn lemma_bounded_concurrency<S>(c: &ConcurrentStream<S>) where
    S: Stream,
    S::Item: Computation,

    requires
        c.inv(),
        c.max > 0,
    ensures
        c.p@.len() <= c.max as int,
{
}

/// Polls each computation of `work` once, in order: the ones found complete
/// append their value to `d`, the ones still pending are returned, keeping
/// their relative order.  The origin indexes of the inputs are handed on:
/// each surviving computation and each appended value keeps the index of
/// the original computation it descends from, and no index is duplicated.
fn poll_working_set<C: Computation>(
    work: Vec<C>,
    d: &mut Vec<C::Output>,
    Ghost(origin): Ghost<Seq<C>>,
    Ghost(work_idx): Ghost<Seq<int>>,
    Ghost(d_idx): Ghost<Seq<int>>,
) -> (res: (Vec<C>, Ghost<Seq<int>>, Ghost<Seq<int>>))
    requires
        work_idx.len() == work@.len(),
        forall|i: int| 0 <= i < work@.len() ==> (#[trigger] work@[i]).wf() && !work@[i].resolved(),
        forall|i: int| 0 <= i < work@.len() ==> #[trigger] tracks(origin, work_idx[i], work@[i]),
        work_idx.no_duplicates(),
        d_idx.len() == old(d)@.len(),
        forall|i: int|
            0 <= i < old(d)@.len() ==> #[trigger] emitted_at(origin, d_idx[i], old(d)@[i]),
        d_idx.no_duplicates(),
        forall|j: int| work_idx.contains(j) ==> !d_idx.contains(j),
    ensures
        ({
            let (pending, pending_idx, nd_idx) = res;
            &&& pending_idx@.len() == pending@.len()
            &&& pending@.len() <= work@.len()
            &&& (forall|i: int|
                0 <= i < pending@.len() ==> (#[trigger] pending@[i]).wf()
                    && !pending@[i].resolved())
            &&& (forall|i: int|
                0 <= i < pending@.len() ==> #[trigger] tracks(origin, pending_idx@[i], pending@[i]))
            &&& pending_idx@.no_duplicates()
            &&& (forall|j: int| pending_idx@.contains(j) ==> work_idx.contains(j))
            &&& nd_idx@.len() == final(d)@.len()
            &&& pending@.len() + final(d)@.len() == work@.len() + old(d)@.len()
            &&& (forall|i: int|
                0 <= i < final(d)@.len() ==> #[trigger] emitted_at(origin, nd_idx@[i], final(d)@[i]))
            &&& nd_idx@.no_duplicates()
            &&& (forall|j: int| nd_idx@.contains(j) ==> d_idx.contains(j) || work_idx.contains(j))
            &&& (forall|j: int| pending_idx@.contains(j) ==> !nd_idx@.contains(j))
            &&& load_sum(pending@) + final(d)@.len() <= load_sum(work@) + old(d)@.len()
            &&& (final(d)@.len() == old(d)@.len() ==> load_sum(pending@) + work@.len() <= load_sum(
                work@,
            ))
        }),
{
    let ghost work0 = work@;
    let ghost d0 = old(d)@;
    let mut work = work;
    let ghost mut widx = work_idx;
    let mut pending: Vec<C> = Vec::new();
    let ghost mut pending_idx: Seq<int> = Seq::empty();
    let ghost mut nd_idx: Seq<int> = d_idx;
    loop
        invariant
            widx.len() == work@.len(),
            forall|i: int|
                0 <= i < work@.len() ==> (#[trigger] work@[i]).wf() && !work@[i].resolved(),
            forall|i: int| 0 <= i < work@.len() ==> #[trigger] tracks(origin, widx[i], work@[i]),
            widx.no_duplicates(),
            forall|j: int| widx.contains(j) ==> work_idx.contains(j),
            pending_idx.len() == pending@.len(),
            forall|i: int|
                0 <= i < pending@.len() ==> (#[trigger] pending@[i]).wf()
                    && !pending@[i].resolved(),
            forall|i: int|
                0 <= i < pending@.len() ==> #[trigger] tracks(origin, pending_idx[i], pending@[i]),
            pending_idx.no_duplicates(),
            forall|j: int| pending_idx.contains(j) ==> work_idx.contains(j) && !widx.contains(j),
            nd_idx.len() == d@.len(),
            forall|i: int| 0 <= i < d@.len() ==> #[trigger] emitted_at(origin, nd_idx[i], d@[i]),
            nd_idx.no_duplicates(),
            forall|j: int|
                nd_idx.contains(j) ==> (d_idx.contains(j) || work_idx.contains(j))
                    && !widx.contains(j),
            forall|j: int| pending_idx.contains(j) ==> !nd_idx.contains(j),
            pending@.len() + (d@.len() - d0.len()) + work@.len() == work0.len(),
            d0.len() <= d@.len(),
            load_sum(pending@) + (d@.len() - d0.len()) + load_sum(work@) <= load_sum(work0),
            d@.len() == d0.len() ==> load_sum(pending@) + (work0.len() - work@.len()) + load_sum(
                work@,
            ) <= load_sum(work0),
        ensures
            work@.len() == 0,
        decreases work@.len(),
    {
        if work.len() == 0 {
            break ;
        }
        let ghost work_pre = work@;
        let ghost widx_pre = widx;
        let mut item = work.remove(0);
        let ghost j = widx_pre[0];
        proof {
            widx = widx.drop_first();
            assert(work_pre.remove(0) =~= work_pre.drop_first());
            assert(load_sum(work_pre) == work_pre[0].fuel() + 1 + load_sum(work_pre.drop_first()));
            assert forall|jj: int| widx.contains(jj) implies widx_pre.contains(jj) by {
                let i = choose|i: int| 0 <= i < widx.len() && widx[i] == jj;
                assert(widx_pre[i + 1] == jj);
            }
            // the index at hand no longer sits in the remainder
            assert forall|i: int| 0 <= i < widx.len() implies widx[i] != j by {
                assert(widx_pre[i + 1] == widx[i]);
            }
            assert(!widx.contains(j));
            assert(tracks(origin, j, work_pre[0]));
            assert(widx_pre.contains(j));
        }
        let ghost item_pre = item;
        match item.poll() {
            Step::Pending => {
                proof {
                    lemma_load_sum_push(pending@, item);
                    assert(subsumes(origin[j], item_pre));
                    assert(!pending_idx.contains(j));
                    assert(!nd_idx.contains(j));
                    let ghost pending_idx_pre = pending_idx;
                    pending_idx = pending_idx.push(j);
                    assert forall|jj: int| pending_idx.contains(jj) implies work_idx.contains(jj)
                        && !widx.contains(jj) by {
                        let i = choose|i: int| 0 <= i < pending_idx.len() && pending_idx[i] == jj;
                        if i < pending_idx.len() - 1 {
                            assert(pending_idx_pre[i] == jj);
                            assert(pending_idx_pre.contains(jj));
                        }
                    }
                }
                pending.push(item);
            },
            Step::Ready(r) => {
                proof {
                    assert(origin[j].post(r));
                    assert(!nd_idx.contains(j));
                    assert(!pending_idx.contains(j));
                    let ghost nd_idx_pre = nd_idx;
                    nd_idx = nd_idx.push(j);
                    assert forall|jj: int| nd_idx.contains(jj) implies (d_idx.contains(jj)
                        || work_idx.contains(jj)) && !widx.contains(jj) by {
                        let i = choose|i: int| 0 <= i < nd_idx.len() && nd_idx[i] == jj;
                        if i < nd_idx.len() - 1 {
                            assert(nd_idx_pre[i] == jj);
                            assert(nd_idx_pre.contains(jj));
                        }
                    }
                }
                d.push(r);
            },
        }
    }
    (pending, Ghost(pending_idx), Ghost(nd_idx))
}

} // verus!
