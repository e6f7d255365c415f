//! A batch driver that fans units of work out through a station, re-queuing
//! follow-up work a unit produces until none remains.

use vstd::prelude::*;

use crate::computation::Computation;
use crate::concurrent_stream::{emitted_ok, ConcurrentStream};
use crate::error::ConveyorError;
use crate::station::Station;
use crate::stream::{Stream, VecStream};

verus! {

/// What one processed unit of work contributes: a finished result, or a
/// follow-up unit to feed through the station again.
pub enum WorkOutput<V> {
    Result(V),
    Work(V),
}

/// The driver that processes batches of work units.
pub struct Worker;

impl Worker {
    /// A batch driver.
    pub fn new() -> (w: Worker) {
        Worker
    }

    /// Feeds every unit of `input` through `station`, at most four
    /// concurrently, collects each invocation's finished results, and
    /// re-queues each follow-up unit for another round; rounds repeat until
    /// no work remains (or, structurally, until `usize::MAX` rounds have
    /// run).  Every returned entry is accounted for by a single invocation
    /// of the station.
    pub fn run<V, W>(&self, station: &W, input: Vec<V>) -> (out: Vec<
        Result<V, ConveyorError>,
    >) where W: Station<Input = V, Output = Vec<WorkOutput<V>>>
        requires
            forall|v: V| station.pre(v),
        ensures
            forall|i: int|
                0 <= i < out@.len() && (#[trigger] out@[i]) is Err ==> exists|u: V|
                    #[trigger] station.post(u, Err(out@[i]->Err_0)),
            forall|i: int|
                0 <= i < out@.len() && (#[trigger] out@[i]) is Ok ==> exists|
                    u: V,
                    outs: Vec<WorkOutput<V>>,
                |
                    #[trigger] station.post(u, Ok(outs)) && outs@.contains(
                        WorkOutput::Result(out@[i]->Ok_0),
                    ),
    {
        let mut queue = input;
        let mut out: Vec<Result<V, ConveyorError>> = Vec::new();
        let mut rounds: usize = 0;
        while queue.len() > 0 && rounds < usize::MAX
            invariant
                forall|v: V| station.pre(v),
                forall|i: int|
                    0 <= i < out@.len() && (#[trigger] out@[i]) is Err ==> exists|u: V|
                        #[trigger] station.post(u, Err(out@[i]->Err_0)),
                forall|i: int|
                    0 <= i < out@.len() && (#[trigger] out@[i]) is Ok ==> exists|
                        u: V,
                        outs: Vec<WorkOutput<V>>,
                    |
                        #[trigger] station.post(u, Ok(outs)) && outs@.contains(
                            WorkOutput::Result(out@[i]->Ok_0),
                        ),
            decreases usize::MAX - rounds,
        {
            rounds = rounds + 1;

            // start one invocation per queued unit
            let mut futs: Vec<W::Fut> = Vec::new();
            while queue.len() > 0
                invariant
                    forall|v: V| station.pre(v),
                    forall|j: int|
                        0 <= j < futs@.len() ==> (#[trigger] futs@[j]).wf() && !futs@[j].resolved()
                            && (forall|r: Result<Vec<WorkOutput<V>>, ConveyorError>|
                            #[trigger] futs@[j].post(r) ==> exists|u: V| station.post(u, r)),
                decreases queue@.len(),
            {
                let v = queue.remove(0);
                let ghost u = v;
                let fut = station.execute(v);
                proof {
                    assert(forall|r: Result<Vec<WorkOutput<V>>, ConveyorError>|
                        #[trigger] fut.post(r) ==> station.post(u, r));
                }
                futs.push(fut);
            }

            // drain them under the concurrency bound
            let stream = VecStream::new(futs);
            let ghost origin = stream.model();
            let mut cs = ConcurrentStream::new(stream, 4);
            let mut results = cs.drain();

            // partition: finished results are collected, follow-up work is
            // re-queued for the next round
            while results.len() > 0
                invariant
                    forall|i: int|
                        0 <= i < results@.len() ==> emitted_ok(#[trigger] results@[i], origin),
                    forall|j: int, r: Result<Vec<WorkOutput<V>>, ConveyorError>|
                        0 <= j < origin.len() && #[trigger] origin[j].post(r) ==> exists|u: V|
                            station.post(u, r),
                    forall|i: int|
                        0 <= i < out@.len() && (#[trigger] out@[i]) is Err ==> exists|u: V|
                            #[trigger] station.post(u, Err(out@[i]->Err_0)),
                    forall|i: int|
                        0 <= i < out@.len() && (#[trigger] out@[i]) is Ok ==> exists|
                            u: V,
                            outs: Vec<WorkOutput<V>>,
                        |
                            #[trigger] station.post(u, Ok(outs)) && outs@.contains(
                                WorkOutput::Result(out@[i]->Ok_0),
                            ),
                decreases results@.len(),
            {
                let r = results.remove(0);
                proof {
                    let j = choose|j: int| 0 <= j < origin.len() && #[trigger] origin[j].post(r);
                    assert(origin[j].post(r));
                    let u = choose|u: V| #[trigger] station.post(u, r);
                    if r is Err {
                        assert(station.post(u, Err::<Vec<WorkOutput<V>>, ConveyorError>(r->Err_0)));
                    } else {
                        assert(station.post(u, Ok::<Vec<WorkOutput<V>>, ConveyorError>(r->Ok_0)));
                    }
                }
                match r {
                    Err(e) => {
                        let ghost out_pre = out@;
                        out.push(Err(e));
                        proof {
                            let last = out@.len() - 1;
                            assert(out@[last] is Err && out@[last]->Err_0 == e);
                            assert(exists|u: V| #[trigger] station.post(u, Err(out@[last]->Err_0)));
                            assert(forall|i: int| 0 <= i < last ==> out@[i] == out_pre[i]);
                        }
                    },
                    Ok(outs) => {
                        let ghost outs0 = outs;
                        let ghost u = choose|u: V| #[trigger] station.post(u, Ok(outs0));
                        let mut rest = outs;
                        proof {
                            assert forall|k: int|
                                0 <= k < rest@.len() implies outs0@.contains(#[trigger] rest@[k]) by {
                                assert(outs0@[k] == rest@[k]);
                            }
                        }
                        while rest.len() > 0
                            invariant
                                station.post(u, Ok(outs0)),
                                forall|k: int|
                                    0 <= k < rest@.len() ==> outs0@.contains(#[trigger] rest@[k]),
                                forall|i: int|
                                    0 <= i < out@.len() && (#[trigger] out@[i]) is Err ==> exists|u: V|
                                        #[trigger] station.post(u, Err(out@[i]->Err_0)),
                                forall|i: int|
                                    0 <= i < out@.len() && (#[trigger] out@[i]) is Ok ==> exists|
                                        u: V,
                                        outs: Vec<WorkOutput<V>>,
                                    |
                                        #[trigger] station.post(u, Ok(outs)) && outs@.contains(
                                            WorkOutput::Result(out@[i]->Ok_0),
                                        ),
                            decreases rest@.len(),
                        {
                            let ghost rest_pre = rest@;
                            let item = rest.remove(0);
                            proof {
                                assert(outs0@.contains(rest_pre[0]));
                                assert forall|k: int|
                                    0 <= k < rest@.len() implies outs0@.contains(
                                    #[trigger] rest@[k],
                                ) by {
                                    assert(rest@[k] == rest_pre[k + 1]);
                                }
                            }
                            match item {
                                WorkOutput::Result(v) => {
                                    out.push(Ok(v));
                                },
                                WorkOutput::Work(v) => {
                                    queue.push(v);
                                },
                            }
                        }
                    },
                }
            }
        }
        out
    }
}

} // verus!
