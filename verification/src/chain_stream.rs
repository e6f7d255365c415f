//! Piping every computation of a stream through a station.

use std::sync::Arc;
use vstd::prelude::*;

use crate::computation::Computation;
use crate::error::ConveyorError;
use crate::promise::Promise;
use crate::station::{arc_clone, ConveyorFuture, Station};
use crate::step::Step;
use crate::stream::Stream;

verus! {

/// A stream whose items are the source stream's computations, each chained
/// into the shared station: an item that succeeds feeds its value to the
/// station, an item that fails short-circuits past it.
pub struct ChainStream<Str, St> where
    Str: Stream,
    St: Station,
    Str::Item: Computation<Output = Result<St::Input, ConveyorError>>,
 {
    /// The source stream of computations.
    pub stream: Str,
    /// The station every item is chained into.
    pub station: Arc<St>,
}

/// The chained computation `ChainStream` yields for a source item.
pub open spec fn chained_item<Str, St>(station: Arc<St>, m: Str::Item) -> ConveyorFuture<
    Str::Item,
    St,
> where
    Str: Stream,
    St: Station,
    Str::Item: Computation<Output = Result<St::Input, ConveyorError>>,
 {
    ConveyorFuture { n: station, p: Promise::First(m) }
}

impl<Str, St> Stream for ChainStream<Str, St> where
    Str: Stream,
    St: Station,
    Str::Item: Computation<Output = Result<St::Input, ConveyorError>>,
 {
    type Item = ConveyorFuture<Str::Item, St>;

    open spec fn wf(&self) -> bool {
        self.stream.wf()
    }

    open spec fn model(&self) -> Seq<ConveyorFuture<Str::Item, St>> {
        self.stream.model().map_values(|m: Str::Item| chained_item::<Str, St>(self.station, m))
    }

    open spec fn fuel(&self) -> nat {
        self.stream.fuel()
    }

    fn poll_next(&mut self) -> (s: Step<Option<ConveyorFuture<Str::Item, St>>>) {
        let ghost model_pre = self.stream.model();
        match self.stream.poll_next() {
            Step::Pending => {
                proof {
                    assert(self.model() =~= old(self).model());
                }
                Step::Pending
            },
            Step::Ready(o) => match o {
                None => {
                    proof {
                        assert(self.model() =~= Seq::<ConveyorFuture<Str::Item, St>>::empty());
                    }
                    Step::Ready(None)
                },
                Some(m) => {
                    let item = ConveyorFuture { n: arc_clone(&self.station), p: Promise::First(m) };
                    proof {
                        assert(item == old(self).model()[0]);
                        assert(self.model() =~= old(self).model().drop_first());
                    }
                    Step::Ready(Some(item))
                },
            },
        }
    }
}

/// Every stream of computations can be piped through a station, yielding
/// the chained computations.
pub trait ChainStreamer: Stream where
    Self::Item: Computation,
 {
    /// Chains each of the stream's computations into `station`.
    fn pipe_stream<St>(self, station: St) -> (c: ChainStream<Self, St>) where
        St: Station,
        Self::Item: Computation<Output = Result<St::Input, ConveyorError>>,

        ensures
            c.stream == self,
            c.station == station,
    ;
}

impl<T> ChainStreamer for T where T: Stream, T::Item: Computation {
    fn pipe_stream<St>(self, station: St) -> (c: ChainStream<Self, St>) where
        St: Station,
        Self::Item: Computation<Output = Result<St::Input, ConveyorError>>,
     {
        ChainStream { stream: self, station: Arc::new(station) }
    }
}

} // verus!
