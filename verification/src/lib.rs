//! A composable pipeline framework built from explicitly polled computations.
//!
//! A `Station` turns an input value into a suspendable computation that
//! eventually yields a result or an error; stations compose sequentially into
//! a `Conveyor` chain that short-circuits on the first error.  A
//! `ConcurrentStream` bounds how many computations of a stream are in flight
//! at once, and a `Consumer` drives a `Producer` of items through a station,
//! collecting one result per item.  A `WorkStation` runs a synchronous work
//! function on a fixed pool of worker threads fed through a bounded channel.

mod chain_stream;
mod computation;
mod concurrent_stream;
mod error;
mod future_or_err;
mod http;
mod package;
mod producer;
mod promise;
mod station;
mod step;
mod stream;
mod utils;
mod work;
mod work_station;

pub use chain_stream::{chained_item, ChainStream, ChainStreamer};
pub use concurrent_stream::{
    emitted_at, emitted_ok, lemma_bounded_concurrency, load_sum, subsumes, tracks,
    ConcurrentStream,
};
pub use computation::{delayed, drive, ready, Computation, DelayedFuture, ReadyFuture};
pub use error::ConveyorError;
pub use future_or_err::{FutureOrErr, FutureOrErrFuture};
pub use http::{HttpResponse, HttpResponseReader, HttpResponseStream, Method};
pub use package::{
    concat_chunks, content_bytes, result_matches, to_package, ConcatStream, IntoPackageContent,
    Package, PackageContent, ToPackage,
};
pub use producer::{Consumer, Producer, VecProducer};
pub use promise::{OneOf3Future, OneOf4Future, OneOfFuture, Promise, Promise3, Promise4};
pub use station::{
    into_box, lemma_chain_associative, lemma_chain_short_circuit, station_fn, station_fn_ctx,
    Boxed, Chain, Conveyor, ConveyorFuture, Station, StationFn, StationFnCtx,
};
pub use step::Step;
pub use stream::{Stream, VecStream};
pub use utils::{to_text, utf8_decode, ToText};
pub use work::{WorkOutput, Worker};
pub use work_station::{RecvOutcome, SendOutcome, WorkFn, WorkStation, WorkStationFuture, WorkerSeat};
