//! A materialized model of an HTTP exchange, as far as a pipeline's logic
//! reads it.
//!
//! The pipeline never performs network I/O itself: the embedding
//! application's HTTP client fetches a response and converts it into
//! [`HttpResponse`] — a status code, header pairs and body bytes — which the
//! stations here consume.

use vstd::prelude::*;

use crate::computation::{ready, Computation, ReadyFuture};
use crate::error::ConveyorError;
use crate::station::Station;
use crate::stream::{Stream, VecStream};

verus! {

/// The request methods a pipeline request can carry.
#[derive(Clone, Copy, Debug, PartialEq, Eq, Structural)]
pub enum Method {
    GET,
    POST,
    PUT,
    DELETE,
}

/// A fully received HTTP response: what the pipeline's logic reads of one.
pub struct HttpResponse {
    /// The status code.
    pub status: u16,
    /// The header name and value pairs, in order of arrival.
    pub headers: Vec<(String, String)>,
    /// The body bytes.
    pub body: Vec<u8>,
}

impl HttpResponse {
    /// A response with the given status, headers and body.
    pub fn new(status: u16, headers: Vec<(String, String)>, body: Vec<u8>) -> (r: HttpResponse)
        ensures
            r.status == status,
            r.headers == headers,
            r.body == body,
    {
        HttpResponse { status, headers, body }
    }

    /// The status code.
    pub fn status(&self) -> (s: u16)
        ensures
            s == self.status,
    {
        self.status
    }

    /// The header pairs.
    pub fn headers(&self) -> (h: &Vec<(String, String)>)
        ensures
            h == self.headers,
    {
        &self.headers
    }

    /// Takes the body out of the response and hands back a computation
    /// yielding it.
    pub fn read_body(&mut self) -> (f: ReadyFuture<Result<Vec<u8>, ConveyorError>>)
        ensures
            final(self).status == old(self).status,
            final(self).headers == old(self).headers,
            final(self).body@ == Seq::<u8>::empty(),
            f.wf(),
            !f.resolved(),
            forall|r: Result<Vec<u8>, ConveyorError>|
                f.post(r) <==> r == Ok::<Vec<u8>, ConveyorError>(old(self).body),
    {
        let mut body: Vec<u8> = Vec::new();
        core::mem::swap(&mut body, &mut self.body);
        ready(Ok(body))
    }
}

/// A station that reads a response's whole body as one byte vector.
#[derive(Clone, Debug)]
pub struct HttpResponseReader;

impl Station for HttpResponseReader {
    type Input = HttpResponse;

    type Output = Vec<u8>;

    type Fut = ReadyFuture<Result<Vec<u8>, ConveyorError>>;

    open spec fn pre(&self, input: HttpResponse) -> bool {
        true
    }

    open spec fn post(&self, input: HttpResponse, r: Result<Vec<u8>, ConveyorError>) -> bool {
        r == Ok::<Vec<u8>, ConveyorError>(input.body)
    }

    open spec fn fuel_bound(&self) -> nat {
        0
    }

    fn execute(&self, input: HttpResponse) -> (fut: ReadyFuture<Result<Vec<u8>, ConveyorError>>) {
        ready(Ok(input.body))
    }
}

/// A station that turns a response into a stream of body chunks: the whole
/// body as one chunk, or no chunk at all when the body is empty.
#[derive(Clone, Debug)]
pub struct HttpResponseStream;

impl Station for HttpResponseStream {
    type Input = HttpResponse;

    type Output = VecStream<Result<Vec<u8>, ConveyorError>>;

    type Fut = ReadyFuture<Result<VecStream<Result<Vec<u8>, ConveyorError>>, ConveyorError>>;

    open spec fn pre(&self, input: HttpResponse) -> bool {
        true
    }

    open spec fn post(
        &self,
        input: HttpResponse,
        r: Result<VecStream<Result<Vec<u8>, ConveyorError>>, ConveyorError>,
    ) -> bool {
        &&& r is Ok
        &&& input.body@.len() == 0 ==> r->Ok_0.model() == Seq::<
            Result<Vec<u8>, ConveyorError>,
        >::empty()
        &&& input.body@.len() > 0 ==> r->Ok_0.model() == seq![
            Ok::<Vec<u8>, ConveyorError>(input.body),
        ]
    }

    open spec fn fuel_bound(&self) -> nat {
        0
    }

    fn execute(&self, input: HttpResponse) -> (fut: ReadyFuture<
        Result<VecStream<Result<Vec<u8>, ConveyorError>>, ConveyorError>,
    >) {
        let mut chunks: Vec<Result<Vec<u8>, ConveyorError>> = Vec::new();
        if input.body.len() > 0 {
            chunks.push(Ok(input.body));
        }
        ready(Ok(VecStream::new(chunks)))
    }
}

} // verus!
