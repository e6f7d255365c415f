//! The materialized HTTP response model and its stations.

use conveyor::{
    drive, Chain, ConcatStream, HttpResponse, HttpResponseReader, HttpResponseStream, Method,
    Station, Step, Stream,
};

#[test]
fn lib_it_works() {
    assert_eq!(2 + 2, 4);
}

#[test]
fn reader_yields_the_body() {
    let response = HttpResponse::new(200, Vec::new(), b"<html></html>".to_vec());
    let body = drive(HttpResponseReader.execute(response)).unwrap();
    assert_eq!(body, b"<html></html>".to_vec());
}

#[test]
fn response_getters_report_the_fields() {
    let headers = vec![("content-type".to_string(), "text/plain".to_string())];
    let mut response = HttpResponse::new(404, headers.clone(), b"gone".to_vec());
    assert_eq!(response.status(), 404);
    assert_eq!(response.headers(), &headers);
    let body = drive(response.read_body()).unwrap();
    assert_eq!(body, b"gone".to_vec());
    // the body was taken out
    let empty = drive(response.read_body()).unwrap();
    assert!(empty.is_empty());
}

#[test]
fn stream_station_yields_one_chunk() {
    let response = HttpResponse::new(200, Vec::new(), vec![7, 8]);
    let mut stream = drive(HttpResponseStream.execute(response)).unwrap();
    match stream.poll_next() {
        Step::Ready(Some(chunk)) => assert_eq!(chunk.unwrap(), vec![7, 8]),
        _ => panic!("the body chunk is owed first"),
    }
    match stream.poll_next() {
        Step::Ready(None) => {}
        _ => panic!("one chunk is all there is"),
    }
}

#[test]
fn stream_station_on_empty_body_is_empty() {
    let response = HttpResponse::new(204, Vec::new(), Vec::new());
    let mut stream = drive(HttpResponseStream.execute(response)).unwrap();
    match stream.poll_next() {
        Step::Ready(None) => {}
        _ => panic!("an empty body yields no chunk"),
    }
}

#[test]
fn response_chains_into_concatenated_body() {
    // response -> chunk stream -> concatenation: the original body comes back
    let response = HttpResponse::new(200, Vec::new(), b"abc".to_vec());
    let chain = HttpResponseStream
        .pipe(conveyor::station_fn(
            |s: conveyor::VecStream<Result<Vec<u8>, conveyor::ConveyorError>>| -> Result<
                Vec<u8>,
                conveyor::ConveyorError,
            > { drive(ConcatStream::new(s)) },
        ));
    let body = drive(chain.execute(response)).unwrap();
    assert_eq!(body, b"abc".to_vec());
}

#[test]
fn methods_compare() {
    assert_eq!(Method::GET, Method::GET);
    assert_ne!(Method::GET, Method::POST);
    let all = [Method::GET, Method::POST, Method::PUT, Method::DELETE];
    assert_eq!(all.len(), 4);
}
