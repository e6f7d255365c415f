//! The bounded-concurrency stream: the in-flight bound, completion order,
//! and exhaustive emission.

use conveyor::{delayed, station_fn, ChainStreamer, ConcurrentStream, ConveyorError, DelayedFuture, Step, VecStream};

#[test]
fn in_flight_never_exceeds_bound() {
    let max: usize = 2;
    let total: usize = 6;
    let mut futs: Vec<DelayedFuture<usize>> = Vec::new();
    for i in 0..total {
        futs.push(delayed(i, (i % 4) + 1));
    }
    let mut cs = ConcurrentStream::new(VecStream::new(futs), max);

    let mut seen: Vec<usize> = Vec::new();
    loop {
        let step = cs.poll_next();
        assert!(cs.in_flight() <= max);
        match step {
            Step::Pending => {}
            Step::Ready(Some(v)) => seen.push(v),
            Step::Ready(None) => break,
        }
    }

    // every computation's value is emitted exactly once
    assert_eq!(seen.len(), total);
    let mut sorted = seen.clone();
    sorted.sort();
    assert_eq!(sorted, (0..total).collect::<Vec<_>>());
}

#[test]
fn faster_computation_finishes_first() {
    // the first-admitted computation takes longer than the second: the
    // second's value is emitted first
    let slow_a = delayed("a", 3);
    let quick_b = delayed("b", 1);
    let mut cs = ConcurrentStream::new(VecStream::new(vec![slow_a, quick_b]), 2);
    let out = cs.drain();
    assert_eq!(out, vec!["b", "a"]);
}

#[test]
fn drain_collects_everything() {
    let futs = vec![delayed(10, 0), delayed(20, 5), delayed(30, 2)];
    let mut cs = ConcurrentStream::new(VecStream::new(futs), 2);
    let out = cs.drain();
    assert_eq!(out.len(), 3);
    let mut sorted = out.clone();
    sorted.sort();
    assert_eq!(sorted, vec![10, 20, 30]);
}

#[test]
fn unbounded_when_max_is_zero() {
    let futs = vec![delayed(1, 1), delayed(2, 1), delayed(3, 1)];
    let mut cs = ConcurrentStream::new(VecStream::new(futs), 0);
    let out = cs.drain();
    assert_eq!(out.len(), 3);
}

#[test]
fn empty_stream_ends_at_once() {
    let futs: Vec<DelayedFuture<u8>> = Vec::new();
    let mut cs = ConcurrentStream::new(VecStream::new(futs), 3);
    let out = cs.drain();
    assert!(out.is_empty());
}

#[test]
fn chained_stream_respects_the_bound() {
    // computations yielding numbers, chained through a doubling station,
    // drained under a bound of two
    let sources = vec![
        conveyor::delayed(Ok::<i32, ConveyorError>(1), 2),
        conveyor::delayed(Ok::<i32, ConveyorError>(2), 0),
        conveyor::delayed(Ok::<i32, ConveyorError>(3), 1),
    ];
    let doubler = station_fn(|v: i32| -> Result<i32, ConveyorError> { Ok(v * 2) });
    let chained = VecStream::new(sources).pipe_stream(doubler);
    let mut cs = ConcurrentStream::new(chained, 2);
    let mut out: Vec<i32> = Vec::new();
    loop {
        let step = cs.poll_next();
        assert!(cs.in_flight() <= 2);
        match step {
            Step::Pending => {}
            Step::Ready(Some(r)) => out.push(r.unwrap()),
            Step::Ready(None) => break,
        }
    }
    out.sort();
    assert_eq!(out, vec![2, 4, 6]);
}
