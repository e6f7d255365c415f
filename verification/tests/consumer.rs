//! The producer/consumer driver: exhaustion, ordering, per-item error
//! isolation.

use conveyor::{station_fn, Chain, Consumer, ConveyorError, VecProducer};

#[test]
fn run_returns_items_in_order() {
    let producer = VecProducer::from_items(vec![1, 2, 3]);
    let identity = station_fn(|v: i32| -> Result<i32, ConveyorError> { Ok(v) });
    let mut consumer = Consumer::new(producer, identity);
    let out = consumer.run();
    assert_eq!(out.len(), 3);
    assert_eq!(out[0].as_ref().unwrap(), &1);
    assert_eq!(out[1].as_ref().unwrap(), &2);
    assert_eq!(out[2].as_ref().unwrap(), &3);
}

#[test]
fn run_on_empty_producer_is_empty() {
    let producer = VecProducer::from_items(Vec::<i32>::new());
    let identity = station_fn(|v: i32| -> Result<i32, ConveyorError> { Ok(v) });
    let mut consumer = Consumer::new(producer, identity);
    let out = consumer.run();
    assert!(out.is_empty());
}

#[test]
fn station_error_does_not_stop_the_run() {
    let producer = VecProducer::from_items(vec![1, 2, 3]);
    let picky = station_fn(|v: i32| -> Result<i32, ConveyorError> {
        if v == 2 {
            Err(ConveyorError::new("two is refused"))
        } else {
            Ok(v)
        }
    });
    let mut consumer = Consumer::new(producer, picky);
    let out = consumer.run();
    assert_eq!(out.len(), 3);
    assert_eq!(out[0].as_ref().unwrap(), &1);
    assert_eq!(out[1].as_ref().unwrap_err().message(), "two is refused");
    assert_eq!(out[2].as_ref().unwrap(), &3);
}

#[test]
fn producer_error_is_recorded_and_skipped() {
    let producer = VecProducer::new(vec![
        Ok(1),
        Err(ConveyorError::new("the pull itself failed")),
        Ok(3),
    ]);
    let identity = station_fn(|v: i32| -> Result<i32, ConveyorError> { Ok(v) });
    let mut consumer = Consumer::new(producer, identity);
    let out = consumer.run();
    assert_eq!(out.len(), 3);
    assert_eq!(out[0].as_ref().unwrap(), &1);
    assert_eq!(out[1].as_ref().unwrap_err().message(), "the pull itself failed");
    assert_eq!(out[2].as_ref().unwrap(), &3);
}

#[test]
fn consumer_runs_items_through_a_chain() {
    let producer = VecProducer::from_items(vec![1, 2, 3]);
    let chain = station_fn(|v: i32| -> Result<i32, ConveyorError> { Ok(v + 1) })
        .pipe(station_fn(|v: i32| -> Result<i32, ConveyorError> { Ok(v * 2) }));
    let mut consumer = Consumer::new(producer, chain);
    let out: Vec<i32> = consumer.run().into_iter().map(|r| r.unwrap()).collect();
    assert_eq!(out, vec![4, 6, 8]);
}
