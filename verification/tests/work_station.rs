//! The worker-pool station: the submission protocol, backpressure, and
//! graceful shutdown of every worker seat.

use conveyor::{drive, Computation, SendOutcome, Station, Step, WorkFn, WorkStation};

#[derive(Clone)]
struct Doubler;

impl WorkFn<i32, i32, ()> for Doubler {
    fn context(&self) {}

    fn call(&self, input: i32, _ctx: &mut ()) -> Result<i32, conveyor::ConveyorError> {
        Ok(input * 2)
    }
}

/// A work function whose private context counts how many units this one
/// worker has served.
#[derive(Clone)]
struct Counting;

impl WorkFn<i32, (i32, usize), usize> for Counting {
    fn context(&self) -> usize {
        0
    }

    fn call(&self, input: i32, served: &mut usize) -> Result<(i32, usize), conveyor::ConveyorError> {
        *served += 1;
        Ok((input + 1, *served))
    }
}

#[test]
fn pool_runs_work_and_responds() {
    let (station, mut seats) = WorkStation::new(2, Doubler);
    assert_eq!(station.workers(), 2);
    assert_eq!(seats.len(), 2);

    let f1 = station.execute(4);
    let f2 = station.execute(5);
    // a seat handles one unit per step
    assert!(seats[0].step());
    assert!(seats[1].step());
    assert_eq!(drive(f1).unwrap(), 8);
    assert_eq!(drive(f2).unwrap(), 10);

    station.shutdown();
    for seat in seats.iter_mut() {
        seat.run();
    }
}

#[test]
fn every_seat_stops_after_shutdown() {
    let (station, mut seats) = WorkStation::new(3, Doubler);
    assert_eq!(station.workers(), 3);
    station.shutdown();
    // run() returning is the seat's termination; none is left behind even
    // though no work was ever submitted
    let mut stopped = 0;
    for seat in seats.iter_mut() {
        seat.run();
        stopped += 1;
    }
    assert_eq!(stopped, 3);
    // a stopped seat keeps reporting that it must stop
    assert!(!seats[0].step());
}

#[test]
fn full_pool_reports_backpressure() {
    let (station, mut seats) = WorkStation::new(1, Doubler);

    // one unit fills the single queue slot while no worker is draining
    let f1 = station.execute(10);
    let refused = station.try_execute(11);
    match refused {
        Err(SendOutcome::Full) => {}
        _ => panic!("a full pool must report backpressure"),
    }

    // once the worker frees the slot, submission proceeds
    assert!(seats[0].step());
    let f2 = station.try_execute(12).ok().unwrap();
    assert!(seats[0].step());

    assert_eq!(drive(f1).unwrap(), 20);
    assert_eq!(drive(f2).unwrap(), 24);

    station.shutdown();
    seats[0].run();
}

#[test]
fn execute_after_shutdown_fails_without_blocking() {
    let (station, mut seats) = WorkStation::new(1, Doubler);
    let orphan = {
        // move the station away and shut it down; its seat stops
        station.shutdown();
        seats[0].run();
        drop(seats);
        // a fresh pool whose seats are dropped at once: every receiver is
        // gone, so submission fails immediately
        let (station2, seats2) = WorkStation::<i32, i32>::new(1, Doubler);
        drop(seats2);
        station2.execute(1)
    };
    assert!(drive(orphan).is_err());
}

#[test]
fn each_worker_keeps_its_own_context() {
    let (station, mut seats) = WorkStation::new(2, Counting);
    let f1 = station.execute(10);
    let f2 = station.execute(20);
    // both units are handled by the same seat: its private counter reaches
    // two, while the other seat's counter stays untouched
    assert!(seats[0].step());
    assert!(seats[0].step());
    assert_eq!(drive(f1).unwrap(), (11, 1));
    assert_eq!(drive(f2).unwrap(), (21, 2));

    let f3 = station.execute(30);
    assert!(seats[1].step());
    assert_eq!(drive(f3).unwrap(), (31, 1));

    station.shutdown();
    for seat in seats.iter_mut() {
        seat.run();
    }
}

#[test]
fn response_poll_reports_pending_before_blocking() {
    let (station, mut seats) = WorkStation::new(1, Doubler);
    let mut f = station.try_execute(21).ok().unwrap();
    // no worker has run yet: the first poll only looks for the response
    // and reports pending instead of blocking
    assert!(matches!(f.poll(), Step::Pending));
    assert!(seats[0].step());
    match f.poll() {
        Step::Ready(r) => assert_eq!(r.unwrap(), 42),
        Step::Pending => panic!("the response has been delivered"),
    }
    station.shutdown();
    seats[0].run();
}
