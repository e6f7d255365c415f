//! The computation primitives: ready and delayed values, sums of
//! computations, and the future-or-error wrapper.

use conveyor::{
    delayed, drive, ready, Computation, ConveyorError, FutureOrErrFuture, OneOf3Future,
    OneOf4Future, OneOfFuture, Promise, Promise3, Promise4, ReadyFuture, Step,
};

#[test]
fn ready_delivers_at_once() {
    let f = ready(41);
    assert_eq!(drive(f), 41);
}

#[test]
fn delayed_reports_pending_first() {
    let mut f = delayed("late", 2);
    assert!(matches!(f.poll(), Step::Pending));
    assert!(matches!(f.poll(), Step::Pending));
    match f.poll() {
        Step::Ready(v) => assert_eq!(v, "late"),
        Step::Pending => panic!("the delay is spent"),
    }
}

#[test]
fn one_of_two_runs_either_variant() {
    type Either = OneOfFuture<ReadyFuture<u32>, conveyor::DelayedFuture<u32>, u32>;
    let first: Either = OneOfFuture::new(Promise::First(ready(1)));
    let second: Either = OneOfFuture::new(Promise::Second(delayed(2, 3)));
    assert_eq!(drive(first), 1);
    assert_eq!(drive(second), 2);
}

#[test]
fn one_of_three_runs_any_variant() {
    type Any = OneOf3Future<ReadyFuture<u32>, conveyor::DelayedFuture<u32>, ReadyFuture<u32>, u32>;
    let third: Any = OneOf3Future::new(Promise3::Third(ready(3)));
    assert_eq!(drive(third), 3);
}

#[test]
fn one_of_four_runs_any_variant() {
    type Any = OneOf4Future<
        ReadyFuture<u8>,
        ReadyFuture<u8>,
        conveyor::DelayedFuture<u8>,
        ReadyFuture<u8>,
        u8,
    >;
    let fourth: Any = OneOf4Future::new(Promise4::Fourth(ready(4)));
    assert_eq!(drive(fourth), 4);
}

#[test]
fn future_or_err_delivers_the_error() {
    let f: FutureOrErrFuture<ReadyFuture<Result<u32, ConveyorError>>> =
        FutureOrErrFuture::from_err(ConveyorError::new("known failure"));
    let err = drive(f).unwrap_err();
    assert_eq!(err.message(), "known failure");
}

#[test]
fn future_or_err_runs_the_future() {
    let inner: ReadyFuture<Result<u32, ConveyorError>> = ready(Ok(9));
    let f = FutureOrErrFuture::from(inner);
    assert_eq!(drive(f).unwrap(), 9);
}
