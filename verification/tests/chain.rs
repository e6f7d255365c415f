//! Chain composition: piping stations, short-circuiting, associativity.

use conveyor::{drive, into_box, station_fn, station_fn_ctx, Chain, ConveyorError, Station};
use std::sync::atomic::{AtomicUsize, Ordering};
use std::sync::Arc;

#[test]
fn traits_it_works() {
    let s = station_fn(|test: String| -> Result<String, ConveyorError> { Ok(test + ", rapper") });
    let s = s.pipe(station_fn(|test: String| -> Result<String, ConveyorError> { Ok(test + "!") }));
    let p = s.execute("Hello".to_string());
    let ret = drive(p).unwrap();
    assert_eq!(ret, "Hello, rapper!");
}

#[test]
fn it_works2() {
    let s = station_fn(|_test: String| -> Result<i32, ConveyorError> { Ok(2) })
        .pipe(station_fn(|test: i32| -> Result<i32, ConveyorError> { Ok(test + 2) }));
    let p = s.execute("Hello".to_string());
    let ret = drive(p).unwrap();
    assert_eq!(ret, 4);
}

#[test]
fn it_works_ctx() {
    let s = station_fn_ctx(|_test: String, _ctx: &i32| -> Result<i32, ConveyorError> { Ok(2) }, 10)
        .pipe(station_fn(|test: i32| -> Result<i32, ConveyorError> { Ok(test + 2) }));
    let p = s.execute("Hello".to_string());
    let ret = drive(p).unwrap();
    assert_eq!(ret, 4);
}

#[test]
fn boxed() {
    let s = station_fn(|test: &str| -> Result<&str, ConveyorError> { Ok(test) });
    let b = into_box(s);
    let ret = drive(b.execute("Hello")).unwrap();
    assert_eq!(ret, "Hello");
}

#[test]
fn test_conveyor() {
    let chain = station_fn(|s: &str| -> Result<&str, ConveyorError> { Ok(s) })
        .pipe(station_fn(|s: &str| -> Result<&str, ConveyorError> { Ok(s) }))
        .pipe(station_fn(|s: &str| -> Result<&str, ConveyorError> { Ok(s) }))
        .pipe(station_fn(|s: &str| -> Result<&str, ConveyorError> { Ok(s) }));

    let result = drive(chain.execute("Hello, World!")).unwrap();
    assert_eq!(result, "Hello, World!");
}

#[test]
fn test_conveyor_meaning_of_life() {
    let chain = station_fn(|input: &str| -> Result<usize, ConveyorError> { Ok(input.len()) })
        .pipe(station_fn(|len: usize| -> Result<usize, ConveyorError> { Ok(len * 7) }));

    let ans = drive(chain.execute("Hello!"));
    assert_eq!(ans.unwrap(), 42);
}

#[test]
fn failing_first_stage_skips_second_stage() {
    let executed = Arc::new(AtomicUsize::new(0));
    let seen = executed.clone();
    let first = station_fn(|_input: i32| -> Result<i32, ConveyorError> {
        Err(ConveyorError::new("stage one broke"))
    });
    let second = station_fn(move |input: i32| -> Result<i32, ConveyorError> {
        seen.fetch_add(1, Ordering::SeqCst);
        Ok(input)
    });
    let chain = first.pipe(second);

    let ret = drive(chain.execute(7));
    let err = ret.unwrap_err();
    assert_eq!(err.message(), "stage one broke");
    assert_eq!(executed.load(Ordering::SeqCst), 0);
}

#[test]
fn chain_groupings_agree() {
    let a = |input: &str| -> Result<usize, ConveyorError> { Ok(input.len()) };
    let b = |len: usize| -> Result<usize, ConveyorError> { Ok(len * 3) };
    let c = |n: usize| -> Result<String, ConveyorError> { Ok(format!("{}", n)) };

    let left = station_fn(a).pipe(station_fn(b)).pipe(station_fn(c));
    let right = station_fn(a).pipe(station_fn(b).pipe(station_fn(c)));

    for input in ["", "x", "Hello, World!"] {
        let l = drive(left.execute(input)).unwrap();
        let r = drive(right.execute(input)).unwrap();
        assert_eq!(l, r);
    }
}

#[test]
fn error_in_second_stage_surfaces() {
    let chain = station_fn(|n: u64| -> Result<u64, ConveyorError> { Ok(n + 1) })
        .pipe(station_fn(|_n: u64| -> Result<u64, ConveyorError> {
            Err(ConveyorError::new("stage two broke"))
        }));
    let err = drive(chain.execute(1)).unwrap_err();
    assert_eq!(err.message(), "stage two broke");
}
