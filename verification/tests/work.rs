//! The batch work driver: collecting results and re-queuing follow-up work.

use conveyor::{station_fn, ConveyorError, WorkOutput, Worker};

#[test]
fn work_it_works() {
    let station = station_fn(|val: String| -> Result<Vec<WorkOutput<String>>, ConveyorError> {
        Ok(vec![WorkOutput::Result(val)])
    });

    let worker = Worker::new();
    let ret = worker.run(&station, vec![String::from("Value, baby!")]);

    assert_eq!(ret.len(), 1);
    assert!(ret[0].is_ok());
}

#[test]
fn more_work() {
    let station = station_fn(|val: String| -> Result<Vec<WorkOutput<String>>, ConveyorError> {
        if val == "Value, baby!" {
            Ok(vec![
                WorkOutput::Result(val),
                WorkOutput::Work(String::from("Value, baby 2!")),
            ])
        } else {
            Ok(vec![WorkOutput::Result(val)])
        }
    });

    let worker = Worker::new();
    let ret = worker.run(&station, vec![String::from("Value, baby!")]);

    assert_eq!(ret.len(), 2);
    let mut values: Vec<String> = ret.into_iter().map(|r| r.unwrap()).collect();
    values.sort();
    assert_eq!(values, vec!["Value, baby 2!".to_string(), "Value, baby!".to_string()]);
}

#[test]
fn failing_unit_is_reported() {
    let station = station_fn(|val: u32| -> Result<Vec<WorkOutput<u32>>, ConveyorError> {
        if val == 0 {
            Err(ConveyorError::new("zero is no work"))
        } else {
            Ok(vec![WorkOutput::Result(val)])
        }
    });
    let worker = Worker::new();
    let ret = worker.run(&station, vec![1, 0, 2]);
    assert_eq!(ret.len(), 3);
    assert_eq!(ret.iter().filter(|r| r.is_err()).count(), 1);
}
