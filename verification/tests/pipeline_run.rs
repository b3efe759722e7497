use bounded_pipeline::config::{Config, ConfigError, ErrorPolicy};
use bounded_pipeline::runner::run_sequential;
use bounded_pipeline::state::{PipelineError, PipelineState, Summary};
use std::cell::RefCell;

fn skipping(chunk_capacity: usize, result_capacity: usize) -> Config {
    Config::new(chunk_capacity, result_capacity)
        .with_transform_policy(ErrorPolicy::Skip)
        .with_consume_policy(ErrorPolicy::Skip)
}

#[test]
fn doubles_every_chunk_in_order() {
    let output: RefCell<Vec<u64>> = RefCell::new(Vec::new());
    let summary = run_sequential(
        vec![1u64, 2, 3],
        |x: u64| -> Result<u64, ()> { Ok(x * 2) },
        |r: u64| -> Result<(), ()> {
            output.borrow_mut().push(r);
            Ok(())
        },
        |_: Summary| false,
        Config::new(2, 2),
    )
    .unwrap();
    assert_eq!(*output.borrow(), vec![2, 4, 6]);
    assert_eq!(
        summary,
        Summary {
            state: PipelineState::Completed,
            accepted: 3,
            processed: 3,
            skipped: 0,
            failed: 0,
            transform_failures: 0,
            consume_failures: 0,
            first_error: None,
        }
    );
}

#[test]
fn skips_the_chunk_that_fails_to_transform() {
    let output: RefCell<Vec<u64>> = RefCell::new(Vec::new());
    let summary = run_sequential(
        vec![1u64, 2, 3],
        |x: u64| -> Result<u64, String> {
            if x == 2 {
                Err(format!("cannot transform {}", x))
            } else {
                Ok(x * 2)
            }
        },
        |r: u64| -> Result<(), ()> {
            output.borrow_mut().push(r);
            Ok(())
        },
        |_: Summary| false,
        skipping(4, 4),
    )
    .unwrap();
    assert_eq!(*output.borrow(), vec![2, 6]);
    assert_eq!(summary.failed, 1);
    assert_eq!(summary.transform_failures, 1);
    assert_eq!(summary.consume_failures, 0);
    assert_eq!(summary.processed, 2);
    assert_eq!(summary.skipped, 0);
    assert_eq!(summary.accepted, 3);
    assert_eq!(summary.state, PipelineState::Completed);
    assert_eq!(summary.first_error, None);
}

#[test]
fn cancellation_after_first_chunk_aborts() {
    let output: RefCell<Vec<u64>> = RefCell::new(Vec::new());
    let summary = run_sequential(
        vec![1u64, 2, 3],
        |x: u64| -> Result<u64, ()> { Ok(x * 2) },
        |r: u64| -> Result<(), ()> {
            output.borrow_mut().push(r);
            Ok(())
        },
        |seen: Summary| seen.processed >= 1,
        Config::new(1, 1),
    )
    .unwrap();
    assert_eq!(summary.state, PipelineState::Aborted);
    assert_eq!(summary.first_error, Some(PipelineError::Cancelled));
    assert!(output.borrow().len() <= 1);
    assert_eq!(*output.borrow(), vec![2]);
    assert_eq!(summary.processed, 1);
    assert_eq!(summary.accepted, summary.processed + summary.failed + summary.skipped);
}

#[test]
fn cancellation_before_the_first_round_processes_nothing() {
    let output: RefCell<Vec<u64>> = RefCell::new(Vec::new());
    let summary = run_sequential(
        vec![1u64, 2, 3],
        |x: u64| -> Result<u64, ()> { Ok(x * 2) },
        |r: u64| -> Result<(), ()> {
            output.borrow_mut().push(r);
            Ok(())
        },
        |_: Summary| true,
        Config::new(1, 1),
    )
    .unwrap();
    assert!(output.borrow().is_empty());
    assert_eq!(
        summary,
        Summary {
            state: PipelineState::Aborted,
            accepted: 0,
            processed: 0,
            skipped: 0,
            failed: 0,
            transform_failures: 0,
            consume_failures: 0,
            first_error: Some(PipelineError::Cancelled),
        }
    );
}

#[test]
fn transform_failure_is_fatal_under_the_abort_policy() {
    let output: RefCell<Vec<u64>> = RefCell::new(Vec::new());
    let summary = run_sequential(
        vec![1u64, 2, 3, 4],
        |x: u64| -> Result<u64, ()> {
            if x == 2 {
                Err(())
            } else {
                Ok(x * 2)
            }
        },
        |r: u64| -> Result<(), ()> {
            output.borrow_mut().push(r);
            Ok(())
        },
        |_: Summary| false,
        Config::new(1, 1),
    )
    .unwrap();
    assert_eq!(summary.state, PipelineState::Aborted);
    assert_eq!(summary.first_error, Some(PipelineError::Transform { item: 1 }));
    assert_eq!(summary.failed, 1);
    assert_eq!(*output.borrow(), vec![2]);
    assert_eq!(summary.accepted, summary.processed + summary.failed + summary.skipped);
}

#[test]
fn consume_failure_is_fatal_under_the_abort_policy() {
    let output: RefCell<Vec<u64>> = RefCell::new(Vec::new());
    let summary = run_sequential(
        vec![1u64, 2, 3],
        |x: u64| -> Result<u64, ()> { Ok(x * 2) },
        |r: u64| -> Result<(), ()> {
            if r == 4 {
                Err(())
            } else {
                output.borrow_mut().push(r);
                Ok(())
            }
        },
        |_: Summary| false,
        Config::new(3, 3),
    )
    .unwrap();
    assert_eq!(summary.state, PipelineState::Aborted);
    assert_eq!(summary.first_error, Some(PipelineError::Consume { item: 1 }));
    assert_eq!(*output.borrow(), vec![2]);
    assert_eq!(summary.processed, 1);
    assert_eq!(summary.failed, 1);
    assert_eq!(summary.accepted, summary.processed + summary.failed + summary.skipped);
}

#[test]
fn consume_failure_is_skipped_under_the_skip_policy() {
    let output: RefCell<Vec<u64>> = RefCell::new(Vec::new());
    let summary = run_sequential(
        vec![1u64, 2, 3],
        |x: u64| -> Result<u64, ()> { Ok(x * 2) },
        |r: u64| -> Result<(), ()> {
            if r == 4 {
                Err(())
            } else {
                output.borrow_mut().push(r);
                Ok(())
            }
        },
        |_: Summary| false,
        skipping(1, 1),
    )
    .unwrap();
    assert_eq!(summary.state, PipelineState::Completed);
    assert_eq!(*output.borrow(), vec![2, 6]);
    assert_eq!(summary.processed, 2);
    assert_eq!(summary.failed, 1);
    assert_eq!(summary.consume_failures, 1);
    assert_eq!(summary.transform_failures, 0);
    assert_eq!(summary.skipped, 0);
}

#[test]
fn consumed_count_is_chunks_minus_transform_failures() {
    let chunks: Vec<u64> = (0..100).collect();
    let seen: RefCell<Vec<u64>> = RefCell::new(Vec::new());
    let summary = run_sequential(
        chunks,
        |x: u64| -> Result<u64, ()> {
            if x % 7 == 3 {
                Err(())
            } else {
                Ok(x + 1000)
            }
        },
        |r: u64| -> Result<(), ()> {
            seen.borrow_mut().push(r);
            Ok(())
        },
        |_: Summary| false,
        skipping(3, 2),
    )
    .unwrap();
    let failures = (0..100u64).filter(|x| x % 7 == 3).count();
    assert_eq!(failures, 14);
    assert_eq!(seen.borrow().len(), 100 - failures);
    assert_eq!(summary.processed, 86);
    assert_eq!(summary.failed, 14);
    assert_eq!(summary.transform_failures, 14);
    assert_eq!(summary.processed + summary.consume_failures, 100 - summary.transform_failures);
    assert_eq!(summary.accepted, 100);
    assert_eq!(summary.state, PipelineState::Completed);
}

#[test]
fn results_arrive_in_source_order() {
    let chunks: Vec<u64> = vec![50, 10, 40, 20, 30, 60, 5];
    let seen: RefCell<Vec<u64>> = RefCell::new(Vec::new());
    let summary = run_sequential(
        chunks.clone(),
        |x: u64| -> Result<u64, ()> {
            if x == 40 {
                Err(())
            } else {
                Ok(x)
            }
        },
        |r: u64| -> Result<(), ()> {
            seen.borrow_mut().push(r);
            Ok(())
        },
        |_: Summary| false,
        skipping(2, 1),
    )
    .unwrap();
    assert_eq!(*seen.borrow(), vec![50, 10, 20, 30, 60, 5]);
    assert_eq!(summary.state, PipelineState::Completed);
}

#[test]
fn empty_source_completes_at_once() {
    let summary = run_sequential(
        Vec::<u64>::new(),
        |x: u64| -> Result<u64, ()> { Ok(x) },
        |_: u64| -> Result<(), ()> { Ok(()) },
        |_: Summary| false,
        Config::new(1, 1),
    )
    .unwrap();
    assert_eq!(
        summary,
        Summary {
            state: PipelineState::Completed,
            accepted: 0,
            processed: 0,
            skipped: 0,
            failed: 0,
            transform_failures: 0,
            consume_failures: 0,
            first_error: None,
        }
    );
}

#[test]
fn zero_capacity_is_rejected_before_anything_runs() {
    let called: RefCell<u32> = RefCell::new(0);
    let r = run_sequential(
        vec![1u64],
        |x: u64| -> Result<u64, ()> {
            *called.borrow_mut() += 1;
            Ok(x)
        },
        |_: u64| -> Result<(), ()> { Ok(()) },
        |_: Summary| false,
        Config::new(0, 1),
    );
    assert_eq!(r, Err(ConfigError::ZeroChunkCapacity));
    assert_eq!(*called.borrow(), 0);
    let r = run_sequential(
        vec![1u64],
        |x: u64| -> Result<u64, ()> { Ok(x) },
        |_: u64| -> Result<(), ()> { Ok(()) },
        |_: Summary| false,
        Config::new(5, 0),
    );
    assert_eq!(r, Err(ConfigError::ZeroResultCapacity));
}

#[test]
fn byte_chunks_become_text_results() {
    let written: RefCell<Vec<String>> = RefCell::new(Vec::new());
    let summary = run_sequential(
        vec![vec![104u8, 105], vec![], vec![111, 107]],
        |data: Vec<u8>| -> Result<String, ()> { String::from_utf8(data).map_err(|_| ()) },
        |text: String| -> Result<(), ()> {
            written.borrow_mut().push(text);
            Ok(())
        },
        |_: Summary| false,
        Config::new(1, 1),
    )
    .unwrap();
    assert_eq!(*written.borrow(), vec!["hi".to_string(), String::new(), "ok".to_string()]);
    assert_eq!(summary.processed, 3);
}
