use bounded_pipeline::config::{Config, ErrorPolicy};
use bounded_pipeline::pipeline::Pipeline;
use bounded_pipeline::runner::{load, process, write_results};
use bounded_pipeline::source::ChunkSource;
use bounded_pipeline::state::{
    Offer, Outcome, PipelineError, PipelineState, SourceAction, Summary, Turn, Work,
};
use std::cell::RefCell;

fn started(config: Config) -> Pipeline<u64, u64> {
    let mut p = Pipeline::new(config).ok().unwrap();
    assert!(p.start());
    p
}

fn expect_item(work: Work<u64>) -> (u64, u64) {
    match work {
        Work::Item(id, value) => (id, value),
        Work::Wait => panic!("expected an item, was told to wait"),
        Work::Exit => panic!("expected an item, was told to exit"),
    }
}

fn is_wait(work: &Work<u64>) -> bool {
    matches!(work, Work::Wait)
}

fn is_exit(work: &Work<u64>) -> bool {
    matches!(work, Work::Exit)
}

#[test]
fn lifecycle_idle_running_draining_completed() {
    let mut p: Pipeline<u64, u64> = Pipeline::new(Config::new(2, 2)).ok().unwrap();
    assert_eq!(p.state(), PipelineState::Idle);
    assert!(p.start());
    assert_eq!(p.state(), PipelineState::Running);
    assert!(!p.start());
    assert_eq!(p.source_poll(), SourceAction::Pull);
    assert!(matches!(p.source_offer(Some(1)), Offer::Accepted(0)));
    assert!(matches!(p.source_offer(None), Offer::Finished));
    assert_eq!(p.state(), PipelineState::Draining);
    assert_eq!(p.source_poll(), SourceAction::Exit);
    assert_eq!(expect_item(p.transformer_poll()), (0, 1));
    assert_eq!(p.transform_succeeded(2), Outcome::Forwarded(0));
    assert!(is_exit(&p.transformer_poll()));
    assert_eq!(p.state(), PipelineState::Draining);
    assert_eq!(expect_item(p.sink_poll()), (0, 2));
    assert_eq!(p.consume_succeeded(), Outcome::Processed(0));
    assert!(is_exit(&p.sink_poll()));
    assert_eq!(p.state(), PipelineState::Completed);
    assert!(p.is_terminal());
    assert_eq!(
        p.summary(),
        Summary {
            state: PipelineState::Completed,
            accepted: 1,
            processed: 1,
            skipped: 0,
            failed: 0,
            transform_failures: 0,
            consume_failures: 0,
            first_error: None,
        }
    );
}

#[test]
fn idle_pipeline_takes_no_input() {
    let mut p: Pipeline<u64, u64> = Pipeline::new(Config::new(2, 2)).ok().unwrap();
    assert_eq!(p.source_poll(), SourceAction::Exit);
    assert!(matches!(p.source_offer(Some(9)), Offer::Rejected(Some(9))));
    assert!(matches!(p.source_offer(None), Offer::Rejected(None)));
    assert!(is_exit(&p.transformer_poll()));
    assert!(is_exit(&p.sink_poll()));
    assert_eq!(p.state(), PipelineState::Idle);
    assert_eq!(p.accepted(), 0);
}

#[test]
fn full_chunk_channel_makes_the_source_wait() {
    let mut p = started(Config::new(2, 1));
    assert!(matches!(p.source_offer(Some(10)), Offer::Accepted(0)));
    assert!(matches!(p.source_offer(Some(11)), Offer::Accepted(1)));
    assert_eq!(p.source_poll(), SourceAction::Wait);
    assert!(matches!(p.source_offer(Some(12)), Offer::Full(12)));
    assert_eq!(p.accepted(), 2);
    assert_eq!(expect_item(p.transformer_poll()), (0, 10));
    assert_eq!(p.source_poll(), SourceAction::Pull);
    assert!(matches!(p.source_offer(Some(12)), Offer::Accepted(2)));
}

#[test]
fn full_result_channel_makes_the_transformer_wait() {
    let mut p = started(Config::new(3, 1));
    for x in [10u64, 11, 12] {
        assert!(matches!(p.source_offer(Some(x)), Offer::Accepted(_)));
    }
    assert_eq!(expect_item(p.transformer_poll()), (0, 10));
    assert!(is_wait(&p.transformer_poll()));
    assert_eq!(p.transform_succeeded(100), Outcome::Forwarded(0));
    assert!(is_wait(&p.transformer_poll()));
    assert_eq!(expect_item(p.sink_poll()), (0, 100));
    assert_eq!(expect_item(p.transformer_poll()), (1, 11));
}

#[test]
fn empty_open_channels_make_consumers_wait() {
    let mut p = started(Config::new(1, 1));
    assert!(is_wait(&p.transformer_poll()));
    assert!(is_wait(&p.sink_poll()));
    assert_eq!(p.state(), PipelineState::Running);
}

#[test]
fn reports_without_an_item_are_ignored() {
    let mut p = started(Config::new(1, 1));
    assert_eq!(p.transform_succeeded(1), Outcome::Idle);
    assert_eq!(p.transform_failed(), Outcome::Idle);
    assert_eq!(p.consume_succeeded(), Outcome::Idle);
    assert_eq!(p.consume_failed(), Outcome::Idle);
    let s = p.summary();
    assert_eq!((s.accepted, s.processed, s.failed, s.skipped), (0, 0, 0, 0));
    assert_eq!(s.state, PipelineState::Running);
}

#[test]
fn stop_on_terminal_pipeline_is_a_no_op() {
    let mut p = started(Config::new(1, 1));
    assert!(matches!(p.source_offer(None), Offer::Finished));
    assert!(is_exit(&p.transformer_poll()));
    assert!(is_exit(&p.sink_poll()));
    assert_eq!(p.state(), PipelineState::Completed);
    let before = p.summary();
    assert_eq!(p.stop(), PipelineState::Completed);
    assert_eq!(p.stop(), PipelineState::Completed);
    assert_eq!(p.summary(), before);

    let mut q = started(Config::new(1, 1));
    assert_eq!(q.stop(), PipelineState::Aborting);
    assert_eq!(q.source_poll(), SourceAction::Exit);
    assert!(is_exit(&q.transformer_poll()));
    assert!(is_exit(&q.sink_poll()));
    assert_eq!(q.state(), PipelineState::Aborted);
    let before = q.summary();
    assert_eq!(q.stop(), PipelineState::Aborted);
    assert_eq!(q.summary(), before);
    assert_eq!(before.first_error, Some(PipelineError::Cancelled));
}

#[test]
fn stop_before_start_aborts_at_once() {
    let mut p: Pipeline<u64, u64> = Pipeline::new(Config::new(1, 1)).ok().unwrap();
    assert_eq!(p.stop(), PipelineState::Aborted);
    assert!(!p.start());
    assert_eq!(p.state(), PipelineState::Aborted);
    assert_eq!(p.first_error(), Some(PipelineError::Cancelled));
}

#[test]
fn stop_discards_queued_items_and_rejects_new_ones() {
    let mut p = started(Config::new(4, 4));
    for x in [1u64, 2, 3, 4] {
        assert!(matches!(p.source_offer(Some(x)), Offer::Accepted(_)));
    }
    assert_eq!(expect_item(p.transformer_poll()), (0, 1));
    assert_eq!(p.transform_succeeded(2), Outcome::Forwarded(0));
    assert_eq!(expect_item(p.transformer_poll()), (1, 2));
    assert_eq!(expect_item(p.sink_poll()), (0, 2));
    assert_eq!(p.transform_succeeded(4), Outcome::Forwarded(1));
    // Queued: chunks 2 and 3, result 1. Held by the sink: result 0.
    assert_eq!(p.stop(), PipelineState::Aborting);
    assert_eq!(p.summary().skipped, 3);
    assert!(matches!(p.source_offer(Some(5)), Offer::Rejected(Some(5))));
    assert_eq!(p.accepted(), 4);
    assert_eq!(p.source_poll(), SourceAction::Exit);
    assert!(is_exit(&p.transformer_poll()));
    // The sink still holds its item: it cannot acknowledge yet.
    assert!(is_wait(&p.sink_poll()));
    assert_eq!(p.state(), PipelineState::Aborting);
    assert_eq!(p.consume_succeeded(), Outcome::Processed(0));
    assert!(is_exit(&p.sink_poll()));
    assert_eq!(p.state(), PipelineState::Aborted);
    assert_eq!(
        p.summary(),
        Summary {
            state: PipelineState::Aborted,
            accepted: 4,
            processed: 1,
            skipped: 3,
            failed: 0,
            transform_failures: 0,
            consume_failures: 0,
            first_error: Some(PipelineError::Cancelled),
        }
    );
}

#[test]
fn result_reported_while_stopping_is_discarded() {
    let mut p = started(Config::new(2, 2));
    assert!(matches!(p.source_offer(Some(1)), Offer::Accepted(0)));
    assert_eq!(expect_item(p.transformer_poll()), (0, 1));
    assert_eq!(p.stop(), PipelineState::Aborting);
    assert!(is_wait(&p.transformer_poll()));
    assert_eq!(p.transform_succeeded(2), Outcome::Discarded(0));
    assert!(is_exit(&p.transformer_poll()));
    assert!(is_exit(&p.sink_poll()));
    assert_eq!(p.source_poll(), SourceAction::Exit);
    assert_eq!(p.state(), PipelineState::Aborted);
    let s = p.summary();
    assert_eq!((s.accepted, s.processed, s.failed, s.skipped), (1, 0, 0, 1));
}

#[test]
fn source_failure_is_fatal() {
    let mut p = started(Config::new(2, 2));
    assert!(matches!(p.source_offer(Some(1)), Offer::Accepted(0)));
    assert!(matches!(p.source_offer(Some(2)), Offer::Accepted(1)));
    p.source_failed();
    assert_eq!(p.state(), PipelineState::Aborting);
    assert_eq!(p.first_error(), Some(PipelineError::Source { item: 2 }));
    assert_eq!(p.summary().skipped, 2);
    // A later stop does not replace the first cause.
    assert_eq!(p.stop(), PipelineState::Aborting);
    assert_eq!(p.first_error(), Some(PipelineError::Source { item: 2 }));
}

#[test]
fn first_fatal_error_is_kept() {
    let mut p = started(Config::new(2, 2));
    assert!(matches!(p.source_offer(Some(1)), Offer::Accepted(0)));
    assert!(matches!(p.source_offer(Some(2)), Offer::Accepted(1)));
    assert_eq!(expect_item(p.transformer_poll()), (0, 1));
    assert_eq!(p.transform_succeeded(10), Outcome::Forwarded(0));
    assert_eq!(expect_item(p.sink_poll()), (0, 10));
    assert_eq!(expect_item(p.transformer_poll()), (1, 2));
    assert_eq!(p.consume_failed(), Outcome::Fatal(0));
    assert_eq!(p.transform_failed(), Outcome::Fatal(1));
    assert_eq!(p.first_error(), Some(PipelineError::Consume { item: 0 }));
    let s = p.summary();
    assert_eq!((s.accepted, s.processed, s.failed, s.skipped), (2, 0, 2, 0));
}

#[test]
fn skip_policy_keeps_running_after_failures() {
    let config = Config::new(2, 2)
        .with_transform_policy(ErrorPolicy::Skip)
        .with_consume_policy(ErrorPolicy::Skip);
    let mut p = started(config);
    assert_eq!(p.config(), config);
    assert!(matches!(p.source_offer(Some(1)), Offer::Accepted(0)));
    assert!(matches!(p.source_offer(Some(2)), Offer::Accepted(1)));
    assert_eq!(expect_item(p.transformer_poll()), (0, 1));
    assert_eq!(p.transform_failed(), Outcome::Skipped(0));
    assert_eq!(expect_item(p.transformer_poll()), (1, 2));
    assert_eq!(p.transform_succeeded(20), Outcome::Forwarded(1));
    assert_eq!(expect_item(p.sink_poll()), (1, 20));
    assert_eq!(p.consume_failed(), Outcome::Skipped(1));
    assert_eq!(p.state(), PipelineState::Running);
    assert_eq!(p.first_error(), None);
    assert_eq!(p.summary().failed, 2);
    assert_eq!(p.summary().transform_failures, 1);
    assert_eq!(p.summary().consume_failures, 1);
}

#[test]
fn driver_turns_move_one_item_through() {
    let mut p = started(Config::new(1, 1));
    let mut source = ChunkSource::from_vec(vec![7u64]);
    assert_eq!(source.remaining(), 1);
    let out: RefCell<Vec<u64>> = RefCell::new(Vec::new());
    let transform = |x: u64| -> Result<u64, ()> { Ok(x * 3) };
    let consume = |r: u64| -> Result<(), ()> {
        out.borrow_mut().push(r);
        Ok(())
    };
    assert_eq!(process(&mut p, &transform), Turn::Waited);
    assert_eq!(write_results(&mut p, &consume), Turn::Waited);
    assert_eq!(load(&mut p, &mut source), SourceAction::Pull);
    assert_eq!(source.remaining(), 0);
    assert_eq!(load(&mut p, &mut source), SourceAction::Wait);
    assert_eq!(process(&mut p, &transform), Turn::Worked(Outcome::Forwarded(0)));
    assert_eq!(load(&mut p, &mut source), SourceAction::Pull);
    assert_eq!(p.state(), PipelineState::Draining);
    assert_eq!(load(&mut p, &mut source), SourceAction::Exit);
    assert_eq!(process(&mut p, &transform), Turn::Exited);
    assert_eq!(write_results(&mut p, &consume), Turn::Worked(Outcome::Processed(0)));
    assert_eq!(write_results(&mut p, &consume), Turn::Exited);
    assert_eq!(p.state(), PipelineState::Completed);
    assert_eq!(*out.borrow(), vec![21]);
}

#[test]
fn chunk_source_yields_in_order_then_ends() {
    let mut source = ChunkSource::from_vec(vec![3u8, 1, 2]);
    assert_eq!(source.remaining(), 3);
    assert_eq!(source.next_chunk(), Some(3));
    assert_eq!(source.next_chunk(), Some(1));
    assert_eq!(source.next_chunk(), Some(2));
    assert_eq!(source.next_chunk(), None);
    assert_eq!(source.next_chunk(), None);
    assert_eq!(source.remaining(), 0);
}

#[test]
fn stop_after_the_first_chunk_leaves_at_most_one_output() {
    let mut p = started(Config::new(2, 2));
    let mut output: Vec<u64> = Vec::new();
    for x in [1u64, 2] {
        assert!(matches!(p.source_offer(Some(x)), Offer::Accepted(_)));
    }
    let (_, chunk) = expect_item(p.transformer_poll());
    assert_eq!(p.transform_succeeded(chunk * 2), Outcome::Forwarded(0));
    let (_, result) = expect_item(p.sink_poll());
    output.push(result);
    assert_eq!(p.consume_succeeded(), Outcome::Processed(0));
    assert_eq!(p.stop(), PipelineState::Aborting);
    assert!(matches!(p.source_offer(Some(3)), Offer::Rejected(Some(3))));
    assert_eq!(p.source_poll(), SourceAction::Exit);
    assert!(is_exit(&p.transformer_poll()));
    assert!(is_exit(&p.sink_poll()));
    assert_eq!(p.state(), PipelineState::Aborted);
    assert!(output.len() <= 1);
    assert_eq!(output, vec![2]);
    let s = p.summary();
    assert_eq!((s.accepted, s.processed, s.failed, s.skipped), (2, 1, 0, 1));
}

#[test]
fn channels_never_hold_more_than_their_capacity() {
    let mut p = started(Config::new(2, 1));
    let mut accepted = 0;
    for x in 0..10u64 {
        if let Offer::Accepted(_) = p.source_offer(Some(x)) {
            accepted += 1;
        }
    }
    assert_eq!(accepted, 2);
    let mut handed = 0;
    for _ in 0..10 {
        if let Work::Item(_, chunk) = p.transformer_poll() {
            handed += 1;
            assert_eq!(p.transform_succeeded(chunk), Outcome::Forwarded(handed - 1));
        }
    }
    assert_eq!(handed, 1);
}
