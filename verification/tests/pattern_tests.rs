use bounded_pipeline::cli::CliArgs;
use bounded_pipeline::config::{Config, ConfigError, ErrorPolicy};
use bounded_pipeline::kinds::Kinds;
use bounded_pipeline::person::Person;
use bounded_pipeline::plane::{Plane, PlaneState};
use bounded_pipeline::query::{DataService, DataSource, EmptyDataOptions};
use bounded_pipeline::search::binary_search;
use bounded_pipeline::source::get_data;
use bounded_pipeline::state::PipelineState;
use bounded_pipeline::threshold::above;
use bounded_pipeline::timestamp::parse_time;
use bounded_pipeline::typed_plane;
use bounded_pipeline::window::{
    sum_next_three, sum_next_three_assert_no_const, sum_next_three_optimized,
};
use bounded_pipeline::worker::{run, Proc};

#[test]
fn exhaustive_pattern_test_all() {
    let all = Kinds::all();
    // This will pass if we forget to extend all function with the new item
    assert_eq!(all, &[Kinds::First, Kinds::Second, Kinds::Third])
}

#[test]
fn test_inputs() {
    assert_eq!(parse_time("01:20:30"), Some((1, 20, 30)));
    assert!(parse_time("012020").is_none());
    assert!(parse_time("").is_none());
    assert!(parse_time("another input").is_none());
}

#[test]
fn test_none_ascii() {
    // How about none-ASCII characters?
    assert!(parse_time("Aௗ-1a0").is_none());
}

#[test]
fn every_two_digit_field_is_read() {
    assert_eq!(parse_time("00:00:00"), Some((0, 0, 0)));
    assert_eq!(parse_time("23:59:59"), Some((23, 59, 59)));
    assert_eq!(parse_time("99:99:99"), Some((99, 99, 99)));
    assert_eq!(parse_time("10:07:90"), Some((10, 7, 90)));
}

#[test]
fn a_plus_sign_may_stand_for_the_first_digit() {
    assert_eq!(parse_time("+1:+2:+3"), Some((1, 2, 3)));
    assert_eq!(parse_time("-1:02:03"), None);
    assert_eq!(parse_time("1+:02:03"), None);
    assert_eq!(parse_time("++:02:03"), None);
}

#[test]
fn malformed_times_are_refused() {
    assert_eq!(parse_time("01-20-30"), None);
    assert_eq!(parse_time("01:20:3"), None);
    assert_eq!(parse_time("01:20:300"), None);
    assert_eq!(parse_time("0a:20:30"), None);
    assert_eq!(parse_time("01:2 :30"), None);
    assert_eq!(parse_time("01:20.30"), None);
    assert_eq!(parse_time(" 1:20:30"), None);
    assert_eq!(parse_time("ab:cd:é"), None);
    assert_eq!(parse_time("é:12:345"), None);
}

#[test]
fn window_sums_agree() {
    let nums = [5, 1, 2, 3, 4, -10, 7];
    for idx in 0..4usize {
        let expected = nums[idx + 1] + nums[idx + 2] + nums[idx + 3];
        assert_eq!(sum_next_three(idx, &nums), expected);
        assert_eq!(sum_next_three_assert_no_const(idx, &nums), expected);
        assert_eq!(sum_next_three_optimized(idx, &nums), expected);
    }
    assert_eq!(sum_next_three(0, &nums), 6);
    assert_eq!(sum_next_three_optimized(3, &nums), 1);
}

#[test]
fn window_sum_may_pass_through_a_large_partial_sum() {
    let nums = [0, i32::MAX, 1, -2];
    assert_eq!(sum_next_three(0, &nums), i32::MAX - 1);
    assert_eq!(sum_next_three_assert_no_const(0, &nums), i32::MAX - 1);
    assert_eq!(sum_next_three_optimized(0, &nums), i32::MAX - 1);
}

#[test]
fn plane_takes_off_and_lands() {
    let mut plane = Plane::new(16);
    assert_eq!(plane.state(), PlaneState::OnGround);
    assert_eq!(plane.get_seats_count(), 16);
    plane.take_off();
    assert_eq!(plane.state(), PlaneState::InFlight);
    assert_eq!(plane.get_seats_count(), 16);
    plane.land();
    assert_eq!(plane.state(), PlaneState::OnGround);
    assert_eq!(plane.get_seats_count(), 16);
}

#[test]
fn typed_plane_keeps_its_seats() {
    let plane: typed_plane::Plane<typed_plane::OnGround> = typed_plane::Plane::new(16);
    let plane: typed_plane::Plane<typed_plane::InFlight> = plane.take_off();
    assert_eq!(plane.get_seats_count(), 16);
    let plane: typed_plane::Plane<typed_plane::OnGround> = plane.land();
    assert_eq!(plane.get_seats_count(), 16);
}

fn args(interval: u64) -> CliArgs {
    CliArgs {
        input: "input.txt".to_string(),
        interval,
        separator: ",".to_string(),
        custom_name: None,
    }
}

#[test]
fn cli_args_are_validated_in_order() {
    assert_eq!(args(5).validate(true), Ok(()));
    assert_eq!(args(5).validate(false), Err("Input doesn't exist"));
    assert_eq!(args(0).validate(true), Err("Interval must be positive"));
    assert_eq!(args(0).validate(false), Err("Input doesn't exist"));
    assert_eq!(args(u64::MAX).validate(true), Ok(()));
}

fn person(first: &str, last: &str, age: u16, height: u32) -> Person {
    Person { first_name: first.to_string(), last_name: last.to_string(), age, height }
}

#[test]
fn persons_are_compared_by_name_only() {
    assert!(person("Ada", "Lovelace", 36, 1650) == person("Ada", "Lovelace", 20, 1700));
    assert!(person("Ada", "Lovelace", 36, 1650) != person("Ada", "Byron", 36, 1650));
    assert!(person("Ada", "Lovelace", 36, 1650) != person("Augusta", "Lovelace", 36, 1650));
}

#[test]
fn query_reads_the_chosen_source() {
    let service = DataService::new(
        vec![vec![1], vec![], vec![2, 3], vec![]],
        vec![vec![], vec![9]],
    );
    assert_eq!(
        service.query_data(DataSource::Cache, EmptyDataOptions::Keep),
        vec![vec![1], vec![], vec![2, 3], vec![]]
    );
    assert_eq!(
        service.query_data(DataSource::Cache, EmptyDataOptions::Ignore),
        vec![vec![1], vec![2, 3]]
    );
    assert_eq!(
        service.query_data(DataSource::ApiService, EmptyDataOptions::Keep),
        vec![vec![], vec![9]]
    );
    assert_eq!(
        service.query_data(DataSource::ApiService, EmptyDataOptions::Ignore),
        vec![vec![9u8]]
    );
    let empty = DataService::new(vec![], vec![vec![]]);
    assert!(empty.query_data(DataSource::Cache, EmptyDataOptions::Keep).is_empty());
    assert!(empty.query_data(DataSource::ApiService, EmptyDataOptions::Ignore).is_empty());
}

#[test]
fn binary_search_finds_or_gives_the_insertion_point() {
    let items = [1u64, 3, 5, 7, 9];
    assert_eq!(binary_search(&items, 1), Ok(0));
    assert_eq!(binary_search(&items, 5), Ok(2));
    assert_eq!(binary_search(&items, 9), Ok(4));
    assert_eq!(binary_search(&items, 0), Err(0));
    assert_eq!(binary_search(&items, 4), Err(2));
    assert_eq!(binary_search(&items, 10), Err(5));
    assert_eq!(binary_search(&[], 10), Err(0));
    let found = binary_search(&[2, 2, 2], 2);
    assert!(matches!(found, Ok(i) if i < 3));
}

#[test]
fn binary_search_works_on_any_ordered_type() {
    let words = ["apple", "cherry", "plum"];
    assert_eq!(binary_search(&words, "cherry"), Ok(1));
    assert_eq!(binary_search(&words, "banana"), Err(1));
    assert_eq!(binary_search(&words, "zebra"), Err(3));
    let pairs = [(1, 'a'), (1, 'c'), (2, 'a')];
    assert_eq!(binary_search(&pairs, (1, 'b')), Err(1));
    assert_eq!(binary_search(&pairs, (2, 'a')), Ok(2));
    assert_eq!(binary_search(&[-5i64, -1, 0, 8], -1), Ok(1));
}

#[test]
fn counting_source_emits_fifty_blank_chunks() {
    let mut counter = 0u32;
    let mut chunks = 0;
    while let Some(data) = get_data(&mut counter) {
        assert_eq!(data, vec![0u8; 1024]);
        chunks += 1;
    }
    assert_eq!(chunks, 50);
    assert_eq!(counter, 50);
    assert_eq!(get_data(&mut counter), None);
    assert_eq!(counter, 50);
    let mut late = 77u32;
    assert_eq!(get_data(&mut late), None);
    assert_eq!(late, 77);
}

#[test]
fn worker_makes_two_items_of_every_chunk() {
    let worker = Proc::create();
    assert_eq!(worker.process(&[0; 4]), vec!["item1".to_string(), "item2".to_string()]);
    let mut counter = 0u32;
    assert_eq!(run(&mut counter), 100);
    assert_eq!(counter, 50);
    let mut counter = 48u32;
    assert_eq!(run(&mut counter), 4);
    assert_eq!(counter, 50);
    let mut counter = 60u32;
    assert_eq!(run(&mut counter), 0);
    assert_eq!(counter, 60);
}

#[test]
fn config_is_validated() {
    assert_eq!(Config::new(1, 1).validate(), Ok(()));
    assert_eq!(Config::new(0, 1).validate(), Err(ConfigError::ZeroChunkCapacity));
    assert_eq!(Config::new(1, 0).validate(), Err(ConfigError::ZeroResultCapacity));
    assert_eq!(Config::new(0, 0).validate(), Err(ConfigError::ZeroChunkCapacity));
    let config = Config::new(3, 4);
    assert_eq!(config.chunk_capacity, 3);
    assert_eq!(config.result_capacity, 4);
    assert_eq!(config.on_transform_error, ErrorPolicy::Abort);
    assert_eq!(config.on_consume_error, ErrorPolicy::Abort);
    assert_eq!(config.with_transform_policy(ErrorPolicy::Skip).on_transform_error, ErrorPolicy::Skip);
    assert_eq!(config.with_consume_policy(ErrorPolicy::Skip).on_consume_error, ErrorPolicy::Skip);
}

#[test]
fn only_completed_and_aborted_are_terminal() {
    assert!(PipelineState::Completed.is_terminal());
    assert!(PipelineState::Aborted.is_terminal());
    assert!(!PipelineState::Idle.is_terminal());
    assert!(!PipelineState::Running.is_terminal());
    assert!(!PipelineState::Draining.is_terminal());
    assert!(!PipelineState::Aborting.is_terminal());
}

#[test]
fn above_keeps_the_larger_numbers_in_order() {
    assert_eq!(above(&[50001, 3, 50000, 70000, 0], 50000), vec![50001, 70000]);
    assert_eq!(above(&[1, 2, 3], 0), vec![1, 2, 3]);
    assert_eq!(above(&[1, 2, 3], 3), Vec::<usize>::new());
    assert_eq!(above(&[], 3), Vec::<usize>::new());
    assert_eq!(above(&[usize::MAX], usize::MAX), Vec::<usize>::new());
}
