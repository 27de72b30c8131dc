use latency_bench::clock::{
    cap_micros, current_timestamp, elapsed_micros, rfc3339, text_or_empty, timestamp_of,
    timestamp_rfc3339,
};
use latency_bench::sampler::{sample, SampleRun};
use std::cell::Cell;
use std::time::{Duration, Instant};

fn spin(micros: u64) {
    let start = Instant::now();
    while start.elapsed() < Duration::from_micros(micros) {}
}

#[test]
fn infallible_operation_leaves_one_sample_per_iteration() {
    let calls = Cell::new(0u32);
    let run = sample(
        &|| {
            calls.set(calls.get() + 1);
            true
        },
        25,
    );
    assert_eq!(run.samples.len(), 25);
    assert_eq!(run.failed_iterations, 0);
    assert_eq!(calls.get(), 25);
}

#[test]
fn failing_operation_leaves_no_sample() {
    let calls = Cell::new(0u32);
    let run = sample(
        &|| {
            calls.set(calls.get() + 1);
            false
        },
        7,
    );
    assert_eq!(run.samples.len(), 0);
    assert_eq!(run.failed_iterations, 7);
    assert_eq!(calls.get(), 7);
}

#[test]
fn failed_iterations_are_skipped_and_the_run_goes_on() {
    let calls = Cell::new(0u32);
    let run = sample(
        &|| {
            calls.set(calls.get() + 1);
            calls.get() % 3 != 0
        },
        10,
    );
    assert_eq!(calls.get(), 10);
    assert_eq!(run.failed_iterations, 3);
    assert_eq!(run.samples.len(), 7);
}

#[test]
fn no_iterations_no_samples() {
    let run = sample(&|| true, 0);
    assert_eq!(run.samples.len(), 0);
    assert_eq!(run.failed_iterations, 0);
}

#[test]
fn samples_are_elapsed_microseconds() {
    let run = sample(
        &|| {
            spin(3000);
            true
        },
        4,
    );
    assert_eq!(run.samples.len(), 4);
    for micros in &run.samples {
        assert!(*micros >= 3000);
        assert!(*micros < 3_000_000);
    }
}

#[test]
fn elapsed_micros_grows_with_time() {
    let start = Instant::now();
    spin(2000);
    let first = elapsed_micros(&start);
    spin(2000);
    let second = elapsed_micros(&start);
    assert!(first >= 2000);
    assert!(second >= first + 2000);
}

#[test]
fn all_failed_run() {
    let run: SampleRun = SampleRun::all_failed(9);
    assert_eq!(run.samples.len(), 0);
    assert_eq!(run.failed_iterations, 9);
}

#[test]
fn timestamp_is_after_2020() {
    let now = current_timestamp();
    assert!(now > 1_577_836_800);
    assert!(now < 32_503_680_000);
}

#[test]
fn samples_are_capped_at_the_largest_value() {
    assert_eq!(cap_micros(0), 0);
    assert_eq!(cap_micros(1234), 1234);
    assert_eq!(cap_micros(u64::MAX as u128), u64::MAX);
    assert_eq!(cap_micros(u64::MAX as u128 + 1), u64::MAX);
    assert_eq!(cap_micros(u128::MAX), u64::MAX);
}

#[test]
fn a_clock_before_the_epoch_is_stamped_zero() {
    assert_eq!(timestamp_of(None), 0);
    assert_eq!(timestamp_of(Some(0)), 0);
    assert_eq!(timestamp_of(Some(1_700_000_000)), 1_700_000_000);
    assert_eq!(timestamp_of(Some(u64::MAX)), u64::MAX);
}

#[test]
fn times_are_written_as_rfc3339_in_utc() {
    assert_eq!(rfc3339(0, 0), "1970-01-01T00:00:00+00:00");
    assert_eq!(rfc3339(1_700_000_000, 0), "2023-11-14T22:13:20+00:00");
    assert_eq!(rfc3339(1_700_000_000, 500_000_000), "2023-11-14T22:13:20.500+00:00");
    assert_eq!(rfc3339(1_700_000_000, 123_456_789), "2023-11-14T22:13:20.123456789+00:00");
    assert_eq!(rfc3339(951_782_400, 1000), "2000-02-29T00:00:00.000001+00:00");
}

#[test]
fn a_time_without_a_date_has_no_text() {
    assert_eq!(rfc3339(u64::MAX, 0), "");
    assert_eq!(rfc3339(i64::MAX as u64, 0), "");
    assert_eq!(rfc3339(0, 2_000_000_000), "");
    assert_eq!(text_or_empty(None), "");
    assert_eq!(text_or_empty(Some("x".to_string())), "x");
}

#[test]
fn the_current_time_is_written_as_rfc3339() {
    let before = current_timestamp();
    let stamp = timestamp_rfc3339();
    let after = current_timestamp();
    assert!(stamp.ends_with("+00:00"));
    assert_eq!(&stamp[4..5], "-");
    assert_eq!(&stamp[10..11], "T");
    let whole = [rfc3339(before, 0), rfc3339(after, 0), rfc3339(before + 1, 0)];
    assert!(whole.iter().any(|second| stamp[..19] == second[..19]));
}
