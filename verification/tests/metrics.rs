use task_executor::metrics::{Histogram, Metrics};

#[test]
fn histogram_starts_empty_with_eleven_bounds() {
    let histogram = Histogram::new();
    assert_eq!(histogram.count(), 0);
    assert_eq!(histogram.sum(), 0);
    assert_eq!(
        histogram.bounds(),
        &vec![5u64, 10, 25, 50, 100, 250, 500, 1000, 2500, 5000, 10000]
    );
    assert_eq!(histogram.buckets(), &vec![0u64; 12]);
}

#[test]
fn histogram_puts_a_value_into_the_first_bucket_that_holds_it() {
    let mut histogram = Histogram::new();
    histogram.observe(0);
    histogram.observe(5);
    histogram.observe(6);
    histogram.observe(250);
    histogram.observe(10000);
    histogram.observe(10001);
    assert_eq!(histogram.buckets(), &vec![2u64, 1, 0, 0, 0, 1, 0, 0, 0, 0, 1, 1]);
    assert_eq!(histogram.count(), 6);
    assert_eq!(histogram.sum(), 0 + 5 + 6 + 250 + 10000 + 10001);
}

#[test]
fn histogram_sum_stops_at_the_maximum() {
    let mut histogram = Histogram::new();
    histogram.observe(u64::MAX);
    histogram.observe(3);
    assert_eq!(histogram.sum(), u64::MAX);
    assert_eq!(histogram.count(), 2);
    assert_eq!(histogram.buckets()[11], 1);
    assert_eq!(histogram.buckets()[0], 1);
}

#[test]
fn new_registry_is_empty() {
    let metrics = Metrics::new(4);
    assert_eq!(metrics.len(), 0);
    assert_eq!(metrics.limit(), 4);
    assert!(!metrics.tracks("a"));
    assert_eq!(metrics.async_tasks("a"), 0);
    assert_eq!(metrics.blocking_tasks("a"), 0);
    assert!(metrics.blocking_durations("a").is_none());
}

#[test]
fn track_registers_a_name_once() {
    let mut metrics = Metrics::new(4);
    assert!(metrics.track("a"));
    assert!(metrics.track("a"));
    assert!(metrics.track("b"));
    assert_eq!(metrics.len(), 2);
    assert!(metrics.tracks("a"));
    assert!(metrics.tracks("b"));
    assert!(!metrics.tracks("c"));
}

#[test]
fn track_refuses_a_new_name_when_the_registry_is_full() {
    let mut metrics = Metrics::new(1);
    assert!(metrics.track("a"));
    assert!(!metrics.track("b"));
    assert!(metrics.track("a"));
    assert_eq!(metrics.len(), 1);
    assert!(!metrics.tracks("b"));
}

#[test]
fn registry_without_room_registers_nothing() {
    let mut metrics = Metrics::new(0);
    assert!(!metrics.track("a"));
    metrics.inc_async("a");
    metrics.inc_blocking("a");
    metrics.observe_blocking("a", 9);
    assert_eq!(metrics.len(), 0);
    assert_eq!(metrics.async_tasks("a"), 0);
    assert_eq!(metrics.blocking_tasks("a"), 0);
}

#[test]
fn gauges_of_one_name_do_not_touch_another() {
    let mut metrics = Metrics::new(4);
    metrics.track("a");
    metrics.track("b");
    metrics.inc_async("a");
    metrics.inc_async("a");
    metrics.inc_blocking("b");
    assert_eq!(metrics.async_tasks("a"), 2);
    assert_eq!(metrics.blocking_tasks("a"), 0);
    assert_eq!(metrics.async_tasks("b"), 0);
    assert_eq!(metrics.blocking_tasks("b"), 1);
    metrics.dec_async("a");
    metrics.dec_blocking("b");
    assert_eq!(metrics.async_tasks("a"), 1);
    assert_eq!(metrics.blocking_tasks("b"), 0);
}

#[test]
fn gauge_may_go_below_zero_and_come_back() {
    let mut metrics = Metrics::new(1);
    metrics.track("a");
    metrics.dec_async("a");
    assert_eq!(metrics.async_tasks("a"), -1);
    metrics.inc_async("a");
    assert_eq!(metrics.async_tasks("a"), 0);
}

#[test]
fn counting_an_unknown_name_changes_nothing() {
    let mut metrics = Metrics::new(4);
    metrics.track("a");
    metrics.inc_async("zz");
    metrics.dec_blocking("zz");
    metrics.observe_blocking("zz", 7);
    assert_eq!(metrics.len(), 1);
    assert!(!metrics.tracks("zz"));
    assert_eq!(metrics.async_tasks("a"), 0);
}

#[test]
fn observed_durations_are_kept_per_name() {
    let mut metrics = Metrics::new(4);
    metrics.track("a");
    metrics.track("b");
    metrics.observe_blocking("a", 30);
    metrics.observe_blocking("a", 70);
    let a = metrics.blocking_durations("a").unwrap();
    assert_eq!(a.count(), 2);
    assert_eq!(a.sum(), 100);
    assert_eq!(a.buckets()[3], 1);
    assert_eq!(a.buckets()[4], 1);
    let b = metrics.blocking_durations("b").unwrap();
    assert_eq!(b.count(), 0);
    assert_eq!(b.sum(), 0);
}

#[test]
fn names_differ_by_every_character() {
    let mut metrics = Metrics::new(4);
    metrics.track("sync");
    metrics.inc_async("sync");
    assert_eq!(metrics.async_tasks("sync"), 1);
    assert_eq!(metrics.async_tasks("Sync"), 0);
    assert_eq!(metrics.async_tasks("sync "), 0);
    assert_eq!(metrics.async_tasks(""), 0);
}
