use std::time::Duration;
use tonic_h3::load::{make_payload, ticket_sends, worker_count};
use tonic_h3::metrics::{sample_of_micros, Recorder, LATENCY_HIGH_US};

#[test]
fn successes_are_counted_with_their_latency() {
    let mut rec = Recorder::new();
    for _ in 0..1000 {
        rec.record_success(Duration::from_millis(1));
    }
    assert_eq!(rec.success(), 1000);
    assert_eq!(rec.failure(), 0);
    assert_eq!(rec.total(), 1000);
    assert!(rec.has_latencies());
    let h = &rec.histogram().hist;
    assert_eq!(h.len(), 1000);
    let p50 = h.value_at_quantile(0.50);
    assert!((900..=1100).contains(&p50), "p50 was {p50}");
}

#[test]
fn failures_add_no_latency() {
    let mut rec = Recorder::default();
    rec.record_failure();
    rec.record_failure();
    assert_eq!(rec.total(), 2);
    assert_eq!(rec.success(), 0);
    assert_eq!(rec.failure(), 2);
    assert!(!rec.has_latencies());
    assert_eq!(rec.histogram().hist.len(), 0);
}

#[test]
fn merged_recorders_add_counts_and_samples() {
    let mut a = Recorder::new();
    let mut b = Recorder::new();
    a.record_success(Duration::from_millis(1));
    b.record_success(Duration::from_millis(2));
    b.record_failure();
    a.merge(&b);
    assert_eq!(a.success(), 2);
    assert_eq!(a.failure(), 1);
    assert_eq!(a.total(), 3);
    assert_eq!(a.histogram().hist.len(), 2);
    let max = a.histogram().hist.max();
    assert!((1990..=2010).contains(&max), "max was {max}");
}

#[test]
fn latency_samples_are_saturated_and_at_least_one() {
    assert_eq!(sample_of_micros(0), 1);
    assert_eq!(sample_of_micros(1), 1);
    assert_eq!(sample_of_micros(1500), 1500);
    assert_eq!(sample_of_micros(u128::from(u64::MAX) + 7), u64::MAX);
}

#[test]
fn very_long_latencies_are_still_recorded() {
    let mut rec = Recorder::new();
    rec.record_success(Duration::from_secs(100_000));
    assert_eq!(rec.success(), 1);
    let h = &rec.histogram().hist;
    assert_eq!(h.len(), 1);
    assert!(h.max() >= LATENCY_HIGH_US);
}

#[test]
fn payload_pattern() {
    let p = make_payload(600);
    assert_eq!(p.len(), 600);
    assert_eq!(p[0], 0);
    assert_eq!(p[250], 250);
    assert_eq!(p[251], 0);
    assert_eq!(p[599], (599 % 251) as u8);
    assert!(make_payload(0).is_empty());
}

#[test]
fn at_least_one_worker() {
    assert_eq!(worker_count(0), 1);
    assert_eq!(worker_count(1), 1);
    assert_eq!(worker_count(16), 16);
}

#[test]
fn tickets_below_the_total_send() {
    assert!(ticket_sends(0, 3));
    assert!(ticket_sends(2, 3));
    assert!(!ticket_sends(3, 3));
    assert!(!ticket_sends(0, 0));
}

#[test]
fn merge_combines_counts() {
    let mut a = Recorder::new();
    let mut b = Recorder::new();
    a.record_success(Duration::from_millis(1));
    b.record_success(Duration::from_millis(2));
    b.record_failure();
    a.merge(&b);
    assert_eq!(a.success(), 2);
    assert_eq!(a.failure(), 1);
    assert_eq!(a.total(), 3);
}
