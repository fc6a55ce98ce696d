use std::sync::Arc;
use std::time::Duration;

use quanta::Clock;

use budgeting::config::{BudgetingConfig, Timer};
use budgeting::stats::ProjectStats;

fn nanos(d: Duration) -> u64 {
    d.as_nanos() as u64
}

#[test]
fn test_budgeting() {
    let (clock, mock) = Clock::mock();
    mock.increment(Duration::from_secs(100));

    let config = BudgetingConfig::new(
        nanos(Duration::from_secs(10)),
        nanos(Duration::from_secs(5)),
        nanos(Duration::from_secs(1)),
        100,
    )
    .with_timer(Timer::new(clock.clone()));

    let mut stats = ProjectStats::new(Arc::new(config));

    stats.record_budget_spend(40);
    let is_blocked = stats.record_budget_spend(10);
    assert!(!is_blocked);

    mock.increment(Duration::from_millis(1500));

    let is_blocked = stats.record_budget_spend(45);
    assert!(!is_blocked);

    mock.increment(Duration::from_millis(750));

    let is_blocked = stats.record_budget_spend(10);
    assert!(is_blocked);

    mock.increment(Duration::from_secs(6));

    // The budgeting window itself is already passed, but we are in backoff
    assert!(stats.exceeds_budget());

    mock.increment(Duration::from_secs(3));

    // The budgeting window itself is already passed, but we are in backoff
    assert!(stats.exceeds_budget());

    mock.increment(Duration::from_secs(2));

    // the backoff deadline has passed, we are unblocked
    assert!(!stats.exceeds_budget());

    // after *another* backoff, these stats are stale
    let now = clock.delta_as_nanos(0, clock.raw());
    assert!(!stats.is_stale(now));
}

#[test]
fn timer_follows_the_clock() {
    let (clock, mock) = Clock::mock();
    mock.increment(Duration::from_secs(5));
    let timer = Timer::new(clock);
    assert_eq!(timer.now_nanos(), 5_000_000_000);
}

#[test]
fn config_derives_bucket_capacity() {
    let c = BudgetingConfig::new(10_000, 5_000, 1_000, 100);
    assert_eq!(c.num_buckets, 2);
    let c = BudgetingConfig::new(11_000, 5_000, 1_000, 100);
    assert_eq!(c.num_buckets, 3);
    // an empty window still keeps one bucket
    let c = BudgetingConfig::new(0, 5_000, 1_000, 100);
    assert_eq!(c.num_buckets, 1);
    // a zero bucket width is clamped to one nanosecond
    let c = BudgetingConfig::new(10, 0, 1_000, 100);
    assert_eq!(c.bucket_width, 1);
    assert_eq!(c.num_buckets, 10);
}

#[test]
fn truncation_rounds_to_the_nearest_cell() {
    let c = BudgetingConfig::new(10_000, 5_000, 1_000, 100);
    assert_eq!(c.truncate(0), 0);
    assert_eq!(c.truncate(2_499), 0);
    assert_eq!(c.truncate(2_500), 5_000);
    assert_eq!(c.truncate(5_000), 5_000);
    assert_eq!(c.truncate(7_400), 5_000);
    assert_eq!(c.truncate(7_500), 10_000);
}

#[test]
fn threshold_is_strict() {
    let config = BudgetingConfig::new(10_000, 1_000, 1_000, 100);
    let mut stats = ProjectStats::new(Arc::new(config));
    // a windowed sum exactly at the allowed budget does not exceed it
    assert!(!stats.record_budget_spend_at(5_000, 100));
    // one unit above does
    assert!(stats.record_budget_spend_at(5_000, 1));
}

#[test]
fn spend_falls_out_of_the_window() {
    let config = BudgetingConfig::new(10_000, 1_000, 0, 100);
    let mut stats = ProjectStats::new(Arc::new(config));
    assert!(stats.record_budget_spend_at(1_000, 150));
    // a bucket exactly at the window start still counts
    assert!(stats.update_aggregated_state(11_000));
    // one step later it no longer contributes to the sum
    assert!(!stats.update_aggregated_state(11_001));
}

#[test]
fn backoff_freezes_the_answer() {
    let config = BudgetingConfig::new(10_000, 1_000, 20_000, 100);
    let mut stats = ProjectStats::new(Arc::new(config));
    // flips to over budget and arms a deadline at 21_000
    assert!(stats.record_budget_spend_at(1_000, 200));
    // the bucket has left the window, but the backoff holds the answer
    assert!(stats.update_aggregated_state(15_000));
    assert!(stats.record_budget_spend_at(15_000, 0));
    // past the deadline the answer is recomputed
    assert!(!stats.update_aggregated_state(22_000));
}

#[test]
fn bucket_count_stays_within_capacity() {
    let config = BudgetingConfig::new(3_000, 1_000, 1_000, 1_000_000);
    let mut stats = ProjectStats::new(Arc::new(config));
    for cell in 0..10u64 {
        stats.record_budget_spend_at(cell * 1_000, 5);
    }
    assert_eq!(stats.bucket_count(), 3);
    // spends within one grid cell merge instead of adding buckets
    stats.record_budget_spend_at(9_000, 5);
    stats.record_budget_spend_at(9_000, 5);
    assert_eq!(stats.bucket_count(), 3);
}

#[test]
fn staleness_follows_backoff_and_window() {
    let config = BudgetingConfig::new(10_000, 1_000, 20_000, 100);
    let mut stats = ProjectStats::new(Arc::new(config));
    // a fresh tracker holds nothing of relevance
    assert!(stats.is_stale(0));
    stats.record_budget_spend_at(1_000, 10);
    // the bucket still lies within the window
    assert!(!stats.is_stale(5_000));
    assert!(!stats.is_stale(11_000));
    // no backoff is pending and the bucket has left the window
    assert!(stats.is_stale(11_001));
    // a flip arms a deadline at 33_000
    assert!(stats.record_budget_spend_at(13_000, 200));
    // the bucket is out of the window at 30_000, but the backoff is pending
    assert!(!stats.is_stale(30_000));
    // once the deadline has passed as well, the tracker is stale
    assert!(stats.is_stale(40_000));
}

#[test]
fn scenario_ends_stale() {
    let (clock, mock) = Clock::mock();
    mock.increment(Duration::from_secs(100));

    let config = BudgetingConfig::new(
        nanos(Duration::from_secs(10)),
        nanos(Duration::from_secs(5)),
        nanos(Duration::from_secs(1)),
        100,
    )
    .with_timer(Timer::new(clock.clone()));
    let mut stats = ProjectStats::new(Arc::new(config));

    stats.record_budget_spend(45);
    mock.increment(Duration::from_millis(2250));
    assert!(stats.record_budget_spend(60));

    // past the backoff deadline and with the window drained, the answer drops
    mock.increment(Duration::from_secs(13));
    assert!(!stats.exceeds_budget());

    // that flip armed one more backoff; only after it passes is the tracker stale
    let now = clock.delta_as_nanos(0, clock.raw());
    assert!(!stats.is_stale(now));
    mock.increment(Duration::from_secs(30));
    let later = clock.delta_as_nanos(0, clock.raw());
    assert!(stats.is_stale(later));
}
