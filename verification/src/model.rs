//! Mathematical model of a budget tracker.
//!
//! The tracker's observable state is a [`TrackerModel`]: the over-budget flag,
//! the optional backoff deadline, and the retained buckets, newest first. The
//! spec functions here say exactly how one `check` or `record_spend` call maps
//! one model onto the next; the executable code in [`crate::stats`] is proved
//! to follow them step for step.

use vstd::prelude::*;

use crate::config::BudgetingConfig;

verus! {

/// One cell of the bucket grid: all spend truncated into the grid instant `ts`.
#[derive(Clone, Copy, Debug)]
pub struct Bucket {
    /// Grid timestamp of the cell, in nanoseconds.
    pub ts: u64,
    /// Spend accumulated in the cell; additions saturate at `u64::MAX`.
    pub spent: u64,
}

/// Observable state of one tracker.
pub struct TrackerModel {
    /// The last over-budget decision.
    pub exceeds_budget: bool,
    /// While set and in the future, the decision is frozen.
    pub backoff_deadline: Option<u64>,
    /// Retained buckets, strictly newest first.
    pub buckets: Seq<Bucket>,
}

/// `a + b`, stopped at `u64::MAX`.
pub open spec fn sat_add(a: u64, b: u64) -> u64 {
    if a + b > u64::MAX { u64::MAX } else { (a + b) as u64 }
}

/// The oldest instant that still lies inside the window ending at `now`.
pub open spec fn window_start(now: u64, window: u64) -> int {
    if now >= window { now - window } else { 0 }
}

/// Whether a bucket stamped `ts` still counts toward a sum taken at `now`.
/// The lower bound is inclusive: a bucket exactly at the window start counts.
pub open spec fn in_window(ts: u64, now: u64, window: u64) -> bool {
    ts >= window_start(now, window)
}

/// Total spend of the buckets that lie inside the window ending at `now`.
pub open spec fn windowed_sum(buckets: Seq<Bucket>, now: u64, window: u64) -> int
    decreases buckets.len(),
{
    if buckets.len() == 0 {
        0
    } else {
        windowed_sum(buckets.drop_last(), now, window) + if in_window(
            buckets.last().ts,
            now,
            window,
        ) {
            buckets.last().spent as int
        } else {
            0
        }
    }
}

/// Buckets are kept strictly newest first: no two share a grid cell.
pub open spec fn sorted_newest_first(buckets: Seq<Bucket>) -> bool {
    forall|i: int, j: int| 0 <= i < j < buckets.len() ==> buckets[i].ts > buckets[j].ts
}

/// Whether the backoff deadline is set and still in the future at `now`.
pub open spec fn backoff_active(m: TrackerModel, now: u64) -> bool {
    match m.backoff_deadline {
        Some(deadline) => deadline > now,
        None => false,
    }
}

/// The fresh over-budget decision at `now`: windowed spend strictly above the
/// ceiling. A sum exactly at the ceiling does not exceed it.
pub open spec fn over_budget(m: TrackerModel, cfg: BudgetingConfig, now: u64) -> bool {
    windowed_sum(m.buckets, now, cfg.budgeting_window) > cfg.allowed_budget
}

/// One aggregation pass at `now`.
///
/// While the backoff deadline is in the future the state is untouched.
/// Otherwise the deadline is cleared, the decision is recomputed from the
/// windowed sum, and a flip of the decision arms a new deadline
/// `now + backoff_duration` (stopped at `u64::MAX`).
pub open spec fn step_aggregate(m: TrackerModel, cfg: BudgetingConfig, now: u64) -> TrackerModel {
    if backoff_active(m, now) {
        m
    } else {
        let fresh = over_budget(m, cfg, now);
        TrackerModel {
            exceeds_budget: fresh,
            backoff_deadline: if fresh != m.exceeds_budget {
                Some(sat_add(now, cfg.backoff_duration))
            } else {
                None
            },
            buckets: m.buckets,
        }
    }
}

/// How a spend of `amount` at grid instant `now_t` lands in the buckets.
///
/// A newest bucket not older than `now_t` absorbs the amount in place;
/// otherwise a fresh bucket goes to the front, and when the sequence is
/// already at capacity `cap` the oldest bucket is dropped first.
pub open spec fn bucketize(buckets: Seq<Bucket>, now_t: u64, amount: u64, cap: u64) -> Seq<
    Bucket,
> {
    if buckets.len() > 0 && buckets[0].ts >= now_t {
        buckets.update(
            0,
            Bucket { ts: buckets[0].ts, spent: sat_add(buckets[0].spent, amount) },
        )
    } else {
        let kept = if buckets.len() >= cap {
            buckets.drop_last()
        } else {
            buckets
        };
        seq![Bucket { ts: now_t, spent: amount }] + kept
    }
}

/// One `record_spend` call at grid instant `now_t`: bucket the amount, then
/// aggregate at `now_t`.
pub open spec fn step_spend(
    m: TrackerModel,
    cfg: BudgetingConfig,
    now_t: u64,
    amount: u64,
) -> TrackerModel {
    let bucketed = TrackerModel {
        exceeds_budget: m.exceeds_budget,
        backoff_deadline: m.backoff_deadline,
        buckets: bucketize(m.buckets, now_t, amount, cfg.num_buckets),
    };
    step_aggregate(bucketed, cfg, now_t)
}

/// A tracker is stale at `now` when nothing it holds can shape a future
/// decision: no backoff deadline is pending, and no retained bucket still
/// lies inside the window ending at `now`.
pub open spec fn stale(m: TrackerModel, cfg: BudgetingConfig, now: u64) -> bool {
    !backoff_active(m, now) && forall|i: int|
        0 <= i < m.buckets.len() ==> !in_window(#[trigger] m.buckets[i].ts, now, cfg.budgeting_window)
}

/// Model-level well-formedness: buckets strictly newest first, never more of
/// them than the configured capacity.
pub open spec fn model_wf(m: TrackerModel, cfg: BudgetingConfig) -> bool {
    sorted_newest_first(m.buckets) && m.buckets.len() <= cfg.num_buckets
}

} // verus!
