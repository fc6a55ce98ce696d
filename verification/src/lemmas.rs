//! Proofs about whole histories of tracker calls.
//!
//! [`run_calls`] folds a sequence of timed check/spend calls over a
//! [`TrackerModel`]; the proof functions here state what every such history
//! preserves: the backoff freeze after a flip, the exact threshold, the
//! irrelevance of buckets that fell out of the window, and the capacity bound.

use vstd::prelude::*;

use crate::config::BudgetingConfig;
use crate::model::{
    backoff_active, bucketize, in_window, model_wf, sat_add, step_aggregate, step_spend,
    windowed_sum, Bucket, TrackerModel,
};

verus! {

/// One call into a tracker: a plain check, or a spend of the given amount.
pub enum TrackerCall {
    Check,
    Spend(u64),
}

/// The model after one call at grid instant `now`.
pub open spec fn apply_call(
    m: TrackerModel,
    cfg: BudgetingConfig,
    now: u64,
    call: TrackerCall,
) -> TrackerModel {
    match call {
        TrackerCall::Check => step_aggregate(m, cfg, now),
        TrackerCall::Spend(amount) => step_spend(m, cfg, now, amount),
    }
}

/// The model after a whole sequence of timed calls, applied in order.
pub open spec fn run_calls(
    m: TrackerModel,
    cfg: BudgetingConfig,
    calls: Seq<(u64, TrackerCall)>,
) -> TrackerModel
    decreases calls.len(),
{
    if calls.len() == 0 {
        m
    } else {
        run_calls(apply_call(m, cfg, calls[0].0, calls[0].1), cfg, calls.drop_first())
    }
}

/// While the backoff deadline lies in the future, no sequence of calls, spend
/// or check, moves the over-budget answer or the deadline itself.
pub proof fn lemma_backoff_freezes(
    m: TrackerModel,
    cfg: BudgetingConfig,
    deadline: u64,
    calls: Seq<(u64, TrackerCall)>,
)
    requires
        m.backoff_deadline == Some(deadline),
        forall|k: int| 0 <= k < calls.len() ==> (#[trigger] calls[k]).0 < deadline,
    ensures
        run_calls(m, cfg, calls).exceeds_budget == m.exceeds_budget,
        run_calls(m, cfg, calls).backoff_deadline == Some(deadline),
    decreases calls.len(),
{
    if calls.len() > 0 {
        let next = apply_call(m, cfg, calls[0].0, calls[0].1);
        assert(backoff_active(m, calls[0].0));
        assert(next.exceeds_budget == m.exceeds_budget);
        assert(next.backoff_deadline == Some(deadline));
        assert forall|k: int| 0 <= k < calls.drop_first().len() implies (#[trigger] calls.drop_first()[
            k]).0 < deadline by {
            assert(calls.drop_first()[k] == calls[k + 1]);
        }
        lemma_backoff_freezes(next, cfg, deadline, calls.drop_first());
    }
}

/// Monotonic hysteresis: once a call flips the over-budget answer, no later
/// calls whose instants all lie before `flip time + backoff_duration` can
/// move the answer again, whatever spend they record.
pub proof fn lemma_monotonic_hysteresis(
    m: TrackerModel,
    cfg: BudgetingConfig,
    now0: u64,
    call0: TrackerCall,
    calls: Seq<(u64, TrackerCall)>,
)
    requires
        apply_call(m, cfg, now0, call0).exceeds_budget != m.exceeds_budget,
        forall|k: int|
            0 <= k < calls.len() ==> (#[trigger] calls[k]).0 < sat_add(now0, cfg.backoff_duration),
    ensures
        run_calls(apply_call(m, cfg, now0, call0), cfg, calls).exceeds_budget == apply_call(
            m,
            cfg,
            now0,
            call0,
        ).exceeds_budget,
{
    let flipped = apply_call(m, cfg, now0, call0);
    assert(flipped.backoff_deadline == Some(sat_add(now0, cfg.backoff_duration)));
    lemma_backoff_freezes(flipped, cfg, sat_add(now0, cfg.backoff_duration), calls);
}

/// A flip arms the backoff deadline at exactly `now + backoff_duration`
/// (stopped at `u64::MAX`), which never lies before the instant `now` at
/// which it was armed.
pub proof fn lemma_flip_arms_deadline(m: TrackerModel, cfg: BudgetingConfig, now: u64)
    requires
        step_aggregate(m, cfg, now).exceeds_budget != m.exceeds_budget,
    ensures
        step_aggregate(m, cfg, now).backoff_deadline == Some(sat_add(now, cfg.backoff_duration)),
        sat_add(now, cfg.backoff_duration) >= now,
        now + cfg.backoff_duration <= u64::MAX ==> step_aggregate(m, cfg, now).backoff_deadline
            == Some((now + cfg.backoff_duration) as u64),
{
}

/// Two flips lie at least `backoff_duration` apart: after a call at `t1`
/// flips the answer, and however many calls follow before the armed deadline,
/// a call at `t2` can flip it again only once `t1 + backoff_duration`
/// (stopped at `u64::MAX`) has been reached.
pub proof fn lemma_next_flip_waits(
    m: TrackerModel,
    cfg: BudgetingConfig,
    t1: u64,
    call1: TrackerCall,
    calls: Seq<(u64, TrackerCall)>,
    t2: u64,
    call2: TrackerCall,
)
    requires
        apply_call(m, cfg, t1, call1).exceeds_budget != m.exceeds_budget,
        forall|k: int|
            0 <= k < calls.len() ==> (#[trigger] calls[k]).0 < sat_add(t1, cfg.backoff_duration),
        apply_call(
            run_calls(apply_call(m, cfg, t1, call1), cfg, calls),
            cfg,
            t2,
            call2,
        ).exceeds_budget != run_calls(apply_call(m, cfg, t1, call1), cfg, calls).exceeds_budget,
    ensures
        t2 >= sat_add(t1, cfg.backoff_duration),
{
    let deadline = sat_add(t1, cfg.backoff_duration);
    let flipped = apply_call(m, cfg, t1, call1);
    assert(flipped.backoff_deadline == Some(deadline));
    lemma_backoff_freezes(flipped, cfg, deadline, calls);
    let settled = run_calls(flipped, cfg, calls);
    if t2 < deadline {
        assert(backoff_active(settled, t2));
        assert(apply_call(settled, cfg, t2, call2).exceeds_budget == settled.exceeds_budget);
    }
}

/// Threshold exactness: with no backoff pending, a windowed sum exactly at
/// the allowed budget does not exceed it, and one unit above it does.
pub proof fn lemma_threshold_exactness(m: TrackerModel, cfg: BudgetingConfig, now: u64)
    requires
        !backoff_active(m, now),
    ensures
        windowed_sum(m.buckets, now, cfg.budgeting_window) == cfg.allowed_budget ==> !step_aggregate(
            m,
            cfg,
            now,
        ).exceeds_budget,
        windowed_sum(m.buckets, now, cfg.budgeting_window) == cfg.allowed_budget + 1
            ==> step_aggregate(m, cfg, now).exceeds_budget,
{
}

/// Window exclusion: a bucket stamped `ts` adds nothing to a sum taken at
/// `now` once `now` has advanced past `ts + window`; removing it leaves the
/// windowed sum unchanged.
pub proof fn lemma_window_exclusion(buckets: Seq<Bucket>, now: u64, window: u64, i: int)
    requires
        0 <= i < buckets.len(),
        buckets[i].ts + window < now,
    ensures
        windowed_sum(buckets, now, window) == windowed_sum(buckets.remove(i), now, window),
    decreases buckets.len(),
{
    if i == buckets.len() - 1 {
        assert(buckets.remove(i) =~= buckets.drop_last());
        assert(!in_window(buckets[i].ts, now, window));
    } else {
        assert(buckets.remove(i).drop_last() =~= buckets.drop_last().remove(i));
        assert(buckets.remove(i).last() == buckets.last());
        lemma_window_exclusion(buckets.drop_last(), now, window, i);
    }
}

/// Buckets that all lie outside the window sum to nothing.
pub proof fn lemma_out_of_window_sum_zero(buckets: Seq<Bucket>, now: u64, window: u64)
    requires
        forall|i: int|
            0 <= i < buckets.len() ==> !in_window(#[trigger] buckets[i].ts, now, window),
    ensures
        windowed_sum(buckets, now, window) == 0,
    decreases buckets.len(),
{
    if buckets.len() > 0 {
        assert(forall|i: int|
            0 <= i < buckets.drop_last().len() ==> !in_window(
                #[trigger] buckets.drop_last()[i].ts,
                now,
                window,
            ));
        lemma_out_of_window_sum_zero(buckets.drop_last(), now, window);
    }
}

/// With no backoff pending and every retained bucket outside the window, an
/// aggregation at `now` reports not over budget.
pub proof fn lemma_drained_window_not_over(m: TrackerModel, cfg: BudgetingConfig, now: u64)
    requires
        !backoff_active(m, now),
        forall|i: int|
            0 <= i < m.buckets.len() ==> !in_window(
                #[trigger] m.buckets[i].ts,
                now,
                cfg.budgeting_window,
            ),
    ensures
        !step_aggregate(m, cfg, now).exceeds_budget,
{
    lemma_out_of_window_sum_zero(m.buckets, now, cfg.budgeting_window);
}

/// One call keeps the structural invariant: buckets stay strictly newest
/// first and their count stays within the configured capacity.
pub proof fn lemma_call_preserves_model_wf(
    m: TrackerModel,
    cfg: BudgetingConfig,
    now: u64,
    call: TrackerCall,
)
    requires
        cfg.wf(),
        model_wf(m, cfg),
    ensures
        model_wf(apply_call(m, cfg, now, call), cfg),
{
    match call {
        TrackerCall::Check => {
        }
        TrackerCall::Spend(amount) => {
            let pre = m.buckets;
            let post = bucketize(pre, now, amount, cfg.num_buckets);
            if pre.len() > 0 && pre[0].ts >= now {
                assert forall|i: int, j: int| 0 <= i < j < post.len() implies post[i].ts
                    > post[j].ts by {
                    assert(post[i].ts == pre[i].ts);
                    assert(post[j].ts == pre[j].ts);
                }
            } else {
                let kept = if pre.len() >= cfg.num_buckets {
                    pre.drop_last()
                } else {
                    pre
                };
                assert forall|i: int, j: int| 0 <= i < j < post.len() implies post[i].ts
                    > post[j].ts by {
                    if i > 0 {
                        assert(post[i] == pre[i - 1]);
                    }
                    assert(post[j] == pre[j - 1]);
                    if j - 1 > 0 {
                        assert(pre[0].ts > pre[j - 1].ts);
                    }
                }
            }
        }
    }
}

/// Bucket capacity bound: however many calls a history holds and however far
/// apart their grid instants lie, the retained bucket count never exceeds
/// `num_buckets`, and the buckets stay strictly newest first.
pub proof fn lemma_run_preserves_model_wf(
    m: TrackerModel,
    cfg: BudgetingConfig,
    calls: Seq<(u64, TrackerCall)>,
)
    requires
        cfg.wf(),
        model_wf(m, cfg),
    ensures
        model_wf(run_calls(m, cfg, calls), cfg),
        run_calls(m, cfg, calls).buckets.len() <= cfg.num_buckets,
    decreases calls.len(),
{
    if calls.len() > 0 {
        lemma_call_preserves_model_wf(m, cfg, calls[0].0, calls[0].1);
        lemma_run_preserves_model_wf(
            apply_call(m, cfg, calls[0].0, calls[0].1),
            cfg,
            calls.drop_first(),
        );
    }
}

} // verus!
