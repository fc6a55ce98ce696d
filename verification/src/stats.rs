//! Per-entity budget tracking.
//!
//! A [`ProjectStats`] records spent budget into time buckets and reports
//! whether the entity exceeds its allowed budget over the rolling window,
//! with a backoff deadline that keeps the answer from flip-flopping.

use vstd::prelude::*;

use std::sync::Arc;

use crate::config::BudgetingConfig;
use crate::model::{
    bucketize, in_window, model_wf, stale, step_aggregate, step_spend, window_start, windowed_sum,
    Bucket, TrackerModel,
};

verus! {

/// Per-project (per-anything, really) budget tracking.
///
/// Records spent budget and answers whether the total spend within the
/// configured time window exceeds the allowed budget. Its observable state is
/// the [`TrackerModel`] given by its view, and every mutation is one
/// [`step_aggregate`] or [`step_spend`] of that model.
pub struct ProjectStats {
    /// Configuration that governs the budgeting and bucketing.
    config: Arc<BudgetingConfig>,
    /// Whether this project exceeded its budget, as last computed.
    exceeds_budget: bool,
    /// The deadline before which the state must not change again.
    backoff_deadline: Option<u64>,
    /// The buckets that keep track of the spent budget, newest first.
    budget_buckets: Vec<Bucket>,
}

impl View for ProjectStats {
    type V = TrackerModel;

    closed spec fn view(&self) -> TrackerModel {
        TrackerModel {
            exceeds_budget: self.exceeds_budget,
            backoff_deadline: self.backoff_deadline,
            buckets: self.budget_buckets@,
        }
    }
}

/// Total spend of the buckets whose timestamp still lies inside the window
/// of length `window` ending at `now`. Exact, with no overflow: the sum of
/// at most `usize::MAX` values of at most `u64::MAX` fits in a `u128`.
fn windowed_total(buckets: &Vec<Bucket>, now: u64, window: u64) -> (total: u128)
    ensures
        total == windowed_sum(buckets@, now, window),
{
    let lowest: u64 = if now >= window {
        now - window
    } else {
        0
    };
    let mut total: u128 = 0;
    let mut i: usize = 0;
    while i < buckets.len()
        invariant
            i <= buckets@.len(),
            lowest == window_start(now, window),
            total == windowed_sum(buckets@.take(i as int), now, window),
            total <= (i as int) * (u64::MAX as int),
        decreases buckets@.len() - i,
    {
        let b = buckets[i];
        proof {
            assert(buckets@.take(i + 1).drop_last() =~= buckets@.take(i as int));
            assert(buckets@.take(i + 1).last() == buckets@[i as int]);
        }
        if b.ts >= lowest {
            total = total + (b.spent as u128);
        }
        i = i + 1;
    }
    proof {
        assert(buckets@.take(buckets@.len() as int) =~= buckets@);
    }
    total
}

impl ProjectStats {
    /// The configuration this tracker is governed by.
    pub closed spec fn cfg(self) -> BudgetingConfig {
        *self.config
    }

    /// Structural invariant: a well-formed config, buckets strictly newest
    /// first, and never more buckets than the configured capacity.
    pub open spec fn wf(self) -> bool {
        self.cfg().wf() && model_wf(self@, self.cfg())
    }

    /// Create a new per-project tracker based on the given [`BudgetingConfig`]:
    /// not over budget, no buckets, no backoff.
    pub fn new(config: Arc<BudgetingConfig>) -> (s: ProjectStats)
        ensures
            s.cfg() == *config,
            s@.exceeds_budget == false,
            s@.backoff_deadline is None,
            s@.buckets == Seq::<Bucket>::empty(),
            (*config).wf() ==> s.wf(),
    {
        ProjectStats {
            config,
            exceeds_budget: false,
            backoff_deadline: None,
            budget_buckets: Vec::new(),
        }
    }

    /// Updates the internal state, calculating whether this project exceeds
    /// its budget: one [`step_aggregate`] of the model at `now`.
    ///
    /// While the backoff deadline lies in the future the stored answer is
    /// returned untouched; otherwise the answer is recomputed from the
    /// windowed sum, and a change of answer arms a new backoff deadline.
    pub fn update_aggregated_state(&mut self, now: u64) -> (r: bool)
        requires
            old(self).wf(),
        ensures
            final(self).wf(),
            final(self).cfg() == old(self).cfg(),
            final(self)@ == step_aggregate(old(self)@, old(self).cfg(), now),
            r == final(self)@.exceeds_budget,
    {
        if let Some(deadline) = self.backoff_deadline {
            if deadline > now {
                return self.exceeds_budget;
            }
            self.backoff_deadline = None;
        }
        let total = windowed_total(&self.budget_buckets, now, self.config.budgeting_window);
        let exceeds = total > (self.config.allowed_budget as u128);
        if self.exceeds_budget != exceeds {
            self.exceeds_budget = exceeds;
            let backoff = self.config.backoff_duration;
            let deadline = if now > u64::MAX - backoff {
                u64::MAX
            } else {
                now + backoff
            };
            self.backoff_deadline = Some(deadline);
        }
        exceeds
    }

    /// Records spent budget at the grid instant `now`, then recomputes the
    /// over-budget answer: one [`step_spend`] of the model.
    ///
    /// The amount merges into the newest bucket when that bucket is not older
    /// than `now`; otherwise a fresh bucket is pushed to the front, dropping
    /// the oldest bucket when the capacity bound is reached.
    pub fn record_budget_spend_at(&mut self, now: u64, spent_budget: u64) -> (r: bool)
        requires
            old(self).wf(),
        ensures
            final(self).wf(),
            final(self).cfg() == old(self).cfg(),
            final(self)@ == step_spend(old(self)@, old(self).cfg(), now, spent_budget),
            r == final(self)@.exceeds_budget,
    {
        let ghost pre = old(self)@.buckets;
        let ghost cap = old(self).cfg().num_buckets;
        if self.budget_buckets.len() > 0 {
            let first = self.budget_buckets[0];
            if first.ts >= now {
                let merged = if spent_budget > u64::MAX - first.spent {
                    u64::MAX
                } else {
                    first.spent + spent_budget
                };
                self.budget_buckets[0] = Bucket { ts: first.ts, spent: merged };
                proof {
                    assert forall|i: int, j: int|
                        0 <= i < j < self.budget_buckets@.len() implies self.budget_buckets@[i].ts
                        > self.budget_buckets@[j].ts by {
                        assert(self.budget_buckets@[i].ts == pre[i].ts);
                        assert(self.budget_buckets@[j].ts == pre[j].ts);
                    }
                }
            } else {
                if self.budget_buckets.len() as u64 >= self.config.num_buckets {
                    let _ = self.budget_buckets.pop();
                }
                self.budget_buckets.insert(0, Bucket { ts: now, spent: spent_budget });
                proof {
                    let ghost kept = if pre.len() >= cap {
                        pre.drop_last()
                    } else {
                        pre
                    };
                    assert(self.budget_buckets@ =~= seq![
                        Bucket { ts: now, spent: spent_budget },
                    ] + kept);
                    assert forall|i: int, j: int|
                        0 <= i < j < self.budget_buckets@.len() implies self.budget_buckets@[i].ts
                        > self.budget_buckets@[j].ts by {
                        if i > 0 {
                            assert(self.budget_buckets@[i] == pre[i - 1]);
                        }
                        assert(self.budget_buckets@[j] == pre[j - 1]);
                        if j - 1 > 0 {
                            assert(pre[0].ts > pre[j - 1].ts);
                        }
                    }
                }
            }
        } else {
            self.budget_buckets.insert(0, Bucket { ts: now, spent: spent_budget });
        }
        proof {
            assert(self.budget_buckets@ =~= bucketize(pre, now, spent_budget, cap));
            assert(self@ == TrackerModel {
                exceeds_budget: old(self)@.exceeds_budget,
                backoff_deadline: old(self)@.backoff_deadline,
                buckets: bucketize(pre, now, spent_budget, cap),
            });
        }
        self.update_aggregated_state(now)
    }

    /// Checks whether this project exceeds its budget at the current clock
    /// reading, truncated onto the bucket grid.
    ///
    /// This also updates internal state when checking: the new state is one
    /// [`step_aggregate`] of the old one, at a grid instant the clock chose.
    pub fn exceeds_budget(&mut self) -> (r: bool)
        requires
            old(self).wf(),
        ensures
            final(self).wf(),
            final(self).cfg() == old(self).cfg(),
            exists|now: u64| #![auto]
                now % old(self).cfg().bucket_width == 0 && final(self)@ == step_aggregate(
                    old(self)@,
                    old(self).cfg(),
                    now,
                ) && r == step_aggregate(old(self)@, old(self).cfg(), now).exceeds_budget,
    {
        let now = self.config.truncated_now();
        let r = self.update_aggregated_state(now);
        proof {
            assert(final(self)@ == step_aggregate(old(self)@, old(self).cfg(), now) && r
                == step_aggregate(old(self)@, old(self).cfg(), now).exceeds_budget);
        }
        r
    }

    /// Records spent budget against the current clock reading, truncated onto
    /// the bucket grid, and returns the updated over-budget answer.
    ///
    /// The new state is one [`step_spend`] of the old one, at a grid instant
    /// the clock chose.
    pub fn record_budget_spend(&mut self, spent_budget: u64) -> (r: bool)
        requires
            old(self).wf(),
        ensures
            final(self).wf(),
            final(self).cfg() == old(self).cfg(),
            exists|now: u64| #![auto]
                now % old(self).cfg().bucket_width == 0 && final(self)@ == step_spend(
                    old(self)@,
                    old(self).cfg(),
                    now,
                    spent_budget,
                ) && r == step_spend(old(self)@, old(self).cfg(), now, spent_budget).exceeds_budget,
    {
        let now = self.config.truncated_now();
        let r = self.record_budget_spend_at(now, spent_budget);
        proof {
            assert(final(self)@ == step_spend(old(self)@, old(self).cfg(), now, spent_budget) && r
                == step_spend(old(self)@, old(self).cfg(), now, spent_budget).exceeds_budget);
        }
        r
    }

    /// Number of buckets currently retained; never more than the configured
    /// `num_buckets` on a well-formed tracker.
    pub fn bucket_count(&self) -> (n: usize)
        ensures
            n == self@.buckets.len(),
    {
        self.budget_buckets.len()
    }

    /// Checks whether this tracker holds nothing of relevance at `now`: no
    /// pending backoff deadline, and every bucket outside the budgeting
    /// window. A stale tracker can be cleaned up by its registry.
    pub fn is_stale(&self, now: u64) -> (r: bool)
        ensures
            r == stale(self@, self.cfg(), now),
    {
        if let Some(deadline) = self.backoff_deadline {
            if deadline > now {
                // a pending backoff still governs future decisions
                return false;
            }
        }
        let window = self.config.budgeting_window;
        let lowest: u64 = if now >= window {
            now - window
        } else {
            0
        };
        let mut i: usize = 0;
        while i < self.budget_buckets.len()
            invariant
                i <= self.budget_buckets@.len(),
                lowest == window_start(now, self.cfg().budgeting_window),
                forall|j: int|
                    0 <= j < i ==> !in_window(
                        #[trigger] self.budget_buckets@[j].ts,
                        now,
                        self.cfg().budgeting_window,
                    ),
            decreases self.budget_buckets@.len() - i,
        {
            if self.budget_buckets[i].ts >= lowest {
                proof {
                    assert(in_window(self@.buckets[i as int].ts, now, self.cfg().budgeting_window));
                    assert(!stale(self@, self.cfg(), now));
                }
                return false;
            }
            i = i + 1;
        }
        true
    }
}

} // verus!
