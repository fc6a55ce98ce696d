//! Budgeting parameters and the clock they are measured against.
//!
//! All durations and timestamps are whole nanoseconds. A timestamp is the
//! number of nanoseconds a monotonic clock has advanced since some fixed
//! origin; only differences between timestamps are meaningful.

use vstd::prelude::*;

verus! {

#[verifier::external_type_specification]
#[verifier::external_body]
pub struct ExClock(quanta::Clock);

/// Relies on `quanta::Clock::new`: a clock backed by the best monotonic time
/// source available on this machine.
#[verifier::external_body]
fn system_clock() -> (c: quanta::Clock) {
    quanta::Clock::new()
}

/// Relies on `quanta::Clock::raw`: reads the clock's underlying time source.
/// The value is a raw reading, not necessarily in nanoseconds.
#[verifier::external_body]
fn clock_raw(clock: &quanta::Clock) -> (r: u64) {
    clock.raw()
}

/// Relies on `quanta::Clock::delta_as_nanos`: scales the difference of two raw
/// readings to whole nanoseconds, and returns zero when `end <= start`.
#[verifier::external_body]
fn clock_delta_as_nanos(clock: &quanta::Clock, start: u64, end: u64) -> (r: u64)
    ensures
        end <= start ==> r == 0,
{
    clock.delta_as_nanos(start, end)
}

/// Source of "now" for the budgeting logic.
///
/// Wraps a monotonic clock; a mocked `quanta::Clock` makes every reading, and
/// with it the whole tracker, deterministic under test.
pub struct Timer {
    clock: quanta::Clock,
}

impl Timer {
    /// A timer over the given clock.
    pub fn new(clock: quanta::Clock) -> Timer {
        Timer { clock }
    }

    /// A timer over the machine's own monotonic clock.
    pub fn monotonic() -> Timer {
        Timer { clock: system_clock() }
    }

    /// Nanoseconds the clock has advanced since its origin.
    pub fn now_nanos(&self) -> u64 {
        let raw = clock_raw(&self.clock);
        clock_delta_as_nanos(&self.clock, 0, raw)
    }
}

/// `now` rounded to the nearest multiple of `width` (ties round up), except
/// that a value whose nearest multiple lies above `u64::MAX` rounds down.
/// The result is always a multiple of `width`.
pub open spec fn truncate_to_grid(now: u64, width: u64) -> int
    recommends
        width > 0,
{
    let rem = now % width;
    if 2 * rem >= width && now - rem + width <= u64::MAX {
        now - rem + width
    } else {
        now - rem
    }
}

/// Parameters that govern bucketing, the rolling window, and hysteresis.
///
/// Shared read-only (typically behind an `Arc`) by every tracker it governs.
pub struct BudgetingConfig {
    /// Length of the rolling window over which spend is summed, in nanoseconds.
    pub budgeting_window: u64,
    /// Spacing of the bucket grid, in nanoseconds; always non-zero.
    pub bucket_width: u64,
    /// Minimum dwell time after the over-budget signal flips, in nanoseconds.
    pub backoff_duration: u64,
    /// Spend strictly above this ceiling means "exceeds budget".
    pub allowed_budget: u64,
    /// Capacity bound on the retained buckets; always non-zero.
    pub num_buckets: u64,
    /// Source of "now".
    pub timer: Timer,
}

impl BudgetingConfig {
    /// A config is well formed when the grid spacing and the bucket capacity
    /// are non-zero.
    pub open spec fn wf(self) -> bool {
        self.bucket_width >= 1 && self.num_buckets >= 1
    }

    /// Build a config from the window, grid spacing, backoff and budget
    /// ceiling, all in nanoseconds except the dimensionless budget.
    ///
    /// A zero `bucket_width` is clamped to one nanosecond. The bucket capacity
    /// is the number of grid cells that cover the window, rounded up, and at
    /// least one.
    pub fn new(
        budgeting_window: u64,
        bucket_width: u64,
        backoff_duration: u64,
        allowed_budget: u64,
    ) -> (c: BudgetingConfig)
        ensures
            c.wf(),
            c.budgeting_window == budgeting_window,
            c.bucket_width == (if bucket_width == 0 { 1u64 } else { bucket_width }),
            c.backoff_duration == backoff_duration,
            c.allowed_budget == allowed_budget,
            c.num_buckets == num_buckets_for(budgeting_window, c.bucket_width),
    {
        let width: u64 = if bucket_width == 0 { 1 } else { bucket_width };
        let quotient: u64 = budgeting_window / width;
        proof {
            assert(width >= 2 ==> budgeting_window / width <= u64::MAX / 2) by (nonlinear_arith);
        }
        let ceil: u64 = if budgeting_window % width != 0 { quotient + 1 } else { quotient };
        let num_buckets: u64 = if ceil == 0 { 1 } else { ceil };
        BudgetingConfig {
            budgeting_window,
            bucket_width: width,
            backoff_duration,
            allowed_budget,
            num_buckets,
            timer: Timer::monotonic(),
        }
    }

    /// Replace the timer, keeping every numeric parameter.
    pub fn with_timer(self, timer: Timer) -> (c: BudgetingConfig)
        ensures
            c.timer == timer,
            c.budgeting_window == self.budgeting_window,
            c.bucket_width == self.bucket_width,
            c.backoff_duration == self.backoff_duration,
            c.allowed_budget == self.allowed_budget,
            c.num_buckets == self.num_buckets,
            c.wf() == self.wf(),
    {
        BudgetingConfig { timer, ..self }
    }

    /// `now` rounded onto this config's bucket grid.
    pub fn truncate(&self, now: u64) -> (r: u64)
        requires
            self.wf(),
        ensures
            r == truncate_to_grid(now, self.bucket_width),
            r % self.bucket_width == 0,
    {
        let width = self.bucket_width;
        proof {
            assert(now % width <= now && now % width < width) by (nonlinear_arith)
                requires width > 0;
        }
        let rem = now % width;
        let down = now - rem;
        proof {
            assert(down % width == 0) by (nonlinear_arith)
                requires width > 0, down == now - (now % width);
        }
        if rem >= width - rem && down <= u64::MAX - width {
            let up = down + width;
            proof {
                assert(up % width == 0) by (nonlinear_arith)
                    requires width > 0, down % width == 0, up == down + width;
            }
            up
        } else {
            down
        }
    }

    /// The current clock reading, rounded onto the bucket grid.
    ///
    /// Nothing is promised about which instant the clock reports, only that
    /// the result lies on the grid.
    pub fn truncated_now(&self) -> (r: u64)
        requires
            self.wf(),
        ensures
            r % self.bucket_width == 0,
            exists|now: u64| r == truncate_to_grid(now, self.bucket_width),
    {
        let now = self.timer.now_nanos();
        let r = self.truncate(now);
        proof {
            assert(r == truncate_to_grid(now, self.bucket_width));
        }
        r
    }
}

/// Number of grid cells of spacing `width` needed to cover `window`, rounded
/// up, and at least one.
pub open spec fn num_buckets_for(window: u64, width: u64) -> int
    recommends
        width > 0,
{
    let ceil: int = if window % width != 0 { window / width + 1 } else { (window / width) as int };
    if ceil == 0 { 1 } else { ceil }
}

} // verus!
