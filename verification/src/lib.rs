//! Rolling-window budget accounting with hysteresis.
//!
//! A [`stats::ProjectStats`] tracker records spend events into time buckets on a
//! discrete grid, sums the spend that falls inside a rolling budgeting window,
//! and reports whether the tracked entity currently exceeds its allowed budget.
//! A backoff deadline keeps the over/under-budget signal from flip-flopping:
//! once the signal changes, it is held until the deadline passes.
//!
//! Time is read through an injectable [`config::Timer`], so tests can drive the
//! tracker with a mocked clock.

pub mod config;
pub mod lemmas;
pub mod model;
pub mod stats;
