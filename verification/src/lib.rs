//! A verified trading-simulation engine: synthetic bar generation, a
//! train/test split, a strategy abstraction with a deterministic heuristic
//! fallback, and a bar-by-bar simulation loop that maintains portfolio
//! state, computes running metrics and emits an ordered event stream under
//! a cooperative stop protocol.
//!
//! All prices and cash amounts are fixed-point integers: one whole currency
//! unit is `PRICE_SCALE` ticks, so the smallest representable price step is
//! 0.0001. Quantities are scaled by `QTY_SCALE`, and fractions (drawdown,
//! win rate, the split ratio) by `FRAC_SCALE`.

use vstd::prelude::*;

pub mod data;
pub mod engine;
pub mod sim;
pub mod strategy;
pub mod types;

verus! {

/// Fixed-point price scale: one whole currency unit is `PRICE_SCALE` ticks,
/// so the smallest representable price is 0.0001 currency units.
pub const PRICE_SCALE: u64 = 10_000;

/// Smallest admissible price in ticks (the hard floor of 0.0001 that keeps
/// every generated price positive).
pub const PRICE_MIN: u64 = 1;

/// Largest admissible price in ticks (one hundred million currency units);
/// the bar generator clamps the random walk here so that portfolio
/// arithmetic stays within machine bounds.
pub const PRICE_CAP: u64 = 1_000_000_000_000;

/// Fixed-point quantity scale: a position of one whole instrument unit is
/// `QTY_SCALE` quantity ticks.
pub const QTY_SCALE: u64 = 10_000;

/// Largest admissible cash or equity amount in ticks; cash additions
/// saturate here so that every intermediate product fits its machine type.
pub const MONEY_CAP: u64 = 1_000_000_000_000_000;

/// Fixed-point scale for fractions: drawdown, win rate and the train/test
/// split ratio are all expressed as `x / FRAC_SCALE` of the whole.
pub const FRAC_SCALE: u64 = 10_000;

/// Fewest bars from which the ensemble strategy will fit a model; with less
/// history training is a defined no-op and the heuristic fallback stays in
/// charge.
pub const MIN_TRAIN_BARS: usize = 100;

} // verus!
