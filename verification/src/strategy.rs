//! The strategy abstraction: a trait over {train, decide}, the verified
//! feature pipeline of the ensemble classifier, and the deterministic
//! heuristic fallback that answers whenever no model is fitted.

use crate::types::{bar_valid, Bar};
use crate::{MIN_TRAIN_BARS, PRICE_SCALE};
use vstd::prelude::*;

verus! {

/// Why a strategy could not be fitted. Insufficient history is not an
/// error (training is then a defined no-op); this covers genuine fitting
/// failures, which the simulation loop treats as best-effort and survives.
#[derive(Clone, Copy, Debug, PartialEq, Eq, Structural)]
pub enum StrategyError {
    TrainingFailed,
}

/// The capability set the simulation loop needs: fit on a historical
/// segment, then answer long (`true`) or flat (`false`) for each bar.
/// `decide` must be callable before or after `train` and must fall back to
/// a deterministic heuristic rather than fail; nothing is promised of the
/// answer itself, so the loop is verified for every implementation.
pub trait Strategy {
    fn train(&mut self, bars: &[Bar]) -> Result<(), StrategyError>;

    fn decide(&self, last: &Bar) -> bool;
}

/// One training or inference example: the bar-to-bar return, a volatility
/// proxy, and a momentum term, all in ticks of `PRICE_SCALE`.
#[derive(Clone, Copy, Debug, PartialEq, Eq, Structural)]
pub struct FeatureRow {
    pub ret: i64,
    pub vol: i64,
    pub momentum: i64,
}

/// The return from `prev` to `cur` in ticks of `PRICE_SCALE`:
/// `cur / prev - 1` at the fixed-point scale.
pub open spec fn ret_ticks(prev: Bar, cur: Bar) -> int {
    (cur.close as int) * (PRICE_SCALE as int) / (prev.close as int) - PRICE_SCALE as int
}

/// The bar's high-low range as a fraction of its close, in ticks of
/// `PRICE_SCALE`: a volatility proxy.
pub open spec fn range_ticks(b: Bar) -> int {
    (b.high - b.low) * (PRICE_SCALE as int) / (b.close as int)
}

/// What `f` must be for the consecutive window `(w0, w1, w2)`: the return
/// into `w1`, the range of `w2`, and the close-to-close momentum into `w2`.
pub open spec fn row_matches_window(f: FeatureRow, w0: Bar, w1: Bar, w2: Bar) -> bool {
    &&& f.ret == ret_ticks(w0, w1)
    &&& f.vol == range_ticks(w2)
    &&& f.momentum == w2.close - w1.close
}

/// Builds the feature row of one consecutive 3-bar window.
pub fn window_features(w0: &Bar, w1: &Bar, w2: &Bar) -> (f: FeatureRow)
    requires
        bar_valid(*w0),
        bar_valid(*w1),
        bar_valid(*w2),
    ensures
        row_matches_window(f, *w0, *w1, *w2),
{
    proof {
        assert(w1.close * PRICE_SCALE <= (crate::PRICE_CAP as int) * PRICE_SCALE)
            by (nonlinear_arith)
            requires
                w1.close <= crate::PRICE_CAP,
        ;
        assert(w1.close * PRICE_SCALE / (w0.close as int) <= w1.close * PRICE_SCALE)
            by (nonlinear_arith)
            requires
                w0.close >= 1,
                w1.close * PRICE_SCALE >= 0,
        ;
        assert((w2.high - w2.low) * PRICE_SCALE <= 2 * (crate::PRICE_CAP as int) * PRICE_SCALE)
            by (nonlinear_arith)
            requires
                w2.high - w2.low <= 2 * crate::PRICE_CAP,
                w2.high >= w2.low,
        ;
        assert((w2.high - w2.low) * PRICE_SCALE / (w2.close as int) <= (w2.high - w2.low)
            * PRICE_SCALE) by (nonlinear_arith)
            requires
                w2.close >= 1,
                (w2.high - w2.low) * PRICE_SCALE >= 0,
        ;
    }
    let ret = ((w1.close * PRICE_SCALE) / w0.close) as i64 - PRICE_SCALE as i64;
    let vol = (((w2.high - w2.low) * PRICE_SCALE) / w2.close) as i64;
    let momentum = w2.close as i64 - w1.close as i64;
    FeatureRow { ret, vol, momentum }
}

/// The label of a window: `1` when the close rises from `w1` to `w2` (a
/// positive return, since prices are positive), else `0`.
pub fn window_label(w1: &Bar, w2: &Bar) -> (y: u8)
    ensures
        y == 1 <==> w2.close > w1.close,
        y == 0 || y == 1,
{
    if w2.close > w1.close {
        1
    } else {
        0
    }
}

/// Builds the full training set of a bar sequence: one example per
/// consecutive 3-bar window, in temporal order.
pub fn build_training_set(bars: &[Bar]) -> (ts: (Vec<FeatureRow>, Vec<u8>))
    requires
        forall|i: int| 0 <= i < bars@.len() ==> bar_valid(#[trigger] bars@[i]),
    ensures
        ts.0@.len() == ts.1@.len(),
        ts.0@.len() == if bars@.len() >= 3 {
            bars@.len() - 2
        } else {
            0int
        },
        forall|i: int|
            0 <= i < ts.0@.len() ==> row_matches_window(
                #[trigger] ts.0@[i],
                bars@[i],
                bars@[i + 1],
                bars@[i + 2],
            ),
        forall|i: int|
            0 <= i < ts.1@.len() ==> ((#[trigger] ts.1@[i]) == 1 <==> bars@[i + 2].close
                > bars@[i + 1].close),
{
    let mut x: Vec<FeatureRow> = Vec::new();
    let mut y: Vec<u8> = Vec::new();
    if bars.len() < 3 {
        return (x, y);
    }
    let n = bars.len() - 2;
    let mut i: usize = 0;
    while i < n
        invariant
            n == bars@.len() - 2,
            bars@.len() >= 3,
            i <= n,
            x@.len() == i,
            y@.len() == i,
            forall|k: int| 0 <= k < bars@.len() ==> bar_valid(#[trigger] bars@[k]),
            forall|k: int|
                0 <= k < i ==> row_matches_window(
                    #[trigger] x@[k],
                    bars@[k],
                    bars@[k + 1],
                    bars@[k + 2],
                ),
            forall|k: int|
                0 <= k < i ==> ((#[trigger] y@[k]) == 1 <==> bars@[k + 2].close > bars@[k
                    + 1].close),
        decreases n - i,
    {
        let f = window_features(&bars[i], &bars[i + 1], &bars[i + 2]);
        let label = window_label(&bars[i + 1], &bars[i + 2]);
        x.push(f);
        y.push(label);
        i = i + 1;
    }
    (x, y)
}

/// Whether `n` bars are enough history to fit the ensemble model; with
/// fewer than `MIN_TRAIN_BARS` the model stays untrained and the heuristic
/// fallback decides.
pub fn has_sufficient_history(n: usize) -> (enough: bool)
    ensures
        enough == (n >= MIN_TRAIN_BARS),
{
    n >= MIN_TRAIN_BARS
}

/// The feature row used for live inference. There is no prior-bar context
/// at decision time, so the same bar stands in for every window position
/// and the bar-to-bar return is fixed at zero; the momentum term uses the
/// bar's own open-to-close move. This mirrors the training-time window
/// only approximately — a deliberate, documented simplification, not one
/// to correct silently.
pub fn decision_features(last: &Bar) -> (f: FeatureRow)
    requires
        bar_valid(*last),
    ensures
        f.ret == 0,
        f.vol == range_ticks(*last),
        f.momentum == last.close - last.open,
{
    proof {
        assert((last.high - last.low) * PRICE_SCALE <= 2 * (crate::PRICE_CAP as int)
            * PRICE_SCALE) by (nonlinear_arith)
            requires
                last.high - last.low <= 2 * crate::PRICE_CAP,
                last.high >= last.low,
        ;
        assert((last.high - last.low) * PRICE_SCALE / (last.close as int) <= (last.high
            - last.low) * PRICE_SCALE) by (nonlinear_arith)
            requires
                last.close >= 1,
                (last.high - last.low) * PRICE_SCALE >= 0,
        ;
    }
    let vol = (((last.high - last.low) * PRICE_SCALE) / last.close) as i64;
    let momentum = last.close as i64 - last.open as i64;
    FeatureRow { ret: 0, vol, momentum }
}

/// The deterministic heuristic every strategy falls back to while
/// untrained: long exactly when the bar closed above its open.
pub fn fallback_decide(last: &Bar) -> (go_long: bool)
    ensures
        go_long == (last.close > last.open),
{
    last.close > last.open
}

/// The fallback heuristic as a strategy of its own: training is a no-op
/// success and every decision is `fallback_decide`.
pub struct HeuristicStrategy;

impl Strategy for HeuristicStrategy {
    fn train(&mut self, bars: &[Bar]) -> (r: Result<(), StrategyError>)
        ensures
            r is Ok,
    {
        Ok(())
    }

    fn decide(&self, last: &Bar) -> (go_long: bool)
        ensures
            go_long == (last.close > last.open),
    {
        fallback_decide(last)
    }
}

} // verus!
