//! Synthetic market data: a clamped geometric random walk over fixed-point
//! prices, and the temporal train/test split.

use crate::types::{bar_valid, Bar};
use crate::{PRICE_CAP, PRICE_MIN, PRICE_SCALE};
use vstd::prelude::*;

verus! {

/// Smallest random volume of a generated bar.
pub const VOLUME_MIN: u64 = 1_000;

/// One past the largest random volume of a generated bar.
pub const VOLUME_MAX: u64 = 10_000;

/// Ceiling on the clock reading the generator will use as its first
/// timestamp; far beyond any real clock, it only serves to keep timestamp
/// arithmetic within `u64`.
pub const CLOCK_CAP: u64 = 17_000_000_000_000_000_000;

/// Ceiling on `count * interval_ms`, the millisecond span of one generated
/// sequence; `CLOCK_CAP + MAX_SPAN_MS` still fits in `u64`.
pub const MAX_SPAN_MS: u64 = 1_000_000_000_000_000_000;

/// Relies on `rand::Rng::gen_range` over a half-open integer range with
/// `rand::thread_rng`: the draw is some value in `[lo, hi)`. The call
/// panics on an empty range, which the precondition rules out; nothing is
/// promised beyond the bounds, since the draw is random.
#[verifier::external_body]
fn rand_u64_in(lo: u64, hi: u64) -> (r: u64)
    requires
        lo < hi,
    ensures
        lo <= r < hi,
{
    rand::Rng::gen_range(&mut rand::thread_rng(), lo..hi)
}

/// The highest close one walk step can produce from `open`: the envelope
/// `open * (1 + vol)` at the fixed-point scale. The hard floor and the
/// price cap both keep the close inside this bound.
pub open spec fn walk_step_max(open: u64, vol: u64) -> int {
    (open as int) * (PRICE_SCALE as int + vol as int) / (PRICE_SCALE as int)
}

/// The lowest close one walk step can produce from `open`: the envelope
/// `open * (1 - vol)` at the fixed-point scale, before the hard floor of
/// `PRICE_MIN` (which only raises the close) is applied.
pub open spec fn walk_step_min(open: u64, vol: u64) -> int {
    (open as int) * (PRICE_SCALE as int - vol as int) / (PRICE_SCALE as int)
}

/// Relies on `chrono::Utc::now` and `DateTime::timestamp_millis`:
/// milliseconds since the Unix epoch by the system clock. The clock may
/// read anything, so nothing is promised of the value. `Utc::now` panics
/// only on a system clock set before 1970 or past the far future edge of
/// chrono's representable range.
#[verifier::external_body]
fn now_unix_millis() -> (t: i64) {
    chrono::Utc::now().timestamp_millis()
}

/// Produces `count` bars of a discrete geometric random walk starting at
/// `start_price`. Each step draws a return in `[-vol, vol)` ticks of
/// `PRICE_SCALE`; the close is clamped to `[PRICE_MIN, PRICE_CAP]`, the
/// high and low pad the open/close envelope by a fresh draw in `[0, vol)`,
/// and timestamps advance by `interval_ms` from the current clock. Two
/// calls never reproduce the same path: the randomness is not seeded.
pub fn generate_synthetic_bars(
    symbol: &str,
    start_price: u64,
    interval_ms: u64,
    count: usize,
    vol: u64,
) -> (bars: Vec<Bar>)
    requires
        PRICE_MIN <= start_price <= PRICE_CAP,
        1 <= vol <= PRICE_SCALE,
        1 <= interval_ms,
        count * interval_ms <= MAX_SPAN_MS,
    ensures
        bars@.len() == count,
        forall|i: int| 0 <= i < count ==> bar_valid(#[trigger] bars@[i]),
        forall|i: int| 0 <= i < count ==> (#[trigger] bars@[i]).symbol@ == symbol@,
        forall|i: int|
            0 <= i < count ==> VOLUME_MIN <= (#[trigger] bars@[i]).volume < VOLUME_MAX,
        forall|i: int, j: int| 0 <= i < j < count ==> bars@[i].ts < bars@[j].ts,
        forall|i: int| 1 <= i < count ==> (#[trigger] bars@[i]).ts == bars@[i - 1].ts
            + interval_ms,
        count > 0 ==> bars@[0].open == start_price,
        forall|i: int| 1 <= i < count ==> (#[trigger] bars@[i]).open == bars@[i - 1].close,
        forall|i: int|
            0 <= i < count ==> (#[trigger] bars@[i]).close <= walk_step_max(bars@[i].open, vol),
        forall|i: int|
            0 <= i < count ==> (#[trigger] bars@[i]).close >= walk_step_min(bars@[i].open, vol),
{
    let mut bars: Vec<Bar> = Vec::new();
    let t_raw = now_unix_millis();
    let mut ts: u64 = if t_raw < 0 {
        0
    } else if t_raw as u64 > CLOCK_CAP {
        CLOCK_CAP
    } else {
        t_raw as u64
    };
    let mut price = start_price;
    let ghost t0 = ts;
    let mut i: usize = 0;
    while i < count
        invariant
            i <= count,
            bars@.len() == i,
            PRICE_MIN <= start_price <= PRICE_CAP,
            1 <= vol <= PRICE_SCALE,
            1 <= interval_ms,
            count * interval_ms <= MAX_SPAN_MS,
            t0 <= CLOCK_CAP,
            ts == t0 + i * interval_ms,
            PRICE_MIN <= price <= PRICE_CAP,
            i == 0 ==> price == start_price,
            i > 0 ==> price == bars@[i - 1].close,
            forall|k: int| 0 <= k < i ==> bar_valid(#[trigger] bars@[k]),
            forall|k: int| 0 <= k < i ==> (#[trigger] bars@[k]).symbol@ == symbol@,
            forall|k: int|
                0 <= k < i ==> VOLUME_MIN <= (#[trigger] bars@[k]).volume < VOLUME_MAX,
            forall|k: int| 0 <= k < i ==> (#[trigger] bars@[k]).ts < ts,
            forall|k: int| 0 <= k < i ==> (#[trigger] bars@[k]).ts == t0 + k * interval_ms,
            forall|k: int, j: int| 0 <= k < j < i ==> bars@[k].ts < bars@[j].ts,
            count > 0 && i > 0 ==> bars@[0].open == start_price,
            forall|k: int| 1 <= k < i ==> (#[trigger] bars@[k]).open == bars@[k - 1].close,
            forall|k: int|
                0 <= k < i ==> (#[trigger] bars@[k]).close <= walk_step_max(bars@[k].open, vol),
            forall|k: int|
                0 <= k < i ==> (#[trigger] bars@[k]).close >= walk_step_min(bars@[k].open, vol),
        decreases count - i,
    {
        let ret_draw = rand_u64_in(0, 2 * vol);
        let open = price;
        // multiplier in [PRICE_SCALE - vol, PRICE_SCALE + vol), i.e. 1 + r
        // for a return r in [-vol, vol) ticks of the scale
        let mult = PRICE_SCALE - vol + ret_draw;
        assert(open * mult <= PRICE_CAP * (2 * PRICE_SCALE)) by (nonlinear_arith)
            requires
                open <= PRICE_CAP,
                mult < 2 * PRICE_SCALE,
        ;
        let close_raw = (open * mult) / PRICE_SCALE;
        proof {
            let o = open as int;
            let sc = PRICE_SCALE as int;
            let v = vol as int;
            let m = mult as int;
            assert(o * (sc - v) <= o * m && o * m <= o * (sc + v)) by (nonlinear_arith)
                requires
                    0 <= o,
                    sc - v <= m <= sc + v,
            ;
            assert(o * (sc - v) / sc <= o * m / sc && o * m / sc <= o * (sc + v) / sc)
                by (nonlinear_arith)
                requires
                    o * (sc - v) <= o * m,
                    o * m <= o * (sc + v),
                    sc >= 1,
            ;
            assert(o * (sc + v) / sc >= o && o * (sc - v) / sc <= o && o * (sc - v) / sc >= 0)
                by (nonlinear_arith)
                requires
                    o >= 0,
                    0 <= v <= sc,
                    sc >= 1,
            ;
        }
        let close = if close_raw < PRICE_MIN {
            PRICE_MIN
        } else if close_raw > PRICE_CAP {
            PRICE_CAP
        } else {
            close_raw
        };
        proof {
            assert(close <= walk_step_max(open, vol) && close >= walk_step_min(open, vol));
        }
        let hi_draw = rand_u64_in(0, vol);
        let base_hi = if open > close {
            open
        } else {
            close
        };
        assert(base_hi * (PRICE_SCALE + hi_draw) <= PRICE_CAP * (2 * PRICE_SCALE))
            by (nonlinear_arith)
            requires
                base_hi <= PRICE_CAP,
                hi_draw < PRICE_SCALE,
        ;
        let high = (base_hi * (PRICE_SCALE + hi_draw)) / PRICE_SCALE;
        assert(high >= base_hi && high <= 2 * PRICE_CAP) by (nonlinear_arith)
            requires
                high == (base_hi * (PRICE_SCALE + hi_draw)) / (PRICE_SCALE as int),
                base_hi <= PRICE_CAP,
                hi_draw < PRICE_SCALE,
                PRICE_SCALE > 0,
        ;
        let lo_draw = rand_u64_in(0, vol);
        let base_lo = if open < close {
            open
        } else {
            close
        };
        assert(base_lo * (PRICE_SCALE - lo_draw) <= PRICE_CAP * PRICE_SCALE) by (nonlinear_arith)
            requires
                base_lo <= PRICE_CAP,
                lo_draw < PRICE_SCALE,
        ;
        let low = (base_lo * (PRICE_SCALE - lo_draw)) / PRICE_SCALE;
        assert(low <= base_lo) by (nonlinear_arith)
            requires
                low == (base_lo * (PRICE_SCALE - lo_draw)) / (PRICE_SCALE as int),
                lo_draw < PRICE_SCALE,
                PRICE_SCALE > 0,
        ;
        let volume = rand_u64_in(VOLUME_MIN, VOLUME_MAX);
        bars.push(
            Bar { ts, open, high, low, close, volume, symbol: symbol.to_owned() },
        );
        assert(i * interval_ms + interval_ms <= count * interval_ms) by (nonlinear_arith)
            requires
                i + 1 <= count,
                interval_ms >= 1,
        ;
        assert(i * interval_ms + interval_ms == (i + 1) * interval_ms) by (nonlinear_arith);
        ts = ts + interval_ms;
        price = close;
        i = i + 1;
    }
    proof {
        assert forall|i2: int|
            1 <= i2 < count implies (#[trigger] bars@[i2]).ts == bars@[i2 - 1].ts
            + interval_ms by {
            assert(bars@[i2].ts == t0 + i2 * interval_ms);
            assert(bars@[i2 - 1].ts == t0 + (i2 - 1) * interval_ms);
            assert(i2 * interval_ms == (i2 - 1) * interval_ms + interval_ms) by (nonlinear_arith);
        }
    }
    bars
}

/// The index where a sequence of `len` bars splits for a training fraction
/// of `split / FRAC_SCALE`: `len * split` rounded half-up at the scale,
/// clamped to `[0, len]`.
pub open spec fn split_index(len: int, split: int) -> int {
    let raw = (len * split + 5_000) / 10_000;
    if raw > len {
        len
    } else {
        raw
    }
}

/// Partitions `bars` into a leading training segment and a trailing
/// evaluation segment at `split_index`. No shuffling: temporal order is
/// preserved, and the two views cover the input exactly.
pub fn train_test_split<'a>(bars: &'a [Bar], split: u32) -> (r: (&'a [Bar], &'a [Bar]))
    ensures
        r.0@.len() == split_index(bars@.len() as int, split as int),
        r.0@.len() + r.1@.len() == bars@.len(),
        r.0@ == bars@.subrange(0, split_index(bars@.len() as int, split as int)),
        r.1@ == bars@.subrange(split_index(bars@.len() as int, split as int), bars@.len() as int),
        r.0@ + r.1@ == bars@,
{
    let len = bars.len();
    assert((len as int) * (split as int) + 5_000 < u128::MAX) by (nonlinear_arith)
        requires
            len <= u64::MAX,
            split <= u32::MAX,
    ;
    let num = (len as u128) * (split as u128) + 5_000;
    let raw = num / 10_000;
    let idx: usize = if raw > len as u128 {
        len
    } else {
        raw as usize
    };
    let train = vstd::slice::slice_subrange(bars, 0, idx);
    let test = vstd::slice::slice_subrange(bars, idx, len);
    proof {
        assert(bars@.subrange(0, idx as int) + bars@.subrange(idx as int, bars@.len() as int)
            =~= bars@);
    }
    (train, test)
}

} // verus!
