//! Scalar portfolio state of one simulation run, and the two halves of the
//! per-bar transition: the position decision and the mark-to-market with
//! its metrics snapshot.

use crate::types::{bar_valid, Bar, Metrics, Order, OrderType, Side};
use crate::{FRAC_SCALE, MONEY_CAP, PRICE_CAP, PRICE_SCALE, QTY_SCALE};
use vstd::prelude::*;

verus! {

/// The loop's scalar portfolio state: a single symbol, a single position.
/// Cash, equity and the peak are in money ticks, the quantity in quantity
/// ticks, realized P&L in signed money ticks.
#[derive(Clone, Copy, Debug, PartialEq, Eq, Structural)]
pub struct SimState {
    pub cash: u64,
    pub qty: u64,
    pub entry_price: u64,
    pub wins: u64,
    pub losses: u64,
    pub pnl: i128,
    pub equity: u64,
    pub peak_equity: u64,
}

/// Ten percent of the cash on hand: what one entry spends.
pub open spec fn spend_of(cash: u64) -> int {
    cash as int / 10
}

/// The quantity ticks one entry buys at `close`: the spend converted at
/// the bar's close, rounded down.
pub open spec fn buy_qty(cash: u64, close: u64) -> int {
    spend_of(cash) * (QTY_SCALE as int) / (close as int)
}

/// The mark-to-market value of a position at `close`, in money ticks.
pub open spec fn position_value(qty: u64, close: u64) -> int {
    (qty as int) * (close as int) / (QTY_SCALE as int)
}

/// What the open position originally cost, in money ticks.
pub open spec fn position_cost(qty: u64, entry: u64) -> int {
    (qty as int) * (entry as int) / (QTY_SCALE as int)
}

/// Money amounts saturate at `MONEY_CAP` so every product along the way
/// fits its machine type; below the cap this is the identity.
pub open spec fn cap_money(v: int) -> int {
    if v > MONEY_CAP as int {
        MONEY_CAP as int
    } else {
        v
    }
}

/// Equity is cash plus the mark-to-market value of the open position,
/// saturated at `MONEY_CAP`.
pub open spec fn equity_of(cash: u64, qty: u64, close: u64) -> int {
    cap_money(cash as int + position_value(qty, close))
}

/// The fractional decline of equity from its running peak, in ticks of
/// `FRAC_SCALE`; the divisor is floored at one whole currency unit.
pub open spec fn drawdown_ticks(peak: u64, equity: u64) -> int {
    (peak as int - equity as int) * (FRAC_SCALE as int) / (if peak as int > PRICE_SCALE as int {
        peak as int
    } else {
        PRICE_SCALE as int
    })
}

/// The fraction of closed trades with non-negative realized P&L, in ticks
/// of `FRAC_SCALE`; zero before the first closed trade.
pub open spec fn win_rate_ticks(wins: u64, losses: u64) -> int {
    if wins as int + losses as int > 0 {
        (wins as int) * (FRAC_SCALE as int) / (wins as int + losses as int)
    } else {
        0
    }
}

/// The invariant every reachable simulation state satisfies: money values
/// under the cap, the equity never above its peak, the open position's
/// cost bounded, and the realized P&L bounded by the closed-trade count.
pub open spec fn state_wf(s: SimState) -> bool {
    &&& s.cash <= MONEY_CAP
    &&& s.equity <= MONEY_CAP
    &&& s.peak_equity <= MONEY_CAP
    &&& s.equity <= s.peak_equity
    &&& s.entry_price <= PRICE_CAP
    &&& (s.qty as int) * (s.entry_price as int) <= (MONEY_CAP as int) * (QTY_SCALE as int)
    &&& -((s.wins as int + s.losses as int) * (MONEY_CAP as int)) <= s.pnl as int
    &&& s.pnl as int <= (s.wins as int + s.losses as int) * (MONEY_CAP as int)
}

impl SimState {
    /// A fresh portfolio: all cash, no position, no closed trades, the
    /// equity peak at the starting cash.
    pub fn new(starting_cash: u64) -> (s: SimState)
        requires
            starting_cash <= MONEY_CAP,
        ensures
            state_wf(s),
            s.cash == starting_cash,
            s.qty == 0,
            s.entry_price == 0,
            s.wins == 0,
            s.losses == 0,
            s.pnl == 0,
            s.equity == starting_cash,
            s.peak_equity == starting_cash,
    {
        SimState {
            cash: starting_cash,
            qty: 0,
            entry_price: 0,
            wins: 0,
            losses: 0,
            pnl: 0,
            equity: starting_cash,
            peak_equity: starting_cash,
        }
    }
}

/// The equity identity: wherever the money cap is not hit, the marked
/// equity is exactly cash plus the position's value at the close.
pub proof fn lemma_equity_identity(cash: u64, qty: u64, close: u64)
    requires
        cash as int + position_value(qty, close) <= MONEY_CAP as int,
    ensures
        equity_of(cash, qty, close) == cash as int + position_value(qty, close),
{
}

/// The drawdown law: as long as equity has not passed its peak, the
/// drawdown fraction lies in `[0, FRAC_SCALE]` — that is, in `[0, 1]`.
pub proof fn lemma_drawdown_bounds(peak: u64, equity: u64)
    requires
        equity <= peak,
    ensures
        0 <= drawdown_ticks(peak, equity) <= FRAC_SCALE,
{
    let gap = peak as int - equity as int;
    let denom = if peak as int > PRICE_SCALE as int {
        peak as int
    } else {
        PRICE_SCALE as int
    };
    assert(0 <= gap * (FRAC_SCALE as int) / denom <= FRAC_SCALE) by (nonlinear_arith)
        requires
            0 <= gap <= denom,
            denom >= 1,
            FRAC_SCALE >= 1,
    ;
}

/// The win-rate law: for every pair of counters the rate lies in
/// `[0, FRAC_SCALE]`, and it is zero whenever no trade has closed.
pub proof fn lemma_win_rate_bounds(wins: u64, losses: u64)
    ensures
        0 <= win_rate_ticks(wins, losses) <= FRAC_SCALE,
        wins as int + losses as int == 0 ==> win_rate_ticks(wins, losses) == 0,
{
    if wins as int + losses as int > 0 {
        assert(0 <= (wins as int) * (FRAC_SCALE as int) / (wins as int + losses as int)
            <= FRAC_SCALE) by (nonlinear_arith)
            requires
                0 <= wins as int <= wins as int + losses as int,
                wins as int + losses as int >= 1,
                FRAC_SCALE >= 1,
        ;
    }
}

/// Whether this tick enters a long position: the strategy wants long and
/// the portfolio is flat.
pub open spec fn enters_long(s: SimState, go_long: bool) -> bool {
    go_long && s.qty == 0
}

/// Whether this tick liquidates: the strategy wants flat and a position is
/// open.
pub open spec fn exits_long(s: SimState, go_long: bool) -> bool {
    !go_long && s.qty > 0
}

/// The position transition of one tick. Entering spends ten percent of
/// cash at the bar's close and records the entry price; exiting sells the
/// whole position at the close, realizes the P&L into the win/loss
/// counters, and returns the proceeds to cash (saturated at `MONEY_CAP`).
/// The emitted Sell order reports a quantity of zero — the liquidated
/// amount is deliberately not populated, reproducing the engine's wire
/// behaviour rather than correcting it.
pub fn apply_decision(s: &mut SimState, bar: &Bar, go_long: bool, symbol: &String) -> (order:
    Option<Order>)
    requires
        state_wf(*old(s)),
        bar_valid(*bar),
        (old(s).wins as int) + (old(s).losses as int) < u64::MAX as int,
    ensures
        state_wf(*final(s)),
        final(s).equity == old(s).equity,
        final(s).peak_equity == old(s).peak_equity,
        final(s).wins as int + final(s).losses as int <= old(s).wins as int + old(
            s,
        ).losses as int + 1,
        enters_long(*old(s), go_long) ==> {
            &&& final(s).cash == old(s).cash as int - spend_of(old(s).cash)
            &&& final(s).qty == buy_qty(old(s).cash, bar.close)
            &&& final(s).entry_price == bar.close
            &&& final(s).pnl == old(s).pnl
            &&& final(s).wins == old(s).wins
            &&& final(s).losses == old(s).losses
            &&& order matches Some(o) && o.id == 0 && o.symbol == *symbol && o.side == Side::Buy
                && o.qty == final(s).qty && o.ty == OrderType::Market
        },
        exits_long(*old(s), go_long) ==> {
            let proceeds = cap_money(position_value(old(s).qty, bar.close));
            let cost = position_cost(old(s).qty, old(s).entry_price);
            &&& final(s).cash == cap_money(old(s).cash as int + proceeds)
            &&& final(s).qty == 0
            &&& final(s).entry_price == old(s).entry_price
            &&& final(s).pnl == old(s).pnl as int + proceeds - cost
            &&& (proceeds >= cost ==> final(s).wins == old(s).wins as int + 1 && final(s).losses
                == old(s).losses)
            &&& (proceeds < cost ==> final(s).losses == old(s).losses as int + 1 && final(s).wins
                == old(s).wins)
            &&& order matches Some(o) && o.id == 0 && o.symbol == *symbol && o.side == Side::Sell
                && o.qty == 0 && o.ty == OrderType::Market
        },
        !enters_long(*old(s), go_long) && !exits_long(*old(s), go_long) ==> {
            &&& *final(s) == *old(s)
            &&& order is None
        },
{
    if go_long && s.qty == 0 {
        let spend = s.cash / 10;
        proof {
            assert((spend as int) * (QTY_SCALE as int) <= (MONEY_CAP as int) * (
            QTY_SCALE as int)) by (nonlinear_arith)
                requires
                    spend <= MONEY_CAP,
            ;
            assert((spend as int) * (QTY_SCALE as int) / (bar.close as int) <= (spend as int) * (
            QTY_SCALE as int)) by (nonlinear_arith)
                requires
                    bar.close >= 1,
                    (spend as int) * (QTY_SCALE as int) >= 0,
            ;
        }
        let qty = (((spend as u128) * (QTY_SCALE as u128)) / (bar.close as u128)) as u64;
        proof {
            assert((qty as int) * (bar.close as int) <= (spend as int) * (QTY_SCALE as int))
                by (nonlinear_arith)
                requires
                    qty == (spend as int) * (QTY_SCALE as int) / (bar.close as int),
                    bar.close >= 1,
                    (spend as int) * (QTY_SCALE as int) >= 0,
            ;
        }
        s.cash = s.cash - spend;
        s.qty = qty;
        s.entry_price = bar.close;
        Some(
            Order {
                id: 0,
                symbol: symbol.clone(),
                side: Side::Buy,
                qty,
                ty: OrderType::Market,
            },
        )
    } else if !go_long && s.qty > 0 {
        proof {
            assert((s.qty as int) * (bar.close as int) < u128::MAX) by (nonlinear_arith)
                requires
                    s.qty <= u64::MAX,
                    bar.close <= u64::MAX,
            ;
            assert((s.qty as int) * (s.entry_price as int) / (QTY_SCALE as int) <= MONEY_CAP)
                by (nonlinear_arith)
                requires
                    (s.qty as int) * (s.entry_price as int) <= (MONEY_CAP as int) * (
                    QTY_SCALE as int),
                    QTY_SCALE >= 1,
            ;
        }
        let raw = ((s.qty as u128) * (bar.close as u128)) / (QTY_SCALE as u128);
        let proceeds: u64 = if raw > MONEY_CAP as u128 {
            MONEY_CAP
        } else {
            raw as u64
        };
        let cost = (((s.qty as u128) * (s.entry_price as u128)) / (QTY_SCALE as u128)) as u64;
        let trade_pnl = proceeds as i128 - cost as i128;
        proof {
            assert(-((s.wins as int + s.losses as int + 1) * (MONEY_CAP as int)) <= s.pnl as int
                + trade_pnl as int <= (s.wins as int + s.losses as int + 1) * (MONEY_CAP as int))
                by (nonlinear_arith)
                requires
                    -((s.wins as int + s.losses as int) * (MONEY_CAP as int)) <= s.pnl as int,
                    s.pnl as int <= (s.wins as int + s.losses as int) * (MONEY_CAP as int),
                    -(MONEY_CAP as int) <= trade_pnl as int <= MONEY_CAP as int,
            ;
            assert((s.wins as int + s.losses as int + 1) * (MONEY_CAP as int) < i128::MAX as int)
                by (nonlinear_arith)
                requires
                    (s.wins as int) + (s.losses as int) + 1 <= 18446744073709551615,
            ;
        }
        s.pnl = s.pnl + trade_pnl;
        if trade_pnl >= 0 {
            s.wins = s.wins + 1;
        } else {
            s.losses = s.losses + 1;
        }
        let cash128 = s.cash as u128 + proceeds as u128;
        s.cash = if cash128 > MONEY_CAP as u128 {
            MONEY_CAP
        } else {
            cash128 as u64
        };
        s.qty = 0;
        Some(
            Order {
                id: 0,
                symbol: symbol.clone(),
                side: Side::Sell,
                qty: 0,
                ty: OrderType::Market,
            },
        )
    } else {
        None
    }
}

/// Recomputes the equity at the bar's close, advances the running peak,
/// and takes the metrics snapshot of this tick. The equity identity —
/// equity equals cash plus quantity times close (saturated at the money
/// cap) — and the bounds on drawdown and win rate are part of the
/// contract; the peak never decreases.
pub fn mark_to_market(s: &mut SimState, bar: &Bar) -> (m: Metrics)
    requires
        state_wf(*old(s)),
        bar_valid(*bar),
        (old(s).wins as int) + (old(s).losses as int) <= u64::MAX as int,
    ensures
        state_wf(*final(s)),
        final(s).cash == old(s).cash,
        final(s).qty == old(s).qty,
        final(s).entry_price == old(s).entry_price,
        final(s).wins == old(s).wins,
        final(s).losses == old(s).losses,
        final(s).pnl == old(s).pnl,
        final(s).equity == equity_of(old(s).cash, old(s).qty, bar.close),
        final(s).peak_equity == if final(s).equity > old(s).peak_equity {
            final(s).equity as int
        } else {
            old(s).peak_equity as int
        },
        final(s).peak_equity >= old(s).peak_equity,
        m.pnl == final(s).pnl,
        m.max_drawdown == drawdown_ticks(final(s).peak_equity, final(s).equity),
        m.max_drawdown <= FRAC_SCALE,
        m.sharpe == 0,
        m.win_rate == win_rate_ticks(final(s).wins, final(s).losses),
        m.win_rate <= FRAC_SCALE,
        m.trades == final(s).wins as int + final(s).losses as int,
        m.trades == 0 ==> m.win_rate == 0,
{
    proof {
        assert((s.qty as int) * (bar.close as int) < u128::MAX) by (nonlinear_arith)
            requires
                s.qty <= u64::MAX,
                bar.close <= u64::MAX,
        ;
    }
    let value128 = ((s.qty as u128) * (bar.close as u128)) / (QTY_SCALE as u128);
    proof {
        assert((s.qty as int) * (bar.close as int) / (QTY_SCALE as int) + (s.cash as int)
            < u128::MAX as int) by (nonlinear_arith)
            requires
                s.qty <= u64::MAX,
                bar.close <= u64::MAX,
                s.cash <= MONEY_CAP,
                QTY_SCALE >= 1,
        ;
    }
    let eq128 = s.cash as u128 + value128;
    let equity: u64 = if eq128 > MONEY_CAP as u128 {
        MONEY_CAP
    } else {
        eq128 as u64
    };
    s.equity = equity;
    if equity > s.peak_equity {
        s.peak_equity = equity;
    }
    let peak = s.peak_equity;
    let denom = if peak > PRICE_SCALE {
        peak
    } else {
        PRICE_SCALE
    };
    let gap = peak - equity;
    proof {
        assert((gap as int) * (FRAC_SCALE as int) < u128::MAX) by (nonlinear_arith)
            requires
                gap <= u64::MAX,
        ;
        assert((gap as int) * (FRAC_SCALE as int) / (denom as int) <= FRAC_SCALE)
            by (nonlinear_arith)
            requires
                gap <= denom,
                denom >= 1,
        ;
    }
    let dd = (((gap as u128) * (FRAC_SCALE as u128)) / (denom as u128)) as u64;
    let trades = s.wins + s.losses;
    proof {
        assert((s.wins as int) * (FRAC_SCALE as int) < u128::MAX) by (nonlinear_arith)
            requires
                s.wins <= u64::MAX,
        ;
        assert(trades > 0 ==> (s.wins as int) * (FRAC_SCALE as int) / (trades as int)
            <= FRAC_SCALE) by (nonlinear_arith)
            requires
                s.wins <= trades,
        ;
    }
    let wr: u64 = if trades > 0 {
        (((s.wins as u128) * (FRAC_SCALE as u128)) / (trades as u128)) as u64
    } else {
        0
    };
    Metrics { pnl: s.pnl, max_drawdown: dd, sharpe: 0, win_rate: wr, trades }
}

} // verus!
