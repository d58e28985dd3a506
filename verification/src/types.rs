//! The engine's data model: bars, orders, trades, portfolio records,
//! metrics and the engine configuration, all in fixed-point integers.

use crate::{FRAC_SCALE, PRICE_CAP, PRICE_MIN};
use vstd::prelude::*;

verus! {

/// A tradeable instrument and its contract parameters, in fixed-point.
#[derive(Clone, Debug)]
pub struct Asset {
    pub symbol: String,
    /// Smallest tradeable quantity, in quantity ticks.
    pub lot_size: u64,
    /// Smallest price increment, in price ticks.
    pub tick_size: u64,
}

/// One OHLCV observation for a symbol over a fixed interval. Prices are in
/// price ticks (see `PRICE_SCALE`), the timestamp in milliseconds since the
/// Unix epoch.
#[derive(Debug, PartialEq)]
pub struct Bar {
    pub ts: u64,
    pub open: u64,
    pub high: u64,
    pub low: u64,
    pub close: u64,
    pub volume: u64,
    pub symbol: String,
}

/// The shape every bar the generator hands to the simulation loop has: the
/// high bounds both open and close from above, the low from below, volume
/// is positive, and open and close lie in the admissible price band.
pub open spec fn bar_valid(b: Bar) -> bool {
    &&& PRICE_MIN <= b.open <= PRICE_CAP
    &&& PRICE_MIN <= b.close <= PRICE_CAP
    &&& b.open <= b.high
    &&& b.close <= b.high
    &&& b.high <= 2 * PRICE_CAP
    &&& b.low <= b.open
    &&& b.low <= b.close
    &&& b.volume > 0
}

/// The executable form of `bar_valid`, for hosts that take bars from
/// somewhere other than the verified generator and must guard before
/// handing them to functions that require validity.
pub fn is_valid_bar(b: &Bar) -> (r: bool)
    ensures
        r == bar_valid(*b),
{
    PRICE_MIN <= b.open && b.open <= PRICE_CAP && PRICE_MIN <= b.close && b.close <= PRICE_CAP
        && b.open <= b.high && b.close <= b.high && b.high <= 2 * PRICE_CAP && b.low <= b.open
        && b.low <= b.close && b.volume > 0
}

impl Clone for Bar {
    fn clone(&self) -> (res: Self)
        ensures
            res == *self,
    {
        Bar {
            ts: self.ts,
            open: self.open,
            high: self.high,
            low: self.low,
            close: self.close,
            volume: self.volume,
            symbol: self.symbol.clone(),
        }
    }
}

/// Which way an order trades.
#[derive(Clone, Copy, Debug, PartialEq, Eq, Structural)]
pub enum Side {
    Buy,
    Sell,
}

/// The only order type the loop places: full-notional market orders.
#[derive(Clone, Copy, Debug, PartialEq, Eq, Structural)]
pub enum OrderType {
    Market,
}

/// A side-effect record of a position transition; not matched against any
/// order book. Quantity is in quantity ticks.
#[derive(Debug, PartialEq)]
pub struct Order {
    pub id: u64,
    pub symbol: String,
    pub side: Side,
    pub qty: u64,
    pub ty: OrderType,
}

impl Clone for Order {
    fn clone(&self) -> (res: Self)
        ensures
            res == *self,
    {
        Order {
            id: self.id,
            symbol: self.symbol.clone(),
            side: self.side,
            qty: self.qty,
            ty: self.ty,
        }
    }
}

/// A fill record, reserved for future fill modeling; the current loop never
/// produces one.
#[derive(Debug, PartialEq)]
pub struct Trade {
    pub order_id: u64,
    pub price: u64,
    pub qty: u64,
    pub symbol: String,
    pub ts: u64,
}

impl Clone for Trade {
    fn clone(&self) -> (res: Self)
        ensures
            res == *self,
    {
        Trade {
            order_id: self.order_id,
            price: self.price,
            qty: self.qty,
            symbol: self.symbol.clone(),
            ts: self.ts,
        }
    }
}

/// An open position in one instrument, in fixed-point ticks.
#[derive(Clone, Debug)]
pub struct Position {
    pub symbol: String,
    pub qty: u64,
    pub avg_price: u64,
    pub unrealized_pnl: i64,
}

/// Cash plus open positions. The simulation loop tracks its single-symbol
/// position as scalar state instead of materializing one of these.
#[derive(Clone, Debug)]
pub struct Portfolio {
    pub cash: u64,
    pub positions: Vec<Position>,
    pub equity: u64,
}

impl Default for Portfolio {
    fn default() -> (p: Self)
        ensures
            p.cash == 0,
            p.positions@.len() == 0,
            p.equity == 0,
    {
        Portfolio { cash: 0, positions: Vec::new(), equity: 0 }
    }
}

/// A per-tick performance snapshot. `max_drawdown` and `win_rate` are
/// fractions of `FRAC_SCALE`; `sharpe` is reserved and always zero until a
/// returns-series implementation lands.
#[derive(Clone, Copy, Debug, PartialEq, Eq, Structural)]
pub struct Metrics {
    pub pnl: i128,
    pub max_drawdown: u64,
    pub sharpe: i64,
    pub win_rate: u64,
    pub trades: u64,
}

/// The bounds every emitted metrics snapshot satisfies: both fractions lie
/// in `[0, FRAC_SCALE]`, the win rate is zero before the first closed
/// trade, and the sharpe placeholder is zero.
pub open spec fn metrics_wf(m: Metrics) -> bool {
    &&& m.max_drawdown <= FRAC_SCALE
    &&& m.win_rate <= FRAC_SCALE
    &&& m.trades == 0 ==> m.win_rate == 0
    &&& m.sharpe == 0
}

/// What a run replays: a fresh synthetic walk, a historical segment, or a
/// walk-forward evaluation. The current loop treats all three alike.
#[derive(Clone, Copy, Debug, PartialEq, Eq, Structural)]
pub enum Mode {
    Simulate,
    Backtest,
    Forwardtest,
}

/// Immutable launch parameters for one engine run. `train_split` is a
/// fraction of `FRAC_SCALE`; `starting_cash` is in money ticks.
#[derive(Clone, Debug)]
pub struct EngineConfig {
    pub symbols: Vec<String>,
    pub bar_interval_ms: u64,
    pub length_bars: usize,
    pub rf_trees: usize,
    pub rf_max_depth: usize,
    pub train_split: u32,
    pub mode: Mode,
    pub starting_cash: u64,
}

} // verus!
