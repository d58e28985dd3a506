//! The simulation engine: the event stream and its ordering grammar, the
//! channel endpoints toward consumers, the per-tick event assembly, and
//! the bar-by-bar run loop with its cooperative stop.

use crate::data::{generate_synthetic_bars, train_test_split};
use crate::sim::{
    apply_decision, buy_qty, cap_money, drawdown_ticks, enters_long, equity_of, exits_long,
    mark_to_market, position_cost, position_value, spend_of, state_wf, win_rate_ticks, SimState,
};
use crate::strategy::Strategy;
use crate::types::{bar_valid, metrics_wf, Bar, EngineConfig, Order, OrderType, Side};
use crate::MONEY_CAP;
use vstd::prelude::*;

verus! {

/// The price the synthetic walk of a run starts from: one hundred
/// currency units, in price ticks.
pub const START_PRICE: u64 = 1_000_000;

/// The per-step volatility of a run's synthetic walk: one percent, in
/// ticks of `PRICE_SCALE`.
pub const RUN_VOL: u64 = 100;

/// Most bars one run will generate; a larger configured length is clamped
/// so that the generated timestamp span stays within bounds.
pub const MAX_RUN_BARS: usize = 1_000_000_000;

/// Longest bar interval a run will use, in milliseconds; a larger
/// configured interval is clamped for the same reason.
pub const MAX_INTERVAL_MS: u64 = 1_000_000_000;

/// Everything the loop emits, in emission order: an optional order, the
/// bar, and a metrics snapshot per tick, closed by exactly one `Done`.
#[derive(Debug, PartialEq)]
pub enum EngineEvent {
    Bar(Bar),
    Order(Order),
    Trade(crate::types::Trade),
    Metrics(crate::types::Metrics),
    Done,
}

impl Clone for EngineEvent {
    fn clone(&self) -> (res: Self)
        ensures
            res == *self,
    {
        match self {
            EngineEvent::Bar(b) => EngineEvent::Bar(b.clone()),
            EngineEvent::Order(o) => EngineEvent::Order(o.clone()),
            EngineEvent::Trade(t) => EngineEvent::Trade(t.clone()),
            EngineEvent::Metrics(m) => EngineEvent::Metrics(*m),
            EngineEvent::Done => EngineEvent::Done,
        }
    }
}

/// The one control signal a running engine accepts.
#[derive(Clone, Copy, Debug, PartialEq, Eq, Structural)]
pub enum EngineControl {
    Stop,
}

#[verifier::external_type_specification]
#[verifier::external_body]
#[verifier::reject_recursive_types(T)]
pub struct ExSender<T>(crossbeam_channel::Sender<T>);

#[verifier::external_type_specification]
#[verifier::external_body]
#[verifier::reject_recursive_types(T)]
pub struct ExReceiver<T>(crossbeam_channel::Receiver<T>);

/// The pair of endpoints a caller holds while an engine runs: a send-only
/// control endpoint and a receive-only event endpoint.
pub struct EngineHandle {
    pub tx_ctrl: crossbeam_channel::Sender<EngineControl>,
    pub rx_evt: crossbeam_channel::Receiver<EngineEvent>,
}

/// Relies on `crossbeam_channel::Sender::send`: queues the message on an
/// unbounded channel, failing only when every receiver is gone. Emission
/// is best-effort by design — a failed send is dropped and nothing is
/// promised — so the loop never stalls on an absent consumer.
#[verifier::external_body]
fn send_event(tx: &crossbeam_channel::Sender<EngineEvent>, e: EngineEvent) {
    let _ = tx.send(e);
}

/// Relies on `crossbeam_channel::Receiver::try_recv`: a non-blocking poll
/// that yields a queued message if one is present right now. Whether one
/// is depends on other threads, so nothing is promised of the outcome.
#[verifier::external_body]
fn try_recv_control(rx: &crossbeam_channel::Receiver<EngineControl>) -> (c: Option<EngineControl>) {
    rx.try_recv().ok()
}

/// A sequence of whole ticks: zero or more groups, each an optional order
/// followed by a bar and a metrics snapshot.
pub open spec fn tick_groups(s: Seq<EngineEvent>) -> bool
    decreases s.len(),
{
    if s.len() == 0 {
        true
    } else if s[0] is Order {
        &&& s.len() >= 3
        &&& s[1] is Bar
        &&& s[2] is Metrics
        &&& tick_groups(s.skip(3))
    } else {
        &&& s.len() >= 2
        &&& s[0] is Bar
        &&& s[1] is Metrics
        &&& tick_groups(s.skip(2))
    }
}

/// What one tick emits: a bar and a metrics snapshot, preceded by an
/// order exactly when the position changed.
pub open spec fn tick_shape(s: Seq<EngineEvent>) -> bool {
    ||| (s.len() == 2 && s[0] is Bar && s[1] is Metrics)
    ||| (s.len() == 3 && s[0] is Order && s[1] is Bar && s[2] is Metrics)
}

/// A complete run's event stream: whole ticks closed by a final `Done`.
pub open spec fn trace_wf(s: Seq<EngineEvent>) -> bool {
    &&& s.len() >= 1
    &&& s[s.len() - 1] is Done
    &&& tick_groups(s.take(s.len() - 1))
}

/// Appending one whole tick to a sequence of whole ticks yields a
/// sequence of whole ticks.
pub proof fn lemma_tick_groups_append(s: Seq<EngineEvent>, g: Seq<EngineEvent>)
    requires
        tick_groups(s),
        tick_shape(g),
    ensures
        tick_groups(s + g),
    decreases s.len(),
{
    if s.len() == 0 {
        assert(s + g =~= g);
        if g.len() == 2 {
            assert(g.skip(2) =~= Seq::<EngineEvent>::empty());
            assert(tick_groups(g.skip(2)));
        } else {
            assert(g.skip(3) =~= Seq::<EngineEvent>::empty());
            assert(tick_groups(g.skip(3)));
        }
        assert(tick_groups(g));
    } else if s[0] is Order {
        lemma_tick_groups_append(s.skip(3), g);
        assert((s + g).skip(3) =~= s.skip(3) + g);
        assert((s + g)[0] == s[0] && (s + g)[1] == s[1] && (s + g)[2] == s[2]);
        assert(tick_groups(s + g));
    } else {
        lemma_tick_groups_append(s.skip(2), g);
        assert((s + g).skip(2) =~= s.skip(2) + g);
        assert((s + g)[0] == s[0] && (s + g)[1] == s[1]);
        assert(tick_groups(s + g));
    }
}

/// Inside a sequence of whole ticks every event is an order, a bar or a
/// metrics snapshot — never a `Done`.
pub proof fn lemma_tick_groups_no_done(s: Seq<EngineEvent>)
    requires
        tick_groups(s),
    ensures
        forall|i: int| 0 <= i < s.len() ==> !((#[trigger] s[i]) is Done),
    decreases s.len(),
{
    if s.len() == 0 {
    } else if s[0] is Order {
        lemma_tick_groups_no_done(s.skip(3));
        assert forall|i: int| 0 <= i < s.len() implies !((#[trigger] s[i]) is Done) by {
            if i >= 3 {
                assert(s[i] == s.skip(3)[i - 3]);
            }
        }
    } else {
        lemma_tick_groups_no_done(s.skip(2));
        assert forall|i: int| 0 <= i < s.len() implies !((#[trigger] s[i]) is Done) by {
            if i >= 2 {
                assert(s[i] == s.skip(2)[i - 2]);
            }
        }
    }
}

/// The event-ordering law of a run: the stream matches whole ticks closed
/// by a terminal `Done`, and that `Done` is the only one.
pub proof fn lemma_trace_single_done(s: Seq<EngineEvent>)
    requires
        trace_wf(s),
    ensures
        s[s.len() - 1] is Done,
        forall|i: int| 0 <= i < s.len() - 1 ==> !((#[trigger] s[i]) is Done),
{
    lemma_tick_groups_no_done(s.take(s.len() - 1));
    assert forall|i: int| 0 <= i < s.len() - 1 implies !((#[trigger] s[i]) is Done) by {
        assert(s[i] == s.take(s.len() - 1)[i]);
    }
}

/// The characters of the symbol a run trades: the first configured
/// symbol, or the literal placeholder when the configuration names none.
pub open spec fn run_symbol(symbols: Seq<String>) -> Seq<char> {
    if symbols.len() > 0 {
        symbols[0]@
    } else {
        "SIM"@
    }
}

/// The symbol one run trades: the first configured symbol, or the literal
/// placeholder when the configuration names none.
pub fn active_symbol(symbols: &Vec<String>) -> (s: String)
    ensures
        symbols@.len() > 0 ==> s == symbols@[0],
        symbols@.len() == 0 ==> s@ == "SIM"@,
        s@ == run_symbol(symbols@),
{
    if symbols.len() > 0 {
        symbols[0].clone()
    } else {
        "SIM".to_owned()
    }
}

/// One tick of the simulation loop: the position transition at this bar,
/// the mark-to-market, and the events of the tick in emission order —
/// the order if one was placed, then the bar, then the metrics snapshot.
pub fn tick(s: &mut SimState, bar: &Bar, go_long: bool, symbol: &String) -> (events: Vec<
    EngineEvent>)
    requires
        state_wf(*old(s)),
        bar_valid(*bar),
        (old(s).wins as int) + (old(s).losses as int) < u64::MAX as int,
    ensures
        state_wf(*final(s)),
        (final(s).wins as int) + (final(s).losses as int)
            <= (old(s).wins as int) + (old(s).losses as int) + 1,
        final(s).wins >= old(s).wins,
        final(s).losses >= old(s).losses,
        final(s).peak_equity >= old(s).peak_equity,
        final(s).peak_equity == if final(s).equity > old(s).peak_equity {
            final(s).equity as int
        } else {
            old(s).peak_equity as int
        },
        final(s).equity == equity_of(final(s).cash, final(s).qty, bar.close),
        tick_shape(events@),
        events@.len() == if enters_long(*old(s), go_long) || exits_long(*old(s), go_long) {
            3int
        } else {
            2int
        },
        events@[events@.len() - 2] == EngineEvent::Bar(*bar),
        events@[events@.len() - 1] matches EngineEvent::Metrics(m) && metrics_wf(m)
            && m.pnl == final(s).pnl
            && m.max_drawdown == drawdown_ticks(final(s).peak_equity, final(s).equity)
            && m.win_rate == win_rate_ticks(final(s).wins, final(s).losses)
            && m.trades == (final(s).wins as int) + (final(s).losses as int),
        enters_long(*old(s), go_long) ==> {
            &&& events@[0] matches EngineEvent::Order(o) && o.id == 0 && o.symbol == *symbol
                && o.side == Side::Buy && o.qty == final(s).qty && o.ty == OrderType::Market
            &&& final(s).cash == old(s).cash as int - spend_of(old(s).cash)
            &&& final(s).qty == buy_qty(old(s).cash, bar.close)
            &&& final(s).entry_price == bar.close
            &&& final(s).pnl == old(s).pnl
            &&& final(s).wins == old(s).wins
            &&& final(s).losses == old(s).losses
        },
        exits_long(*old(s), go_long) ==> {
            let proceeds = cap_money(position_value(old(s).qty, bar.close));
            let cost = position_cost(old(s).qty, old(s).entry_price);
            &&& events@[0] matches EngineEvent::Order(o) && o.id == 0 && o.symbol == *symbol
                && o.side == Side::Sell && o.qty == 0 && o.ty == OrderType::Market
            &&& final(s).cash == cap_money(old(s).cash as int + proceeds)
            &&& final(s).qty == 0
            &&& final(s).pnl == old(s).pnl as int + proceeds - cost
            &&& (proceeds >= cost ==> final(s).wins == old(s).wins as int + 1 && final(s).losses
                == old(s).losses)
            &&& (proceeds < cost ==> final(s).losses == old(s).losses as int + 1 && final(s).wins
                == old(s).wins)
        },
        !enters_long(*old(s), go_long) && !exits_long(*old(s), go_long) ==> {
            &&& final(s).cash == old(s).cash
            &&& final(s).qty == old(s).qty
            &&& final(s).pnl == old(s).pnl
            &&& final(s).wins == old(s).wins
            &&& final(s).losses == old(s).losses
        },
{
    let order = apply_decision(s, bar, go_long, symbol);
    let m = mark_to_market(s, bar);
    let mut events: Vec<EngineEvent> = Vec::new();
    match order {
        Option::Some(o) => {
            events.push(EngineEvent::Order(o));
        },
        Option::None => {},
    }
    events.push(EngineEvent::Bar(bar.clone()));
    events.push(EngineEvent::Metrics(m));
    events
}

/// The engine: a pure marker whose `run` owns one simulation lifetime.
pub struct Engine;

impl Engine {
    /// One complete simulation run. Generates the synthetic walk for the
    /// first configured symbol (clamping degenerate configuration values
    /// instead of failing), trains the strategy on the leading segment —
    /// a training failure is deliberately swallowed, leaving the
    /// heuristic fallback in charge — then replays the evaluation
    /// segment tick by tick, emitting every event on `tx_evt` as it is
    /// produced and also returning the full stream. A pending `Stop` on
    /// `rx_ctrl` is observed at the top of each tick and ends the replay
    /// before the current bar is processed; the stream always closes with
    /// exactly one `Done`.
    pub fn run<S: Strategy>(
        cfg: &EngineConfig,
        strategy: &mut S,
        rx_ctrl: &crossbeam_channel::Receiver<EngineControl>,
        tx_evt: &crossbeam_channel::Sender<EngineEvent>,
    ) -> (events: Vec<EngineEvent>)
        ensures
            trace_wf(events@),
            forall|k: int|
                0 <= k < events@.len() ==> ((#[trigger] events@[k]) matches EngineEvent::Bar(b)
                    ==> bar_valid(b)),
            forall|k: int|
                0 <= k < events@.len() ==> ((#[trigger] events@[k]) matches EngineEvent::Metrics(m)
                    ==> metrics_wf(m)),
            forall|k: int|
                0 <= k < events@.len() ==> ((#[trigger] events@[k]) matches EngineEvent::Bar(b)
                    ==> b.symbol@ == run_symbol(cfg.symbols@)),
    {
        let symbol = active_symbol(&cfg.symbols);
        let interval = if cfg.bar_interval_ms < 1 {
            1
        } else if cfg.bar_interval_ms > MAX_INTERVAL_MS {
            MAX_INTERVAL_MS
        } else {
            cfg.bar_interval_ms
        };
        let count = if cfg.length_bars > MAX_RUN_BARS {
            MAX_RUN_BARS
        } else {
            cfg.length_bars
        };
        proof {
            assert(count * interval <= crate::data::MAX_SPAN_MS) by (nonlinear_arith)
                requires
                    count <= 1_000_000_000,
                    interval <= 1_000_000_000,
            ;
        }
        let bars = generate_synthetic_bars(symbol.as_str(), START_PRICE, interval, count, RUN_VOL);
        let (train, test) = train_test_split(bars.as_slice(), cfg.train_split);
        let _train_outcome = strategy.train(train);
        let starting = if cfg.starting_cash > MONEY_CAP {
            MONEY_CAP
        } else {
            cfg.starting_cash
        };
        let mut st = SimState::new(starting);
        let mut events: Vec<EngineEvent> = Vec::new();
        proof {
            assert forall|k: int|
                0 <= k < test@.len() implies bar_valid(#[trigger] test@[k]) && test@[k].symbol@
                == symbol@ by {
                assert(test@[k] == bars@[crate::data::split_index(
                    bars@.len() as int,
                    cfg.train_split as int,
                ) + k]);
            }
        }
        let mut i: usize = 0;
        while i < test.len()
            invariant
                i <= test@.len(),
                state_wf(st),
                (st.wins as int) + (st.losses as int) <= i as int,
                tick_groups(events@),
                symbol@ == run_symbol(cfg.symbols@),
                forall|k: int| 0 <= k < test@.len() ==> bar_valid(#[trigger] test@[k]),
                forall|k: int| 0 <= k < test@.len() ==> (#[trigger] test@[k]).symbol@ == symbol@,
                forall|k: int|
                    0 <= k < events@.len() ==> ((#[trigger] events@[k]) matches EngineEvent::Bar(b)
                        ==> bar_valid(b)),
                forall|k: int|
                    0 <= k < events@.len() ==> ((#[trigger] events@[k])
                        matches EngineEvent::Metrics(m) ==> metrics_wf(m)),
                forall|k: int|
                    0 <= k < events@.len() ==> ((#[trigger] events@[k]) matches EngineEvent::Bar(b)
                        ==> b.symbol@ == symbol@),
            decreases test@.len() - i,
        {
            let stop = try_recv_control(rx_ctrl);
            match stop {
                Option::Some(c) => {
                    match c {
                        EngineControl::Stop => {
                            break;
                        },
                    }
                },
                Option::None => {},
            }
            let go_long = strategy.decide(&test[i]);
            let tick_events = tick(&mut st, &test[i], go_long, &symbol);
            proof {
                lemma_tick_groups_append(events@, tick_events@);
            }
            let ghost pre = events@;
            let mut j: usize = 0;
            while j < tick_events.len()
                invariant
                    j <= tick_events@.len(),
                    events@ == pre + tick_events@.take(j as int),
                decreases tick_events@.len() - j,
            {
                let e = tick_events[j].clone();
                let e2 = e.clone();
                events.push(e);
                send_event(tx_evt, e2);
                proof {
                    assert(events@ =~= pre + tick_events@.take(j as int + 1));
                }
                j = j + 1;
            }
            proof {
                assert(tick_events@.take(tick_events@.len() as int) =~= tick_events@);
            }
            i = i + 1;
        }
        let ghost body = events@;
        events.push(EngineEvent::Done);
        send_event(tx_evt, EngineEvent::Done);
        proof {
            assert(events@.take(events@.len() - 1) =~= body);
        }
        events
    }
}

} // verus!
