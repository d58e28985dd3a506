use nexow_engine::data::train_test_split;
use nexow_engine::engine::{tick, EngineEvent};
use nexow_engine::sim::{apply_decision, mark_to_market, SimState};
use nexow_engine::types::{Bar, Side};
use nexow_engine::{FRAC_SCALE, QTY_SCALE};

fn mk_bar(ts: u64, open: u64, high: u64, low: u64, close: u64) -> Bar {
    Bar { ts, open, high, low, close, volume: 5_000, symbol: "TEST".to_string() }
}

fn value_of(qty: u64, close: u64) -> u64 {
    ((qty as u128 * close as u128) / QTY_SCALE as u128) as u64
}

#[test]
fn fresh_state_is_all_cash() {
    let s = SimState::new(10_000_000);
    assert_eq!(s.cash, 10_000_000);
    assert_eq!(s.qty, 0);
    assert_eq!(s.pnl, 0);
    assert_eq!(s.equity, 10_000_000);
    assert_eq!(s.peak_equity, 10_000_000);
    assert_eq!(s.wins + s.losses, 0);
}

#[test]
fn buy_spends_a_tenth() {
    let sym = "TEST".to_string();
    let mut s = SimState::new(10_000_000);
    let bar = mk_bar(0, 1_000_000, 1_020_000, 990_000, 1_010_000);
    let ord = apply_decision(&mut s, &bar, true, &sym).expect("a buy order");
    assert_eq!(ord.side, Side::Buy);
    assert_eq!(ord.id, 0);
    assert_eq!(s.cash, 9_000_000);
    // 1_000_000 * 10_000 / 1_010_000 = 9900 (rounded down)
    assert_eq!(s.qty, 9_900);
    assert_eq!(ord.qty, 9_900);
    assert_eq!(s.entry_price, 1_010_000);
    assert_eq!(s.pnl, 0);
}

#[test]
fn sell_realizes_pnl_and_counts_by_sign() {
    let sym = "TEST".to_string();
    // a losing round trip
    let mut s = SimState::new(10_000_000);
    let buy_bar = mk_bar(0, 1_000_000, 1_020_000, 990_000, 1_010_000);
    apply_decision(&mut s, &buy_bar, true, &sym).unwrap();
    let sell_bar = mk_bar(1, 1_010_000, 1_015_000, 995_000, 1_000_000);
    let ord = apply_decision(&mut s, &sell_bar, false, &sym).expect("a sell order");
    assert_eq!(ord.side, Side::Sell);
    // the emitted sell order reports quantity zero by design
    assert_eq!(ord.qty, 0);
    let proceeds = value_of(9_900, 1_000_000);
    assert_eq!(proceeds, 990_000);
    assert_eq!(s.cash, 9_000_000 + proceeds);
    assert_eq!(s.qty, 0);
    assert_eq!(s.pnl, proceeds as i128 - 999_900);
    assert_eq!((s.wins, s.losses), (0, 1));

    // a winning round trip
    let mut s = SimState::new(10_000_000);
    apply_decision(&mut s, &buy_bar, true, &sym).unwrap();
    let up_bar = mk_bar(1, 1_010_000, 1_050_000, 1_000_000, 1_040_000);
    apply_decision(&mut s, &up_bar, false, &sym).unwrap();
    assert_eq!((s.wins, s.losses), (1, 0));
    assert!(s.pnl > 0);
}

#[test]
fn flat_pnl_counts_as_win() {
    let sym = "TEST".to_string();
    let mut s = SimState::new(10_000_000);
    let bar = mk_bar(0, 1_000_000, 1_020_000, 990_000, 1_000_000);
    apply_decision(&mut s, &bar, true, &sym).unwrap();
    apply_decision(&mut s, &bar, false, &sym).unwrap();
    assert_eq!(s.pnl, 0);
    assert_eq!((s.wins, s.losses), (1, 0));
}

#[test]
fn hold_changes_nothing() {
    let sym = "TEST".to_string();
    let mut s = SimState::new(10_000_000);
    let bar = mk_bar(0, 1_000_000, 1_020_000, 990_000, 1_010_000);
    // flat and asked to stay flat
    assert!(apply_decision(&mut s, &bar, false, &sym).is_none());
    assert_eq!(s.cash, 10_000_000);
    // long and asked to stay long
    apply_decision(&mut s, &bar, true, &sym).unwrap();
    let cash = s.cash;
    let qty = s.qty;
    assert!(apply_decision(&mut s, &bar, true, &sym).is_none());
    assert_eq!((s.cash, s.qty), (cash, qty));
}

#[test]
fn equity_identity_at_every_tick() {
    let sym = "TEST".to_string();
    let mut s = SimState::new(10_000_000);
    let closes = [1_010_000u64, 1_020_000, 990_000, 1_005_000, 1_030_000, 980_000];
    let mut prev = 1_000_000u64;
    for (i, &c) in closes.iter().enumerate() {
        let hi = prev.max(c) + 1_000;
        let lo = prev.min(c) - 1_000;
        let bar = mk_bar(i as u64, prev, hi, lo, c);
        let go_long = c > prev;
        apply_decision(&mut s, &bar, go_long, &sym);
        let m = mark_to_market(&mut s, &bar);
        // equity == cash + quantity * close, exactly, in ticks
        assert_eq!(s.equity, s.cash + value_of(s.qty, c));
        assert_eq!(m.trades, s.wins + s.losses);
        prev = c;
    }
}

#[test]
fn drawdown_and_peak_bounds() {
    let sym = "TEST".to_string();
    let mut s = SimState::new(10_000_000);
    let closes = [1_100_000u64, 1_200_000, 900_000, 800_000, 1_300_000, 700_000];
    let mut prev = 1_000_000u64;
    let mut last_peak = s.peak_equity;
    for (i, &c) in closes.iter().enumerate() {
        let hi = prev.max(c) + 1_000;
        let lo = prev.min(c) - 1_000;
        let bar = mk_bar(i as u64, prev, hi, lo, c);
        let go_long = c > prev;
        apply_decision(&mut s, &bar, go_long, &sym);
        let m = mark_to_market(&mut s, &bar);
        assert!(m.max_drawdown <= FRAC_SCALE, "drawdown stays within [0, 1]");
        assert!(s.peak_equity >= last_peak, "the peak never decreases");
        assert!(s.equity <= s.peak_equity);
        last_peak = s.peak_equity;
    }
}

#[test]
fn win_rate_bounds_and_zero_without_trades() {
    let sym = "TEST".to_string();
    let mut s = SimState::new(10_000_000);
    let bar = mk_bar(0, 1_000_000, 1_020_000, 990_000, 1_010_000);
    // no trades yet: win rate must be zero
    let m = mark_to_market(&mut s, &bar);
    assert_eq!(m.trades, 0);
    assert_eq!(m.win_rate, 0);
    // one win, one loss: win rate = 50% of the scale
    apply_decision(&mut s, &bar, true, &sym).unwrap();
    let up = mk_bar(1, 1_010_000, 1_060_000, 1_000_000, 1_050_000);
    apply_decision(&mut s, &up, false, &sym).unwrap();
    apply_decision(&mut s, &up, true, &sym).unwrap();
    let down = mk_bar(2, 1_050_000, 1_055_000, 990_000, 1_000_000);
    apply_decision(&mut s, &down, false, &sym).unwrap();
    let m = mark_to_market(&mut s, &down);
    assert_eq!(m.trades, 2);
    assert_eq!(m.win_rate, FRAC_SCALE / 2);
    assert!(m.win_rate <= FRAC_SCALE);
}

#[test]
fn full_liquidation_scenario() {
    // starting cash 1000 currency units, 200 synthetic bars, split 0.5:
    // after a Buy, the next Sell leaves the position flat and cash equals
    // cash-before-buy minus the spend plus the proceeds
    let sym = "SIM".to_string();
    let mut bars: Vec<Bar> = Vec::new();
    let mut prev = 1_000_000u64;
    for i in 0..200u64 {
        // alternate an up bar (the heuristic goes long) and a down bar
        let close = if i % 2 == 0 { prev + 10_000 } else { prev - 10_000 };
        let hi = prev.max(close) + 500;
        let lo = prev.min(close) - 500;
        bars.push(mk_bar(i, prev, hi, lo, close));
        prev = close;
    }
    let (_train, test) = train_test_split(&bars, 5_000);
    assert_eq!(test.len(), 100);

    let mut s = SimState::new(10_000_000);
    let mut cash_before_buy = 0u64;
    let mut spend = 0u64;
    let mut holding = false;
    let mut saw_round_trip = false;
    for bar in test {
        let go_long = bar.close > bar.open;
        let before = s;
        let events = tick(&mut s, bar, go_long, &sym);
        if go_long && before.qty == 0 {
            cash_before_buy = before.cash;
            spend = before.cash / 10;
            holding = true;
            assert!(matches!(&events[0], EngineEvent::Order(o) if o.side == Side::Buy));
        } else if !go_long && before.qty > 0 {
            assert!(holding);
            let proceeds = value_of(before.qty, bar.close);
            assert_eq!(s.qty, 0, "the sell liquidates the whole position");
            assert_eq!(s.cash, cash_before_buy - spend + proceeds);
            holding = false;
            saw_round_trip = true;
        }
        assert_eq!(s.equity, s.cash + value_of(s.qty, bar.close));
    }
    assert!(saw_round_trip, "the alternating walk must produce at least one round trip");
}
