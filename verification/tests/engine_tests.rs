use crossbeam_channel::unbounded;
use nexow_engine::engine::{active_symbol, Engine, EngineControl, EngineEvent, EngineHandle};
use nexow_engine::strategy::HeuristicStrategy;
use nexow_engine::types::{EngineConfig, Mode};

fn config(length_bars: usize, starting_cash: u64) -> EngineConfig {
    EngineConfig {
        symbols: vec!["TEST".to_string()],
        bar_interval_ms: 60_000,
        length_bars,
        rf_trees: 8,
        rf_max_depth: 4,
        train_split: 5_000,
        mode: Mode::Simulate,
        starting_cash,
    }
}

/// Checks the stream against the grammar `(Order? Bar Metrics)* Done`.
fn assert_trace_grammar(events: &[EngineEvent]) {
    assert!(!events.is_empty());
    let done_count = events.iter().filter(|e| matches!(e, EngineEvent::Done)).count();
    assert_eq!(done_count, 1, "exactly one Done");
    assert!(matches!(events.last().unwrap(), EngineEvent::Done), "Done is final");
    let mut i = 0;
    while i < events.len() - 1 {
        if matches!(events[i], EngineEvent::Order(_)) {
            i += 1;
        }
        assert!(matches!(events[i], EngineEvent::Bar(_)), "a Bar after an optional Order");
        assert!(matches!(events[i + 1], EngineEvent::Metrics(_)), "a Metrics after each Bar");
        i += 2;
    }
}

#[test]
fn run_emits_a_well_formed_trace() {
    let (tx_evt, rx_evt) = unbounded();
    let (_tx_ctrl, rx_ctrl) = unbounded::<EngineControl>();
    let mut strategy = HeuristicStrategy;
    let cfg = config(200, 10_000_000);
    let events = Engine::run(&cfg, &mut strategy, &rx_ctrl, &tx_evt);
    assert_trace_grammar(&events);
    // 200 bars, split 0.5: one Bar and one Metrics per evaluation bar
    let bar_count = events.iter().filter(|e| matches!(e, EngineEvent::Bar(_))).count();
    let metrics_count = events.iter().filter(|e| matches!(e, EngineEvent::Metrics(_))).count();
    assert_eq!(bar_count, 100);
    assert_eq!(metrics_count, 100);
    // the channel carries the same stream, in the same order
    let mut received = Vec::new();
    while let Ok(e) = rx_evt.try_recv() {
        received.push(e);
    }
    assert_eq!(received, events);
}

#[test]
fn run_metrics_stay_bounded() {
    let (tx_evt, _rx_evt) = unbounded();
    let (_tx_ctrl, rx_ctrl) = unbounded::<EngineControl>();
    let mut strategy = HeuristicStrategy;
    let cfg = config(400, 10_000_000);
    let events = Engine::run(&cfg, &mut strategy, &rx_ctrl, &tx_evt);
    for e in &events {
        if let EngineEvent::Metrics(m) = e {
            assert!(m.max_drawdown <= 10_000);
            assert!(m.win_rate <= 10_000);
            if m.trades == 0 {
                assert_eq!(m.win_rate, 0);
            }
            assert_eq!(m.sharpe, 0);
        }
        if let EngineEvent::Bar(b) = e {
            assert!(b.high >= b.open.max(b.close));
            assert!(b.low <= b.open.min(b.close));
            assert!(b.volume > 0);
        }
    }
}

#[test]
fn stop_before_any_bar_yields_only_done() {
    // a Stop queued before the run starts is observed at the first tick:
    // no Bar or Metrics is emitted, yet the stream still closes with Done
    let (tx_evt, rx_evt) = unbounded();
    let (tx_ctrl, rx_ctrl) = unbounded();
    tx_ctrl.send(EngineControl::Stop).unwrap();
    let mut strategy = HeuristicStrategy;
    let cfg = config(200, 10_000_000);
    let events = Engine::run(&cfg, &mut strategy, &rx_ctrl, &tx_evt);
    assert_eq!(events.len(), 1);
    assert!(matches!(events[0], EngineEvent::Done));
    assert!(matches!(rx_evt.try_recv().unwrap(), EngineEvent::Done));
    assert!(rx_evt.try_recv().is_err(), "nothing follows the Done");
}

#[test]
fn run_with_empty_symbols_uses_placeholder() {
    let (tx_evt, _rx_evt) = unbounded();
    let (_tx_ctrl, rx_ctrl) = unbounded::<EngineControl>();
    let mut strategy = HeuristicStrategy;
    let mut cfg = config(20, 10_000_000);
    cfg.symbols = Vec::new();
    let events = Engine::run(&cfg, &mut strategy, &rx_ctrl, &tx_evt);
    assert_trace_grammar(&events);
    let named = events.iter().find_map(|e| match e {
        EngineEvent::Bar(b) => Some(b.symbol.clone()),
        _ => None,
    });
    assert_eq!(named.as_deref(), Some("SIM"));
}

#[test]
fn run_survives_degenerate_config() {
    // zero-length runs, zero cash and a zero interval degrade, never crash
    let (tx_evt, _rx_evt) = unbounded();
    let (_tx_ctrl, rx_ctrl) = unbounded::<EngineControl>();
    let mut strategy = HeuristicStrategy;
    let mut cfg = config(0, 0);
    cfg.bar_interval_ms = 0;
    let events = Engine::run(&cfg, &mut strategy, &rx_ctrl, &tx_evt);
    assert_eq!(events.len(), 1);
    assert!(matches!(events[0], EngineEvent::Done));
}

#[test]
fn active_symbol_picks_first_or_placeholder() {
    let symbols = vec!["BTC".to_string(), "ETH".to_string()];
    assert_eq!(active_symbol(&symbols), "BTC");
    assert_eq!(active_symbol(&Vec::new()), "SIM");
}

#[test]
fn handle_carries_both_endpoints() {
    let (tx_evt, rx_evt) = unbounded();
    let (tx_ctrl, rx_ctrl) = unbounded();
    let handle = EngineHandle { tx_ctrl, rx_evt };
    handle.tx_ctrl.send(EngineControl::Stop).unwrap();
    assert!(matches!(rx_ctrl.try_recv().unwrap(), EngineControl::Stop));
    tx_evt.send(EngineEvent::Done).unwrap();
    assert!(matches!(handle.rx_evt.try_recv().unwrap(), EngineEvent::Done));
}
