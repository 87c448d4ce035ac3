use hft_engine::market::{Quantity, Side, StrategyCommand, Tick};
use hft_engine::strategy::{StatArbStrategy, ZBand, MIN_SAMPLES};

fn tick(symbol: &str, price: f64) -> Tick<f64> {
    Tick {
        symbol: symbol.to_string(),
        price,
        volume: 1.0,
        timestamp: 0,
    }
}

fn submitted(cmd: &StrategyCommand<f64>) -> (u64, String, Side, f64, Quantity<f64>) {
    match cmd {
        StrategyCommand::SubmitOrder(o) => (o.id, o.symbol.clone(), o.side, o.price, o.qty),
        _ => panic!("expected an order"),
    }
}

fn units(q: Quantity<f64>) -> u32 {
    match q {
        Quantity::Units(n) => n,
        Quantity::HedgeLots(_, _) => panic!("expected units"),
    }
}

fn hedge(q: Quantity<f64>) -> (u32, f64) {
    match q {
        Quantity::HedgeLots(n, b) => (n, b),
        Quantity::Units(_) => panic!("expected hedge lots"),
    }
}

/// A strategy whose windows hold `n` prices of each symbol.
fn filled(n: usize) -> StatArbStrategy<f64> {
    let mut s: StatArbStrategy<f64> = StatArbStrategy::new(20, "A".to_string(), "B".to_string());
    for i in 0..n {
        s.record_tick(&tick("A", 100.0 + i as f64));
        s.record_tick(&tick("B", 50.0 + i as f64));
    }
    s
}

#[test]
fn test_strategy_initialization() {
    let strategy: StatArbStrategy<f64> = StatArbStrategy::new(20, "A".to_string(), "B".to_string());
    assert_eq!(strategy.symbol_a, "A");
    assert_eq!(strategy.symbol_b, "B");
    assert_eq!(strategy.position, 0);
    assert_eq!(strategy.pnl, 0.0);
    assert!(strategy.is_active);
}

#[test]
fn test_strategy_not_active() {
    let mut strategy: StatArbStrategy<f64> = StatArbStrategy::new(20, "A".to_string(), "B".to_string());
    strategy.is_active = false;

    let t = Tick {
        symbol: "A".to_string(),
        price: 100.0,
        volume: 10.0,
        timestamp: 0,
    };

    let summary = strategy.record_tick(&t);
    assert!(summary.is_none());
    assert!(strategy.history_a.is_empty());
    assert!(strategy.history_b.is_empty());
}

#[test]
fn test_strategy_trading_logic() {
    let mut strategy: StatArbStrategy<f64> = StatArbStrategy::new(20, "A".to_string(), "B".to_string());

    for _ in 0..20 {
        strategy.record_tick(&tick("B", 100.0));
    }
    for _ in 0..19 {
        assert!(strategy.record_tick(&tick("A", 100.0)).is_none());
    }
    let ready = strategy.record_tick(&tick("A", 110.0));
    assert_eq!(ready, Some(20));

    // B never moves, so the hedge ratio is 0/0: the z-score is undefined
    // and falls in no band, which places no order.
    let commands = strategy.apply_band(ZBand::Between, f64::NAN);
    assert!(commands.is_empty());
    assert_eq!(strategy.position, 0);
}

#[test]
fn ticks_of_other_symbols_are_ignored() {
    let mut s = filled(3);
    assert_eq!(s.record_tick(&tick("C", 1.0)), None);
    assert_eq!(s.history_a.len(), 3);
    assert_eq!(s.history_b.len(), 3);
}

#[test]
fn samples_are_reported_from_twenty_aligned_prices() {
    let mut s: StatArbStrategy<f64> = StatArbStrategy::new(30, "A".to_string(), "B".to_string());
    for i in 0..MIN_SAMPLES {
        s.record_tick(&tick("A", i as f64));
    }
    for i in 0..MIN_SAMPLES - 1 {
        assert_eq!(s.record_tick(&tick("B", i as f64)), None);
    }
    assert_eq!(s.record_tick(&tick("B", 0.0)), Some(20));
    assert_eq!(s.record_tick(&tick("A", 0.0)), Some(20));
    assert_eq!(s.record_tick(&tick("B", 0.0)), Some(21));
}

#[test]
fn windows_keep_the_latest_prices() {
    let mut s: StatArbStrategy<f64> = StatArbStrategy::new(3, "A".to_string(), "B".to_string());
    for p in [1.0, 2.0, 3.0, 4.0, 5.0] {
        s.record_tick(&tick("A", p));
    }
    let kept: Vec<f64> = s.history_a.iter().copied().collect();
    assert_eq!(kept, vec![3.0, 4.0, 5.0]);
    assert!(s.history_b.is_empty());
}

#[test]
fn above_upper_band_shorts_the_spread() {
    let mut s = filled(20);
    let cmds = s.apply_band(ZBand::Above, 1.5);
    assert_eq!(s.position, -1);
    assert_eq!(s.order_counter, 2);
    assert_eq!(cmds.len(), 2);
    let (id0, sym0, side0, price0, qty0) = submitted(&cmds[0]);
    let (id1, sym1, side1, price1, qty1) = submitted(&cmds[1]);
    assert_eq!((id0, sym0.as_str(), side0, price0, units(qty0)), (1, "A", Side::Sell, 119.0, 1));
    assert_eq!((id1, sym1.as_str(), side1, price1), (2, "B", Side::Buy, 69.0));
    assert_eq!(hedge(qty1), (1, 1.5));
}

#[test]
fn below_lower_band_goes_long_the_spread() {
    let mut s = filled(20);
    let cmds = s.apply_band(ZBand::Below, 2.0);
    assert_eq!(s.position, 1);
    let (_, sym0, side0, _, _) = submitted(&cmds[0]);
    let (_, sym1, side1, _, _) = submitted(&cmds[1]);
    assert_eq!((sym0.as_str(), side0), ("A", Side::Buy));
    assert_eq!((sym1.as_str(), side1), ("B", Side::Sell));
}

#[test]
fn entries_repeat_but_never_against_the_position() {
    let mut s = filled(20);
    s.apply_band(ZBand::Above, 1.0);
    s.apply_band(ZBand::Above, 1.0);
    assert_eq!(s.position, -2);
    let cmds = s.apply_band(ZBand::Below, 1.0);
    assert!(cmds.is_empty());
    assert_eq!(s.position, -2);
    assert_eq!(s.order_counter, 4);
}

#[test]
fn near_mean_flattens_the_whole_position() {
    let mut s = filled(20);
    s.apply_band(ZBand::Above, 1.0);
    s.apply_band(ZBand::Above, 1.0);
    let cmds = s.apply_band(ZBand::NearMean, 0.5);
    assert_eq!(s.position, 0);
    assert_eq!(cmds.len(), 2);
    let (id0, _, side0, _, qty0) = submitted(&cmds[0]);
    let (id1, _, side1, _, qty1) = submitted(&cmds[1]);
    assert_eq!((id0, side0, units(qty0)), (5, Side::Buy, 2));
    assert_eq!((id1, side1), (6, Side::Sell));
    assert_eq!(hedge(qty1), (2, 0.5));
    assert!(s.apply_band(ZBand::NearMean, 0.5).is_empty());
}

#[test]
fn between_bands_nothing_happens() {
    let mut s = filled(20);
    s.apply_band(ZBand::Below, 1.0);
    assert!(s.apply_band(ZBand::Between, 1.0).is_empty());
    assert_eq!(s.position, 1);
    assert_eq!(s.order_counter, 2);
}

#[test]
fn a_window_of_size_zero_grows() {
    let mut s: StatArbStrategy<f64> = StatArbStrategy::new(0, "A".to_string(), "B".to_string());
    s.record_tick(&tick("A", 1.0));
    s.record_tick(&tick("A", 2.0));
    assert_eq!(s.history_a.len(), 2);
    assert_eq!(s.window_size, 0);
}
