use hft_engine::engine::{EngineAction, EngineCore, ENGINE_WINDOW};
use hft_engine::market::{Order, Quantity, Side, StrategyCommand, Tick};

fn engine_with(alpaca: (&str, &str), binance: (&str, &str)) -> (EngineCore<f64>, Vec<EngineAction<f64>>) {
    EngineCore::new(
        alpaca.0.to_string(),
        alpaca.1.to_string(),
        binance.0.to_string(),
        binance.1.to_string(),
    )
}

fn order(symbol: &str) -> Order<f64> {
    Order {
        id: 1,
        symbol: symbol.to_string(),
        side: Side::Buy,
        price: 10.0,
        qty: Quantity::Units(1),
        timestamp: 0,
    }
}

#[test]
fn engine_starts_on_the_crypto_pair_with_a_binance_feed() {
    let (e, actions) = engine_with(("", ""), ("", ""));
    assert_eq!(e.strategy.symbol_a, "BTCUSDT");
    assert_eq!(e.strategy.symbol_b, "ETHUSDT");
    assert_eq!(e.strategy.window_size, ENGINE_WINDOW);
    assert_eq!(ENGINE_WINDOW, 100);
    assert!(e.feed_running);
    assert_eq!(actions.len(), 1);
    match &actions[0] {
        EngineAction::StartBinanceFeed { symbols } => assert_eq!(symbols, &vec!["BTCUSDT".to_string(), "ETHUSDT".to_string()]),
        other => panic!("unexpected {:?}", other),
    }
}

#[test]
fn kill_switch_toggles_trading() {
    let (mut e, _) = engine_with(("", ""), ("", ""));
    assert!(e.on_command(StrategyCommand::KillSwitch).is_empty());
    assert!(!e.strategy.is_active);
    e.on_command(StrategyCommand::KillSwitch);
    assert!(e.strategy.is_active);
}

#[test]
fn changing_to_a_stock_pair_without_keys_stops_the_feed_and_polls() {
    let (mut e, _) = engine_with(("", ""), ("", ""));
    e.strategy.position = 3;
    e.strategy.pnl = 12.5;
    e.last_price_a = 7.0;
    let actions = e.on_command(StrategyCommand::ChangePair("AAPL".to_string(), "MSFT".to_string()));
    assert_eq!(actions.len(), 1);
    assert!(matches!(actions[0], EngineAction::StopFeed));
    assert!(!e.feed_running);
    assert_eq!(e.strategy.position, 0);
    assert_eq!(e.strategy.pnl, 0.0);
    assert_eq!(e.last_price_a, 0.0);
    let polls = e.on_poll();
    match &polls[..] {
        [EngineAction::PollQuotes { symbols }] => assert_eq!(symbols, &vec!["AAPL".to_string(), "MSFT".to_string()]),
        other => panic!("unexpected {:?}", other),
    }
}

#[test]
fn changing_to_a_stock_pair_with_keys_starts_alpaca() {
    let (mut e, _) = engine_with(("key", "secret"), ("", ""));
    let actions = e.on_command(StrategyCommand::ChangePair("GOOGL".to_string(), "META".to_string()));
    assert_eq!(actions.len(), 2);
    assert!(matches!(actions[0], EngineAction::StopFeed));
    match &actions[1] {
        EngineAction::StartAlpacaFeed { key, secret, symbols } => {
            assert_eq!(key, "key");
            assert_eq!(secret, "secret");
            assert_eq!(symbols, &vec!["GOOGL".to_string(), "META".to_string()]);
        }
        other => panic!("unexpected {:?}", other),
    }
    assert!(e.on_poll().is_empty());
}

#[test]
fn new_keys_restart_only_a_stock_feed() {
    let (mut e, _) = engine_with(("", ""), ("", ""));
    let none = e.on_command(StrategyCommand::UpdateApiKeys("k".to_string(), "s".to_string()));
    assert!(none.is_empty());
    assert_eq!(e.api_key_id, "k");
    e.on_command(StrategyCommand::ChangePair("ROG.SW".to_string(), "NESN.SW".to_string()));
    let partial = e.on_command(StrategyCommand::UpdateApiKeys("k2".to_string(), "".to_string()));
    assert!(partial.is_empty());
    let actions = e.on_command(StrategyCommand::UpdateApiKeys("k3".to_string(), "s3".to_string()));
    assert_eq!(actions.len(), 2);
    match &actions[1] {
        EngineAction::StartAlpacaFeed { key, symbols, .. } => {
            assert_eq!(key, "k3");
            assert_eq!(symbols[0], "ROG.SW");
        }
        other => panic!("unexpected {:?}", other),
    }
    assert!(e.feed_running);
}

#[test]
fn a_pair_change_keeps_windows_and_order_numbers() {
    let (mut e, _) = engine_with(("", ""), ("", ""));
    e.strategy.record_tick(&Tick { symbol: "BTCUSDT".to_string(), price: 1.0, volume: 1.0, timestamp: 0 });
    e.strategy.order_counter = 9;
    e.on_command(StrategyCommand::ChangePair("SOLUSDT".to_string(), "ADAUSDT".to_string()));
    assert_eq!(e.strategy.history_a.len(), 1);
    assert_eq!(e.strategy.order_counter, 9);
}

#[test]
fn polled_quotes_of_the_first_symbol_set_the_last_price() {
    let (mut e, _) = engine_with(("", ""), ("", ""));
    e.on_command(StrategyCommand::ChangePair("AAPL".to_string(), "MSFT".to_string()));
    e.note_polled_tick(&Tick { symbol: "MSFT".to_string(), price: 400.0, volume: 1.0, timestamp: 0 });
    assert_eq!(e.last_price_a, 0.0);
    e.note_polled_tick(&Tick { symbol: "AAPL".to_string(), price: 190.0, volume: 1.0, timestamp: 0 });
    assert_eq!(e.last_price_a, 190.0);
}

#[test]
fn orders_go_to_the_venue_of_their_symbol() {
    let (e, _) = engine_with(("ak", "as"), ("bk", "bs"));
    match &e.route_order(&order("AAPL"))[..] {
        [EngineAction::PlaceAlpacaOrder { key, symbol, side, .. }] => {
            assert_eq!(key, "ak");
            assert_eq!(symbol, "AAPL");
            assert_eq!(*side, Side::Buy);
        }
        other => panic!("unexpected {:?}", other),
    }
    match &e.route_order(&order("ETHUSDT"))[..] {
        [EngineAction::PlaceBinanceOrder { key, secret, .. }] => {
            assert_eq!(key, "bk");
            assert_eq!(secret, "bs");
        }
        other => panic!("unexpected {:?}", other),
    }
    let (no_keys, _) = engine_with(("ak", ""), ("", "bs"));
    assert!(no_keys.route_order(&order("AAPL")).is_empty());
    assert!(no_keys.route_order(&order("ETHUSDT")).is_empty());
}

#[test]
fn submitted_orders_are_not_engine_commands() {
    let (mut e, _) = engine_with(("", ""), ("", ""));
    assert!(e.on_command(StrategyCommand::SubmitOrder(order("AAPL"))).is_empty());
    assert!(e.feed_running);
}

#[test]
fn changing_to_the_same_pair_twice_ends_in_the_same_state() {
    let (mut e, _) = engine_with(("k", "s"), ("", ""));
    e.strategy.position = -4;
    e.on_command(StrategyCommand::ChangePair("AAPL".to_string(), "MSFT".to_string()));
    let once = (e.strategy.symbol_a.clone(), e.strategy.position, e.strategy.pnl, e.feed_running, e.last_price_a);
    let again = e.on_command(StrategyCommand::ChangePair("AAPL".to_string(), "MSFT".to_string()));
    let twice = (e.strategy.symbol_a.clone(), e.strategy.position, e.strategy.pnl, e.feed_running, e.last_price_a);
    assert_eq!(once, twice);
    assert_eq!(again.len(), 2);
}
