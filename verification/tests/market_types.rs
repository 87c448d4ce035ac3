use chrono::Utc;
use hft_engine::market::{fill_report, side_label, MarketEvent, Order, Quantity, Side, Tick};

#[test]
fn test_tick_creation() {
    let now = Utc::now().timestamp_millis();
    let tick = Tick {
        symbol: "BTCUSDT".to_string(),
        price: 50000.0,
        volume: 1.5,
        timestamp: now,
    };
    assert_eq!(tick.symbol, "BTCUSDT");
    assert_eq!(tick.price, 50000.0);
    assert_eq!(tick.volume, 1.5);
}

#[test]
fn test_order_creation() {
    let now = Utc::now().timestamp_millis();
    let order = Order {
        id: 1,
        symbol: "ETHUSDT".to_string(),
        side: Side::Buy,
        price: 3000.0,
        qty: Quantity::<f64>::Units(2),
        timestamp: now,
    };
    assert_eq!(order.id, 1);
    assert_eq!(order.side, Side::Buy);
}

#[test]
fn test_market_event_enum() {
    let now = Utc::now().timestamp_millis();
    let tick = Tick {
        symbol: "SOLUSDT".to_string(),
        price: 150.0,
        volume: 10.0,
        timestamp: now,
    };
    let event = MarketEvent::Tick(tick);
    match event {
        MarketEvent::Tick(t) => assert_eq!(t.symbol, "SOLUSDT"),
        _ => panic!("Expected Tick event"),
    }
}

#[test]
fn side_labels_are_lower_case_words() {
    assert_eq!(side_label(Side::Buy), "buy");
    assert_eq!(side_label(Side::Sell), "sell");
}

#[test]
fn fill_report_copies_the_order() {
    let order = Order {
        id: 7,
        symbol: "AAPL".to_string(),
        side: Side::Sell,
        price: 191.5,
        qty: Quantity::HedgeLots(3, 0.75),
        timestamp: 0,
    };
    let report = fill_report(order);
    assert_eq!(report.order_id, 7);
    assert_eq!(report.symbol, "AAPL");
    assert_eq!(report.side, Side::Sell);
    assert_eq!(report.executed_price, 191.5);
    match report.executed_qty {
        Quantity::HedgeLots(lots, beta) => {
            assert_eq!(lots, 3);
            assert_eq!(beta, 0.75);
        }
        Quantity::Units(_) => panic!("expected hedge lots"),
    }
}
