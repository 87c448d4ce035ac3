//! Market data, orders and commands shared by the strategy and the engine.
//!
//! Prices and volumes have the type parameter `P` (the engine uses `f64`);
//! the logic of this crate only stores, compares by identity and forwards them.

use vstd::prelude::*;

verus! {

/// Direction of an order.
#[derive(Debug, Clone, Copy, PartialEq, Eq, Structural)]
pub enum Side {
    Buy,
    Sell,
}

/// One trade or quote of a symbol, stamped with milliseconds since the Unix epoch.
#[derive(Debug, Clone)]
pub struct Tick<P> {
    pub symbol: String,
    pub price: P,
    pub volume: P,
    pub timestamp: i64,
}

/// One price level of an order book.
#[derive(Debug, Clone)]
pub struct OrderBookLevel<P> {
    pub price: P,
    pub qty: P,
}

/// Bids and asks of one symbol.
#[derive(Debug, Clone)]
pub struct OrderBookSnapshot<P> {
    pub symbol: String,
    pub bids: Vec<OrderBookLevel<P>>,
    pub asks: Vec<OrderBookLevel<P>>,
}

/// What a market data feed delivers.
#[derive(Debug, Clone)]
pub enum MarketEvent<P> {
    Tick(Tick<P>),
    OrderBook(OrderBookSnapshot<P>),
}

/// The size of an order: a whole number of units, or a whole number of lots
/// of the hedge ratio `beta` (that many times `beta` units).
#[derive(Debug, Clone, Copy)]
pub enum Quantity<P> {
    Units(u32),
    HedgeLots(u32, P),
}

/// An order as the strategy emits it.
#[derive(Debug, Clone)]
pub struct Order<P> {
    pub id: u64,
    pub symbol: String,
    pub side: Side,
    pub price: P,
    pub qty: Quantity<P>,
    pub timestamp: i64,
}

/// What a venue reports back for an executed order.
#[derive(Debug, Clone)]
pub struct ExecutionReport<P> {
    pub order_id: u64,
    pub symbol: String,
    pub side: Side,
    pub executed_qty: Quantity<P>,
    pub executed_price: P,
}

/// Commands that flow from the strategy and the user interface to the engine.
#[derive(Debug, Clone)]
pub enum StrategyCommand<P> {
    SubmitOrder(Order<P>),
    KillSwitch,
    /// API key and secret.
    UpdateApiKeys(String, String),
    /// The two symbols of the new pair.
    ChangePair(String, String),
}

/// Whether `cmd` submits an order with exactly these fields (its timestamp
/// aside).
pub open spec fn submits<P>(
    cmd: StrategyCommand<P>,
    id: int,
    symbol: Seq<char>,
    side: Side,
    price: P,
    qty: Quantity<P>,
) -> bool {
    match cmd {
        StrategyCommand::SubmitOrder(o) => {
            &&& o.id == id
            &&& o.symbol@ == symbol
            &&& o.side == side
            &&& o.price == price
            &&& o.qty == qty
        },
        _ => false,
    }
}

/// The lower-case word that the venues' order endpoints take for a side.
pub open spec fn side_word(side: Side) -> Seq<char> {
    match side {
        Side::Buy => seq!['b', 'u', 'y'],
        Side::Sell => seq!['s', 'e', 'l', 'l'],
    }
}

/// `"buy"` or `"sell"`.
pub fn side_label(side: Side) -> (word: &'static str)
    ensures
        word@ == side_word(side),
{
    match side {
        Side::Buy => {
            let w = "buy";
            proof {
                reveal_strlit("buy");
            }
            w
        },
        Side::Sell => {
            let w = "sell";
            proof {
                reveal_strlit("sell");
            }
            w
        },
    }
}

/// The report of an order executed in full at its own price, as the engine
/// simulates execution for its profit-and-loss account.
pub fn fill_report<P: Copy>(order: Order<P>) -> (report: ExecutionReport<P>)
    ensures
        report.order_id == order.id,
        report.symbol == order.symbol,
        report.side == order.side,
        report.executed_qty == order.qty,
        report.executed_price == order.price,
{
    ExecutionReport {
        order_id: order.id,
        symbol: order.symbol,
        side: order.side,
        executed_qty: order.qty,
        executed_price: order.price,
    }
}

} // verus!
