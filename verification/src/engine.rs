//! The engine's decisions, as a state machine: it owns the strategy and the
//! venue credentials, and turns user commands, poll timer ticks, polled
//! quotes and strategy orders into actions (start or stop a market data
//! feed, poll quotes, place an order at a venue) that the runtime performs.

use vstd::prelude::*;
use crate::market::{Order, Quantity, Side, StrategyCommand, Tick};
use crate::strategy::StatArbStrategy;
use crate::text::{is_crypto, is_crypto_symbol};

verus! {

/// The window size of the engine's strategy.
pub const ENGINE_WINDOW: usize = 100;

/// The pair the engine starts with: Bitcoin against Ether, in USDT.
pub open spec fn initial_symbol_a() -> Seq<char> {
    seq!['B', 'T', 'C', 'U', 'S', 'D', 'T']
}

/// The second symbol of the starting pair.
pub open spec fn initial_symbol_b() -> Seq<char> {
    seq!['E', 'T', 'H', 'U', 'S', 'D', 'T']
}

/// What the runtime is asked to do.
#[derive(Debug)]
pub enum EngineAction<P> {
    /// Stop the market data feed that is running.
    StopFeed,
    /// Stream top-of-book quotes of these symbols from Binance.
    StartBinanceFeed { symbols: Vec<String> },
    /// Stream quotes of these symbols from Alpaca, authenticating with the key and secret.
    StartAlpacaFeed { key: String, secret: String, symbols: Vec<String> },
    /// Poll the latest quotes of these symbols.
    PollQuotes { symbols: Vec<String> },
    /// Send a market order to Alpaca's paper trading API.
    PlaceAlpacaOrder { key: String, secret: String, symbol: String, side: Side, qty: Quantity<P> },
    /// Send a signed market order to Binance's test network.
    PlaceBinanceOrder { key: String, secret: String, symbol: String, side: Side, qty: Quantity<P> },
}

/// Which market data feed serves a pair.
#[derive(Debug, Clone, Copy, PartialEq, Eq, Structural)]
pub enum FeedChoice {
    Binance,
    Alpaca,
    NoFeed,
}

/// Crypto pairs stream from Binance; other pairs stream from Alpaca when
/// both Alpaca credentials are set, and have no feed otherwise.
pub open spec fn feed_choice(symbol_a: Seq<char>, key: Seq<char>, secret: Seq<char>) -> FeedChoice {
    if is_crypto(symbol_a) {
        FeedChoice::Binance
    } else if key.len() > 0 && secret.len() > 0 {
        FeedChoice::Alpaca
    } else {
        FeedChoice::NoFeed
    }
}

/// Whether `action` starts the feed `choice` for `symbols`.
pub open spec fn starts_feed<P>(
    action: EngineAction<P>,
    choice: FeedChoice,
    key: Seq<char>,
    secret: Seq<char>,
    symbols: Seq<Seq<char>>,
) -> bool {
    match action {
        EngineAction::StartBinanceFeed { symbols: s } => choice == FeedChoice::Binance && s.deep_view() == symbols,
        EngineAction::StartAlpacaFeed { key: k, secret: c, symbols: s } => {
            &&& choice == FeedChoice::Alpaca
            &&& k@ == key
            &&& c@ == secret
            &&& s.deep_view() == symbols
        },
        _ => false,
    }
}

/// `actions` stop the running feed (if `stop`) and then start the feed
/// `choice` (unless there is none), and nothing else.
pub open spec fn switches_feed<P>(
    actions: Seq<EngineAction<P>>,
    stop: bool,
    choice: FeedChoice,
    key: Seq<char>,
    secret: Seq<char>,
    symbols: Seq<Seq<char>>,
) -> bool {
    &&& actions.len() == (if stop { 1int } else { 0int }) + (if choice == FeedChoice::NoFeed { 0int } else { 1int })
    &&& stop ==> actions[0] is StopFeed
    &&& choice != FeedChoice::NoFeed ==> starts_feed(actions.last(), choice, key, secret, symbols)
}

/// The trading venues.
#[derive(Debug, Clone, Copy, PartialEq, Eq, Structural)]
pub enum Venue {
    Alpaca,
    Binance,
}

/// Whether `action` places `order` at `venue` with these credentials.
pub open spec fn places<P>(
    action: EngineAction<P>,
    venue: Venue,
    key: Seq<char>,
    secret: Seq<char>,
    order: Order<P>,
) -> bool {
    match action {
        EngineAction::PlaceAlpacaOrder { key: k, secret: c, symbol, side, qty } => {
            &&& venue == Venue::Alpaca
            &&& k@ == key
            &&& c@ == secret
            &&& symbol@ == order.symbol@
            &&& side == order.side
            &&& qty == order.qty
        },
        EngineAction::PlaceBinanceOrder { key: k, secret: c, symbol, side, qty } => {
            &&& venue == Venue::Binance
            &&& k@ == key
            &&& c@ == secret
            &&& symbol@ == order.symbol@
            &&& side == order.side
            &&& qty == order.qty
        },
        _ => false,
    }
}

/// The engine's state: the strategy, the credentials of both venues,
/// whether a market data feed task is held, and the last polled price of
/// the pair's first symbol.
pub struct EngineCore<P> {
    pub strategy: StatArbStrategy<P>,
    pub api_key_id: String,
    pub api_secret: String,
    pub binance_key: String,
    pub binance_secret: String,
    pub feed_running: bool,
    pub last_price_a: P,
}

impl<P> EngineCore<P> {
    /// The two symbols of the current pair.
    pub open spec fn pair_view(&self) -> Seq<Seq<char>> {
        seq![self.strategy.symbol_a@, self.strategy.symbol_b@]
    }

    /// The state after the kill switch: trading switched on or off.
    pub open spec fn toggled(self) -> Self {
        EngineCore { strategy: StatArbStrategy { is_active: !self.strategy.is_active, ..self.strategy }, ..self }
    }

    /// Whether new Alpaca credentials restart the feed: only for a stock
    /// pair, and only when both are set.
    pub open spec fn keys_restart_feed(&self, key: Seq<char>, secret: Seq<char>) -> bool {
        !is_crypto(self.strategy.symbol_a@) && key.len() > 0 && secret.len() > 0
    }

    /// The state with a new last polled price.
    pub open spec fn with_last_price(self, price: P) -> Self {
        EngineCore { last_price_a: price, ..self }
    }

    /// The state after new Alpaca credentials.
    pub open spec fn with_keys(self, key: String, secret: String) -> Self {
        EngineCore {
            api_key_id: key,
            api_secret: secret,
            feed_running: if self.keys_restart_feed(key@, secret@) { true } else { self.feed_running },
            ..self
        }
    }

    /// The state after switching to the pair `a`/`b`: the position is
    /// flattened, profit and loss and the last polled price are reset to
    /// `zero`, and a feed is held exactly when the new pair has one. The
    /// price windows and the order counter are kept.
    pub open spec fn with_pair(self, a: String, b: String, zero: P) -> Self {
        EngineCore {
            strategy: StatArbStrategy { symbol_a: a, symbol_b: b, position: 0, pnl: zero, ..self.strategy },
            last_price_a: zero,
            feed_running: feed_choice(a@, self.api_key_id@, self.api_secret@) != FeedChoice::NoFeed,
            ..self
        }
    }

    /// A new engine with the given Alpaca and Binance credentials, trading
    /// the starting pair with a window of `ENGINE_WINDOW` prices; as that
    /// pair is a crypto pair, it starts the Binance feed for it.
    pub fn new(api_key_id: String, api_secret: String, binance_key: String, binance_secret: String) -> (r: (
        Self,
        Vec<EngineAction<P>>,
    ))
        where P: Default + Copy
        ensures
            r.0.strategy.spec_window_size() == ENGINE_WINDOW,
            r.0.strategy.symbol_a@ == initial_symbol_a(),
            r.0.strategy.symbol_b@ == initial_symbol_b(),
            r.0.strategy.prices_a() == Seq::<P>::empty(),
            r.0.strategy.prices_b() == Seq::<P>::empty(),
            r.0.strategy.position == 0,
            r.0.strategy.order_counter == 0,
            r.0.strategy.is_active,
            call_ensures(P::default, (), r.0.strategy.pnl),
            r.0.last_price_a == r.0.strategy.pnl,
            r.0.api_key_id == api_key_id,
            r.0.api_secret == api_secret,
            r.0.binance_key == binance_key,
            r.0.binance_secret == binance_secret,
            r.0.feed_running,
            r.1@.len() == 1,
            starts_feed(r.1@[0], FeedChoice::Binance, seq![], seq![], seq![initial_symbol_a(), initial_symbol_b()]),
    {
        let a = "BTCUSDT";
        let b = "ETHUSDT";
        proof {
            reveal_strlit("BTCUSDT");
            reveal_strlit("ETHUSDT");
            assert(a@ =~= initial_symbol_a());
            assert(b@ =~= initial_symbol_b());
        }
        let strategy: StatArbStrategy<P> = StatArbStrategy::new(ENGINE_WINDOW, String::from_str(a), String::from_str(b));
        let last_price_a = strategy.pnl;
        let mut core = EngineCore {
            strategy,
            api_key_id,
            api_secret,
            binance_key,
            binance_secret,
            feed_running: false,
            last_price_a,
        };
        let mut actions: Vec<EngineAction<P>> = Vec::new();
        if is_crypto_symbol(core.strategy.symbol_a.as_str()) {
            actions.push(EngineAction::StartBinanceFeed { symbols: core.pair() });
            core.feed_running = true;
        }
        proof {
            assert(initial_symbol_a().subrange(3, 7) =~= crate::text::usdt());
        }
        (core, actions)
    }

    /// On the poll timer: a stock pair without Alpaca credentials has no
    /// streaming feed, so its quotes are polled; otherwise nothing happens.
    pub fn on_poll(&self) -> (actions: Vec<EngineAction<P>>)
        ensures
            !is_crypto(self.strategy.symbol_a@) && self.api_key_id@.len() == 0 ==> {
                &&& actions@.len() == 1
                &&& actions@[0] matches EngineAction::PollQuotes { symbols } && symbols.deep_view() == self.pair_view()
            },
            is_crypto(self.strategy.symbol_a@) || self.api_key_id@.len() > 0 ==> actions@.len() == 0,
    {
        let mut actions: Vec<EngineAction<P>> = Vec::new();
        if !is_crypto_symbol(self.strategy.symbol_a.as_str()) && self.api_key_id.as_str().is_empty() {
            actions.push(EngineAction::PollQuotes { symbols: self.pair() });
        }
        actions
    }

    /// A polled quote of the pair's first symbol becomes its last polled
    /// price; other quotes change nothing.
    pub fn note_polled_tick(&mut self, tick: &Tick<P>)
        where P: Copy
        ensures
            tick.symbol@ == old(self).strategy.symbol_a@ ==> *final(self) == old(self).with_last_price(tick.price),
            tick.symbol@ != old(self).strategy.symbol_a@ ==> *final(self) == *old(self),
    {
        if tick.symbol == self.strategy.symbol_a {
            self.last_price_a = tick.price;
        }
    }

    /// Handles a command from the user interface.
    ///
    /// The kill switch turns trading off or on. New Alpaca credentials are
    /// stored, and for a stock pair with both of them set the feed is
    /// restarted on Alpaca with them. A pair change flattens the position,
    /// resets profit and loss and the last polled price to the default
    /// (zero), stops the running feed and starts the new pair's feed.
    /// Submitted orders are not commands for the engine and are ignored.
    pub fn on_command(&mut self, cmd: StrategyCommand<P>) -> (actions: Vec<EngineAction<P>>)
        where P: Default + Copy
        ensures
            match cmd {
                StrategyCommand::KillSwitch => *final(self) == old(self).toggled() && actions@.len() == 0,
                StrategyCommand::UpdateApiKeys(key, secret) => {
                    let restart = old(self).keys_restart_feed(key@, secret@);
                    &&& *final(self) == old(self).with_keys(key, secret)
                    &&& switches_feed(
                        actions@,
                        restart && old(self).feed_running,
                        if restart { FeedChoice::Alpaca } else { FeedChoice::NoFeed },
                        key@,
                        secret@,
                        old(self).pair_view(),
                    )
                },
                StrategyCommand::ChangePair(a, b) => {
                    &&& call_ensures(P::default, (), final(self).last_price_a)
                    &&& *final(self) == old(self).with_pair(a, b, final(self).last_price_a)
                    &&& switches_feed(
                        actions@,
                        old(self).feed_running,
                        feed_choice(a@, old(self).api_key_id@, old(self).api_secret@),
                        old(self).api_key_id@,
                        old(self).api_secret@,
                        seq![a@, b@],
                    )
                },
                StrategyCommand::SubmitOrder(_) => *final(self) == *old(self) && actions@.len() == 0,
            },
    {
        let mut actions: Vec<EngineAction<P>> = Vec::new();
        match cmd {
            StrategyCommand::KillSwitch => {
                self.strategy.is_active = !self.strategy.is_active;
            },
            StrategyCommand::UpdateApiKeys(key, secret) => {
                let restart = !is_crypto_symbol(self.strategy.symbol_a.as_str()) && !key.as_str().is_empty()
                    && !secret.as_str().is_empty();
                if restart {
                    if self.feed_running {
                        actions.push(EngineAction::StopFeed);
                    }
                    actions.push(
                        EngineAction::StartAlpacaFeed { key: key.clone(), secret: secret.clone(), symbols: self.pair() },
                    );
                    self.feed_running = true;
                }
                self.api_key_id = key;
                self.api_secret = secret;
            },
            StrategyCommand::ChangePair(a, b) => {
                let zero = P::default();
                self.strategy.symbol_a = a;
                self.strategy.symbol_b = b;
                self.strategy.position = 0;
                self.strategy.pnl = zero;
                self.last_price_a = zero;
                if self.feed_running {
                    actions.push(EngineAction::StopFeed);
                    self.feed_running = false;
                }
                if is_crypto_symbol(self.strategy.symbol_a.as_str()) {
                    actions.push(EngineAction::StartBinanceFeed { symbols: self.pair() });
                    self.feed_running = true;
                } else if !self.api_key_id.as_str().is_empty() && !self.api_secret.as_str().is_empty() {
                    actions.push(
                        EngineAction::StartAlpacaFeed {
                            key: self.api_key_id.clone(),
                            secret: self.api_secret.clone(),
                            symbols: self.pair(),
                        },
                    );
                    self.feed_running = true;
                }
            },
            StrategyCommand::SubmitOrder(_) => {},
        }
        actions
    }

    /// Where a strategy order is forwarded: stock orders to Alpaca when
    /// both Alpaca credentials are set, crypto orders to Binance when both
    /// Binance credentials are set; an order goes to at most one venue.
    pub fn route_order(&self, order: &Order<P>) -> (actions: Vec<EngineAction<P>>)
        where P: Copy
        ensures
            ({
                let crypto = is_crypto(order.symbol@);
                let to_alpaca = self.api_key_id@.len() > 0 && self.api_secret@.len() > 0 && !crypto;
                let to_binance = self.binance_key@.len() > 0 && self.binance_secret@.len() > 0 && crypto;
                &&& actions@.len() == (if to_alpaca || to_binance { 1int } else { 0int })
                &&& to_alpaca ==> places(actions@[0], Venue::Alpaca, self.api_key_id@, self.api_secret@, *order)
                &&& to_binance ==> places(actions@[0], Venue::Binance, self.binance_key@, self.binance_secret@, *order)
            }),
    {
        let mut actions: Vec<EngineAction<P>> = Vec::new();
        let crypto = is_crypto_symbol(order.symbol.as_str());
        if !self.api_key_id.as_str().is_empty() && !self.api_secret.as_str().is_empty() && !crypto {
            actions.push(
                EngineAction::PlaceAlpacaOrder {
                    key: self.api_key_id.clone(),
                    secret: self.api_secret.clone(),
                    symbol: order.symbol.clone(),
                    side: order.side,
                    qty: order.qty,
                },
            );
        }
        if !self.binance_key.as_str().is_empty() && !self.binance_secret.as_str().is_empty() && crypto {
            actions.push(
                EngineAction::PlaceBinanceOrder {
                    key: self.binance_key.clone(),
                    secret: self.binance_secret.clone(),
                    symbol: order.symbol.clone(),
                    side: order.side,
                    qty: order.qty,
                },
            );
        }
        actions
    }

    /// The two symbols of the current pair.
    fn pair(&self) -> (v: Vec<String>)
        ensures
            v.deep_view() == self.pair_view(),
    {
        let v = vec![self.strategy.symbol_a.clone(), self.strategy.symbol_b.clone()];
        assert(v.deep_view() =~= self.pair_view());
        v
    }
}

/// Pressing the kill switch twice leaves the engine as it was.
pub proof fn kill_switch_twice_restores<P>(s: EngineCore<P>)
    ensures
        s.toggled().toggled() == s,
{
}

/// Switching to the same pair a second time leaves the engine as the first
/// switch did.
pub proof fn pair_change_is_idempotent<P>(s: EngineCore<P>, a: String, b: String, zero: P)
    ensures
        s.with_pair(a, b, zero).with_pair(a, b, zero) == s.with_pair(a, b, zero),
{
}

/// A pair change flattens the position but keeps the price windows, the
/// order counter, the trading switch and the credentials.
pub proof fn pair_change_keeps_history<P>(s: EngineCore<P>, a: String, b: String, zero: P)
    ensures
        s.with_pair(a, b, zero).strategy.position == 0,
        s.with_pair(a, b, zero).strategy.history_a == s.strategy.history_a,
        s.with_pair(a, b, zero).strategy.history_b == s.strategy.history_b,
        s.with_pair(a, b, zero).strategy.order_counter == s.strategy.order_counter,
        s.with_pair(a, b, zero).strategy.is_active == s.strategy.is_active,
        s.with_pair(a, b, zero).api_key_id == s.api_key_id,
        s.with_pair(a, b, zero).binance_key == s.binance_key,
{
}

/// New Alpaca credentials never touch the feed of a crypto pair.
pub proof fn keys_leave_crypto_feed<P>(s: EngineCore<P>, key: String, secret: String)
    requires
        is_crypto(s.strategy.symbol_a@),
    ensures
        s.with_keys(key, secret).feed_running == s.feed_running,
        s.with_keys(key, secret).strategy == s.strategy,
{
}

/// A pair whose first symbol is quoted in USDT always streams from Binance,
/// whatever Alpaca credentials are stored.
pub proof fn crypto_pairs_stream_from_binance(symbol_a: Seq<char>, key: Seq<char>, secret: Seq<char>)
    requires
        is_crypto(symbol_a),
    ensures
        feed_choice(symbol_a, key, secret) == FeedChoice::Binance,
{
}

/// A stock pair streams from Alpaca exactly when both Alpaca credentials
/// are set, and has no feed otherwise; it never streams from Binance.
pub proof fn stock_pairs_stream_from_alpaca_with_keys(symbol_a: Seq<char>, key: Seq<char>, secret: Seq<char>)
    requires
        !is_crypto(symbol_a),
    ensures
        (feed_choice(symbol_a, key, secret) == FeedChoice::Alpaca) == (key.len() > 0 && secret.len() > 0),
        feed_choice(symbol_a, key, secret) != FeedChoice::Binance,
{
}

/// For a stock pair, a complete set of new Alpaca credentials always
/// (re)starts the Alpaca feed with them and leaves a feed held, whether or
/// not a feed was running before.
pub proof fn new_keys_always_start_the_stock_feed<P>(s: EngineCore<P>, key: String, secret: String)
    requires
        !is_crypto(s.strategy.symbol_a@),
        key@.len() > 0,
        secret@.len() > 0,
    ensures
        s.keys_restart_feed(key@, secret@),
        s.with_keys(key, secret).feed_running,
        s.with_keys(key, secret).api_key_id == key,
        s.with_keys(key, secret).api_secret == secret,
        (EngineCore { feed_running: !s.feed_running, ..s }).keys_restart_feed(key@, secret@),
{
}

} // verus!
