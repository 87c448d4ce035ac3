//! The pair-trading strategy: rolling price windows for the two symbols of a
//! pair, and the position it takes when the spread's z-score leaves or
//! re-enters its bands.
//!
//! The statistics themselves (hedge ratio, spread, z-score) are computed on
//! the prices of the windows by the caller; the strategy receives the band
//! that the z-score fell into.

use vstd::prelude::*;
use std::collections::VecDeque;
use crate::market::{submits, Order, Quantity, Side, StrategyCommand, Tick};
use crate::window::{push_within, window_push};
use crate::clock::now_millis;

verus! {

/// The number of aligned samples both windows must hold before the strategy
/// computes statistics and trades.
pub const MIN_SAMPLES: usize = 20;

/// Where the z-score of the spread lies.
#[derive(Debug, Clone, Copy, PartialEq, Eq, Structural)]
pub enum ZBand {
    /// Above the upper entry band (z > 2).
    Above,
    /// Below the lower entry band (z < -2).
    Below,
    /// Close to the mean (|z| < 0.5).
    NearMean,
    /// None of the above (including an undefined z-score).
    Between,
}

/// One leg of a planned trade: on the first symbol of the pair (`true`) or
/// the second (`false`), its side and its size.
pub type Leg<P> = (bool, Side, Quantity<P>);

/// The position after reacting to `band`.
pub open spec fn position_after(position: int, band: ZBand) -> int {
    match band {
        ZBand::Above => if position <= 0 { position - 1 } else { position },
        ZBand::Below => if position >= 0 { position + 1 } else { position },
        ZBand::NearMean => 0,
        ZBand::Between => position,
    }
}

/// The orders the strategy sends when the z-score is in `band`: above the
/// upper band it shorts the spread (sells the first symbol, buys `beta` of
/// the second), below the lower band it goes long the spread, and near the
/// mean it flattens a nonzero position with both legs sized by the position.
pub open spec fn planned_legs<P>(position: int, band: ZBand, beta: P) -> Seq<Leg<P>> {
    match band {
        ZBand::Above => if position <= 0 {
            seq![(true, Side::Sell, Quantity::Units(1)), (false, Side::Buy, Quantity::HedgeLots(1, beta))]
        } else {
            seq![]
        },
        ZBand::Below => if position >= 0 {
            seq![(true, Side::Buy, Quantity::Units(1)), (false, Side::Sell, Quantity::HedgeLots(1, beta))]
        } else {
            seq![]
        },
        ZBand::NearMean => if position > 0 {
            seq![
                (true, Side::Sell, Quantity::Units(position as u32)),
                (false, Side::Buy, Quantity::HedgeLots(position as u32, beta)),
            ]
        } else if position < 0 {
            seq![
                (true, Side::Buy, Quantity::Units((-position) as u32)),
                (false, Side::Sell, Quantity::HedgeLots((-position) as u32, beta)),
            ]
        } else {
            seq![]
        },
        ZBand::Between => seq![],
    }
}

/// The number of the `i`-th order (from 0) of a reaction that starts from
/// the order counter `counter`.
pub open spec fn order_number(counter: int, i: int) -> int {
    counter + i + 1
}

/// The number of orders a reaction to `band` sends.
pub open spec fn planned_count(position: int, band: ZBand) -> nat {
    match band {
        ZBand::Above => if position <= 0 { 2 } else { 0 },
        ZBand::Below => if position >= 0 { 2 } else { 0 },
        ZBand::NearMean => if position != 0 { 2 } else { 0 },
        ZBand::Between => 0,
    }
}

/// The number of orders a reaction to `band` sends from `position`.
pub fn planned_order_count(position: i32, band: ZBand) -> (n: u64)
    ensures
        n == planned_count(position as int, band),
{
    match band {
        ZBand::Above => if position <= 0 { 2 } else { 0 },
        ZBand::Below => if position >= 0 { 2 } else { 0 },
        ZBand::NearMean => if position != 0 { 2 } else { 0 },
        ZBand::Between => 0,
    }
}

/// Whether reacting to `band` keeps the position and the absolute value taken
/// of it within `i32`.
pub open spec fn band_fits(position: i32, band: ZBand) -> bool {
    match band {
        ZBand::Above => position <= 0 ==> position > i32::MIN,
        ZBand::Below => position >= 0 ==> position < i32::MAX,
        ZBand::NearMean => position != i32::MIN,
        ZBand::Between => true,
    }
}

/// Whether reacting to `band` from `position` stays within `i32`.
pub fn reaction_fits(position: i32, band: ZBand) -> (ok: bool)
    ensures
        ok == band_fits(position, band),
{
    match band {
        ZBand::Above => !(position <= 0) || position > i32::MIN,
        ZBand::Below => !(position >= 0) || position < i32::MAX,
        ZBand::NearMean => position != i32::MIN,
        ZBand::Between => true,
    }
}

/// A statistical-arbitrage strategy on a pair of symbols.
pub struct StatArbStrategy<P> {
    pub window_size: usize,
    pub symbol_a: String,
    pub symbol_b: String,
    pub history_a: VecDeque<P>,
    pub history_b: VecDeque<P>,
    pub position: i32,
    pub pnl: P,
    pub order_counter: u64,
    pub is_active: bool,
}

impl<P> StatArbStrategy<P> {
    /// How many recent prices each window keeps.
    pub open spec fn spec_window_size(&self) -> nat {
        self.window_size as nat
    }

    /// The recent prices of the first symbol, oldest first.
    pub open spec fn prices_a(&self) -> Seq<P> {
        self.history_a@
    }

    /// The recent prices of the second symbol, oldest first.
    pub open spec fn prices_b(&self) -> Seq<P> {
        self.history_b@
    }

    /// The number of aligned samples: the shorter of the two windows.
    pub open spec fn samples(&self) -> nat {
        if self.prices_a().len() <= self.prices_b().len() {
            self.prices_a().len()
        } else {
            self.prices_b().len()
        }
    }

    /// The last price of the first symbol.
    pub open spec fn last_a(&self) -> P {
        self.prices_a().last()
    }

    /// The last price of the second symbol.
    pub open spec fn last_b(&self) -> P {
        self.prices_b().last()
    }

    /// Everything but the two windows is as in `other`.
    pub open spec fn same_except_windows(&self, other: &Self) -> bool {
        &&& self.spec_window_size() == other.spec_window_size()
        &&& self.symbol_a == other.symbol_a
        &&& self.symbol_b == other.symbol_b
        &&& self.position == other.position
        &&& self.pnl == other.pnl
        &&& self.order_counter == other.order_counter
        &&& self.is_active == other.is_active
    }

    /// A new, active strategy with empty windows, no position, no orders
    /// and the default (zero) profit and loss.
    pub fn new(window_size: usize, symbol_a: String, symbol_b: String) -> (s: Self)
        where P: Default
        ensures
            s.spec_window_size() == window_size,
            s.symbol_a == symbol_a,
            s.symbol_b == symbol_b,
            s.prices_a() == Seq::<P>::empty(),
            s.prices_b() == Seq::<P>::empty(),
            s.position == 0,
            call_ensures(P::default, (), s.pnl),
            s.order_counter == 0,
            s.is_active,
    {
        StatArbStrategy {
            window_size,
            symbol_a,
            symbol_b,
            history_a: VecDeque::with_capacity(window_size),
            history_b: VecDeque::with_capacity(window_size),
            position: 0,
            pnl: P::default(),
            order_counter: 0,
            is_active: true,
        }
    }

    /// The samples figure reported after a recorded tick: the number of
    /// aligned samples once both windows hold at least `MIN_SAMPLES` prices.
    pub open spec fn ready_samples(&self) -> Option<usize> {
        if self.samples() >= MIN_SAMPLES {
            Some(self.samples() as usize)
        } else {
            None
        }
    }

    /// Records a tick of either symbol of the pair into that symbol's window.
    ///
    /// An inactive strategy, or a tick of another symbol, changes nothing and
    /// gives `None`. Otherwise the price enters its window (the oldest price
    /// leaving a full window) and the result is the number of aligned samples
    /// when both windows hold at least `MIN_SAMPLES` prices, else `None`.
    pub fn record_tick(&mut self, tick: &Tick<P>) -> (ready: Option<usize>)
        where P: Copy
        ensures
            final(self).same_except_windows(old(self)),
            !old(self).is_active ==> *final(self) == *old(self) && ready is None,
            old(self).is_active && tick.symbol@ == old(self).symbol_a@ ==> {
                &&& final(self).prices_a() == window_push(old(self).prices_a(), old(self).spec_window_size(), tick.price)
                &&& final(self).prices_b() == old(self).prices_b()
                &&& ready == final(self).ready_samples()
            },
            old(self).is_active && tick.symbol@ != old(self).symbol_a@ && tick.symbol@ == old(self).symbol_b@ ==> {
                &&& final(self).prices_a() == old(self).prices_a()
                &&& final(self).prices_b() == window_push(old(self).prices_b(), old(self).spec_window_size(), tick.price)
                &&& ready == final(self).ready_samples()
            },
            tick.symbol@ != old(self).symbol_a@ && tick.symbol@ != old(self).symbol_b@ ==>
                *final(self) == *old(self) && ready is None,
    {
        if !self.is_active {
            return None;
        }
        if tick.symbol == self.symbol_a {
            push_within(&mut self.history_a, self.window_size, tick.price);
        } else if tick.symbol == self.symbol_b {
            push_within(&mut self.history_b, self.window_size, tick.price);
        } else {
            return None;
        }
        let len_a = self.history_a.len();
        let len_b = self.history_b.len();
        let n = if len_a <= len_b { len_a } else { len_b };
        if n >= MIN_SAMPLES {
            Some(n)
        } else {
            None
        }
    }

    /// Emits one order: the counter advances and gives the order its id;
    /// the order is stamped with the current time.
    fn create_order(&mut self, symbol: &String, side: Side, price: P, qty: Quantity<P>) -> (cmd: StrategyCommand<P>)
        requires
            old(self).order_counter < u64::MAX,
        ensures
            final(self).order_counter == old(self).order_counter + 1,
            final(self).history_a == old(self).history_a,
            final(self).history_b == old(self).history_b,
            final(self).window_size == old(self).window_size,
            final(self).symbol_a == old(self).symbol_a,
            final(self).symbol_b == old(self).symbol_b,
            final(self).position == old(self).position,
            final(self).pnl == old(self).pnl,
            final(self).is_active == old(self).is_active,
            submits(cmd, final(self).order_counter as int, symbol@, side, price, qty),
    {
        self.order_counter = self.order_counter + 1;
        StrategyCommand::SubmitOrder(Order {
            id: self.order_counter,
            symbol: symbol.clone(),
            side,
            price,
            qty,
            timestamp: now_millis(),
        })
    }

    /// Reacts to the band of the spread's z-score computed on the current
    /// windows, with hedge ratio `beta`: updates the position as
    /// `position_after` says and emits the orders of `planned_legs`, in that
    /// order, priced at the last price of their symbol and numbered on from
    /// the order counter.
    pub fn apply_band(&mut self, band: ZBand, beta: P) -> (cmds: Vec<StrategyCommand<P>>)
        where P: Copy
        requires
            old(self).prices_a().len() > 0,
            old(self).prices_b().len() > 0,
            band_fits(old(self).position, band),
            old(self).order_counter + planned_count(old(self).position as int, band) <= u64::MAX,
        ensures
            ({
                let legs = planned_legs(old(self).position as int, band, beta);
                &&& cmds@.len() == legs.len()
                &&& legs.len() == planned_count(old(self).position as int, band)
                &&& forall|i: int| 0 <= i < legs.len() ==> submits(
                    #[trigger] cmds@[i],
                    order_number(old(self).order_counter as int, i),
                    if legs[i].0 { old(self).symbol_a@ } else { old(self).symbol_b@ },
                    legs[i].1,
                    if legs[i].0 { old(self).last_a() } else { old(self).last_b() },
                    legs[i].2,
                )
                &&& final(self).order_counter == old(self).order_counter + legs.len()
            }),
            final(self).position == position_after(old(self).position as int, band),
            final(self).history_a == old(self).history_a,
            final(self).history_b == old(self).history_b,
            final(self).window_size == old(self).window_size,
            final(self).symbol_a == old(self).symbol_a,
            final(self).symbol_b == old(self).symbol_b,
            final(self).pnl == old(self).pnl,
            final(self).is_active == old(self).is_active,
    {
        let current_a = self.history_a[self.history_a.len() - 1];
        let current_b = self.history_b[self.history_b.len() - 1];
        let sym_a = self.symbol_a.clone();
        let sym_b = self.symbol_b.clone();
        let mut commands: Vec<StrategyCommand<P>> = Vec::new();
        match band {
            ZBand::Above => {
                if self.position <= 0 {
                    self.position = self.position - 1;
                    let c0 = self.create_order(&sym_a, Side::Sell, current_a, Quantity::Units(1));
                    commands.push(c0);
                    let c1 = self.create_order(&sym_b, Side::Buy, current_b, Quantity::HedgeLots(1, beta));
                    commands.push(c1);
                }
            },
            ZBand::Below => {
                if self.position >= 0 {
                    self.position = self.position + 1;
                    let c0 = self.create_order(&sym_a, Side::Buy, current_a, Quantity::Units(1));
                    commands.push(c0);
                    let c1 = self.create_order(&sym_b, Side::Sell, current_b, Quantity::HedgeLots(1, beta));
                    commands.push(c1);
                }
            },
            ZBand::NearMean => {
                if self.position != 0 {
                    if self.position > 0 {
                        let lots: u32 = self.position as u32;
                        let c0 = self.create_order(&sym_a, Side::Sell, current_a, Quantity::Units(lots));
                        commands.push(c0);
                        let c1 = self.create_order(&sym_b, Side::Buy, current_b, Quantity::HedgeLots(lots, beta));
                        commands.push(c1);
                    } else {
                        let lots: u32 = (-self.position) as u32;
                        let c0 = self.create_order(&sym_a, Side::Buy, current_a, Quantity::Units(lots));
                        commands.push(c0);
                        let c1 = self.create_order(&sym_b, Side::Sell, current_b, Quantity::HedgeLots(lots, beta));
                        commands.push(c1);
                    }
                    self.position = 0;
                }
            },
            ZBand::Between => {},
        }
        commands
    }
}

/// The number of lots of a quantity.
pub open spec fn lots<P>(q: Quantity<P>) -> nat {
    match q {
        Quantity::Units(n) => n as nat,
        Quantity::HedgeLots(n, _) => n as nat,
    }
}

/// Every reaction trades the spread as a whole: either no order, or one
/// order on each symbol of the pair (the first symbol first), on opposite
/// sides, with the same number of lots, the second sized by the hedge ratio.
pub proof fn legs_hedge_each_other<P>(position: int, band: ZBand, beta: P)
    ensures
        ({
            let legs = planned_legs(position, band, beta);
            legs.len() == 0 || {
                &&& legs.len() == 2
                &&& legs[0].0 && !legs[1].0
                &&& legs[0].1 != legs[1].1
                &&& legs[0].2 is Units
                &&& legs[1].2 matches Quantity::HedgeLots(_, h) && h == beta
                &&& lots(legs[0].2) == lots(legs[1].2)
            }
        }),
{
}

/// Orders are sent exactly when the position changes, and a closing trade
/// is sized by the whole position it flattens.
pub proof fn orders_iff_position_changes<P>(position: int, band: ZBand, beta: P)
    requires
        i32::MIN < position <= i32::MAX,
    ensures
        (planned_legs(position, band, beta).len() > 0) == (position_after(position, band) != position),
        band == ZBand::NearMean && position != 0 ==> lots(planned_legs(position, band, beta)[0].2) == if position > 0 { position } else { -position },
{
}

/// The spread position only ever moves one lot at a time, except when it is
/// flattened at once.
pub proof fn position_moves_one_lot_or_flattens(position: int, band: ZBand)
    ensures
        position_after(position, band) == 0
            || position_after(position, band) - position == 1
            || position - position_after(position, band) == 1
            || position_after(position, band) == position,
{
}

/// Order numbers never repeat: a reaction numbers its orders on from the
/// counter and advances the counter past them, so every order of the next
/// reaction has a larger number than every order of this one.
pub proof fn order_numbers_increase(counter: int, first: ZBand, position: int, second: ZBand, later_position: int)
    ensures
        forall|i: int, j: int|
            0 <= i < planned_count(position, first) && 0 <= j < planned_count(later_position, second) ==>
                #[trigger] order_number(counter, i) < #[trigger] order_number(counter + planned_count(position, first), j),
{
}

/// The signed number of units of one leg: positive when bought, negative
/// when sold.
pub open spec fn signed_lots<P>(leg: Leg<P>) -> int {
    if leg.1 == Side::Buy {
        lots(leg.2) as int
    } else {
        -(lots(leg.2) as int)
    }
}

/// The net units of the pair's first symbol (`on_first`) or second symbol
/// that a list of legs buys.
pub open spec fn net_lots<P>(legs: Seq<Leg<P>>, on_first: bool) -> int
    decreases legs.len(),
{
    if legs.len() == 0 {
        0
    } else {
        net_lots(legs.drop_last(), on_first) + if legs.last().0 == on_first { signed_lots(legs.last()) } else { 0 }
    }
}

/// Every reaction trades exactly its change of position: the net units of
/// the first symbol it buys equal the change of the spread position, and the
/// second symbol is traded the opposite way in as many hedge lots.
pub proof fn orders_trade_the_position_change<P>(position: int, band: ZBand, beta: P)
    requires
        i32::MIN < position <= i32::MAX,
    ensures
        net_lots(planned_legs(position, band, beta), true) == position_after(position, band) - position,
        net_lots(planned_legs(position, band, beta), false) == position - position_after(position, band),
{
    let legs = planned_legs(position, band, beta);
    if legs.len() == 2 {
        assert(legs.drop_last() =~= seq![legs[0]]);
        assert(legs.drop_last().drop_last() =~= Seq::<Leg<P>>::empty());
        assert(net_lots(legs.drop_last().drop_last(), true) == 0);
        assert(net_lots(legs.drop_last().drop_last(), false) == 0);
        assert(net_lots(legs.drop_last(), true) == if legs[0].0 { signed_lots(legs[0]) } else { 0 });
        assert(net_lots(legs.drop_last(), false) == if !legs[0].0 { signed_lots(legs[0]) } else { 0 });
    } else {
        assert(legs.len() == 0);
    }
}

/// Near the mean a nonzero position is flattened by trading against it: the
/// first symbol is sold when the spread is long and bought when it is short,
/// in as many units as the position holds, the second symbol the opposite
/// way in as many hedge lots of `beta`, and the position becomes 0.
pub proof fn flattening_trades_against_the_position<P>(position: int, beta: P)
    requires
        position != 0,
        i32::MIN < position <= i32::MAX,
    ensures
        position_after(position, ZBand::NearMean) == 0,
        ({
            let legs = planned_legs(position, ZBand::NearMean, beta);
            let size = if position > 0 { position } else { -position };
            &&& legs.len() == 2
            &&& legs[0].0 && !legs[1].0
            &&& legs[0].1 == (if position > 0 { Side::Sell } else { Side::Buy })
            &&& legs[1].1 == (if position > 0 { Side::Buy } else { Side::Sell })
            &&& legs[0].2 == Quantity::<P>::Units(size as u32)
            &&& legs[1].2 == Quantity::HedgeLots(size as u32, beta)
            &&& lots(legs[0].2) == size
            &&& net_lots(legs, true) == -position
        }),
{
    orders_trade_the_position_change(position, ZBand::NearMean, beta);
}

/// Below the lower band, from a flat or long spread of any size, the spread
/// is bought once more: one unit of the first symbol bought, one hedge lot
/// of `beta` of the second sold, and the position rises by one, exactly as
/// from a flat position.
pub proof fn below_band_adds_one_long_lot<P>(position: int, beta: P)
    requires
        0 <= position,
    ensures
        position_after(position, ZBand::Below) == position + 1,
        planned_count(position, ZBand::Below) == 2,
        planned_legs(position, ZBand::Below, beta) == seq![
            (true, Side::Buy, Quantity::<P>::Units(1)),
            (false, Side::Sell, Quantity::HedgeLots(1, beta)),
        ],
{
}

/// Above the upper band, from a flat or short spread of any size, the spread
/// is sold once more: one unit of the first symbol sold, one hedge lot of
/// `beta` of the second bought, and the position falls by one, exactly as
/// from a flat position.
pub proof fn above_band_adds_one_short_lot<P>(position: int, beta: P)
    requires
        position <= 0,
    ensures
        position_after(position, ZBand::Above) == position - 1,
        planned_count(position, ZBand::Above) == 2,
        planned_legs(position, ZBand::Above, beta) == seq![
            (true, Side::Sell, Quantity::<P>::Units(1)),
            (false, Side::Buy, Quantity::HedgeLots(1, beta)),
        ],
{
}

/// An entry never trades against the position: above the upper band a long
/// spread, and below the lower band a short spread, are left as they are.
pub proof fn entries_never_trade_against_the_position<P>(position: int, beta: P)
    ensures
        position > 0 ==> position_after(position, ZBand::Above) == position
            && planned_legs(position, ZBand::Above, beta).len() == 0,
        position < 0 ==> position_after(position, ZBand::Below) == position
            && planned_legs(position, ZBand::Below, beta).len() == 0,
{
}

} // verus!
