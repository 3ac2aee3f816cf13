//! The market-making strategy: a quoting engine that keeps at most one
//! resting bid and one resting ask, detects fills against incoming
//! snapshots, skews its quotes against inventory and hedges down
//! oversized positions.
//!
//! `spec_mm_step` is the mathematical description of one snapshot's
//! processing; `on_market_data` is proved to implement it exactly.

use vstd::prelude::*;
use vstd::string::StringExecFns;

use crate::position::Position;
use crate::types::{L2Snapshot, Side, Trade, MAX_PRICE, MAX_QTY};

verus! {

/// A resting limit order the strategy believes is live in the book.
#[derive(Debug, Clone, Copy, PartialEq, Eq, Structural)]
pub struct LimitOrder {
    pub price: i64,
    pub quantity: i64,
}

impl LimitOrder {
    fn new(price: i64, quantity: i64) -> (r: Self)
        ensures
            r == (LimitOrder { price, quantity }),
    {
        Self { price, quantity }
    }
}

/// Market-maker tuning. Offsets are in fixed-point price units (the
/// product of a tick count and the tick size); ratios are in percent.
#[derive(Debug, Clone, Copy, PartialEq, Eq, Structural)]
pub struct MarketMakerConfig {
    /// How far beyond the touch to rest quotes, in price units.
    pub spread_offset: i64,
    /// Size of each resting quote.
    pub quote_size: i64,
    /// Inventory bound used by the quoting gates, positive.
    pub max_position: i64,
    /// Minimum price increment; a quote is replaced only when the desired
    /// price moves by at least half of this.
    pub tick_size: i64,
    /// Percentage of `max_position` beyond which a side stops quoting.
    pub inventory_threshold_pct: i64,
    /// Price-unit shift applied to both quotes at full inventory.
    pub inventory_skew_offset: i64,
    /// Trend filter threshold in price units; 0 disables the filter.
    pub trend_filter_offset: i64,
    /// Percentage of `max_position` beyond which the hedge path fires.
    pub hedge_inventory_pct: i64,
}

impl MarketMakerConfig {
    /// Acceptable tuning: positive sizes and tick, offsets and ratios in
    /// range. Rejecting `max_position == 0` here keeps every ratio below
    /// well-defined.
    pub open spec fn wf(&self) -> bool {
        &&& 0 < self.tick_size <= MAX_PRICE
        &&& 0 <= self.spread_offset <= MAX_PRICE
        &&& 0 < self.quote_size <= MAX_QTY
        &&& 0 < self.max_position <= MAX_QTY
        &&& 0 <= self.inventory_threshold_pct <= 100
        &&& 0 <= self.inventory_skew_offset <= MAX_PRICE
        &&& 0 <= self.trend_filter_offset <= MAX_PRICE
        &&& 0 <= self.hedge_inventory_pct <= 100
    }
}

impl Default for MarketMakerConfig {
    /// Defaults at a scale of one unit = 0.001: a 0.05 tick, quotes half
    /// a tick beyond the touch, 0.1 quote size against a 1.0 position cap.
    fn default() -> (r: Self)
        ensures
            r.wf(),
    {
        Self {
            spread_offset: 25,
            quote_size: 100,
            max_position: 1000,
            tick_size: 50,
            inventory_threshold_pct: 90,
            inventory_skew_offset: 25,
            trend_filter_offset: 25,
            hedge_inventory_pct: 50,
        }
    }
}

/// Inventory skew: the fraction `pos / max_position`, clamped to
/// `[-1, 1]`, of the full skew offset, rounded toward zero.
pub open spec fn spec_skew(c: MarketMakerConfig, pos: int) -> int {
    let clamped = if pos > c.max_position {
        c.max_position as int
    } else if pos < -c.max_position {
        -(c.max_position as int)
    } else {
        pos
    };
    if clamped >= 0 {
        clamped * c.inventory_skew_offset / c.max_position as int
    } else {
        -((-clamped) * c.inventory_skew_offset / c.max_position as int)
    }
}

/// Desired bid price: the best bid, minus the configured offset, minus
/// the inventory skew.
pub open spec fn spec_desired_bid(c: MarketMakerConfig, best_bid: int, pos: int) -> int {
    best_bid - c.spread_offset - spec_skew(c, pos)
}

/// Desired ask price: the best ask, plus the configured offset, minus
/// the inventory skew (the skew pushes both quotes the same way).
pub open spec fn spec_desired_ask(c: MarketMakerConfig, best_ask: int, pos: int) -> int {
    best_ask + c.spread_offset - spec_skew(c, pos)
}

/// Inventory gate for the bid: quoting stops at `max_position` or once
/// `pos / max_position` reaches the inventory threshold.
pub open spec fn spec_quote_bid_gate(c: MarketMakerConfig, pos: int) -> bool {
    pos < c.max_position && pos * 100 < c.inventory_threshold_pct * c.max_position
}

/// Inventory gate for the ask, symmetric to the bid gate.
pub open spec fn spec_quote_ask_gate(c: MarketMakerConfig, pos: int) -> bool {
    pos > -c.max_position && pos * 100 > -(c.inventory_threshold_pct * c.max_position)
}

/// The bid also yields to the trend filter: no bid into a falling market
/// while flat or long. `trend2` is twice the mid-price move.
pub open spec fn spec_bid_allowed(c: MarketMakerConfig, pos: int, trend2: int) -> bool {
    spec_quote_bid_gate(c, pos)
        && !(c.trend_filter_offset > 0 && trend2 < -2 * c.trend_filter_offset && pos >= 0)
}

/// The ask yields to the trend filter: no ask into a rising market while
/// flat or short.
pub open spec fn spec_ask_allowed(c: MarketMakerConfig, pos: int, trend2: int) -> bool {
    spec_quote_ask_gate(c, pos)
        && !(c.trend_filter_offset > 0 && trend2 > 2 * c.trend_filter_offset && pos <= 0)
}

/// Twice the mid-price move since the previous snapshot, zero on the
/// first.
pub open spec fn spec_trend2(last_mid2: Option<i64>, snap: L2Snapshot) -> int {
    match last_mid2 {
        Some(p) => snap.spec_mid2() - p,
        None => 0,
    }
}

/// One fill-detection pass: a resting bid fills when the best ask has
/// come down to it, a resting ask when the best bid has come up to it.
/// Returns the surviving quotes and the fill trades, bid first.
pub open spec fn spec_fills(
    bid: Option<LimitOrder>,
    ask: Option<LimitOrder>,
    best_bid: int,
    best_ask: int,
    ts: u64,
) -> (Option<LimitOrder>, Option<LimitOrder>, Seq<Trade>) {
    let bid_hit = bid is Some && best_ask <= bid->0.price;
    let ask_hit = ask is Some && best_bid >= ask->0.price;
    let bid_trades: Seq<Trade> = if bid_hit {
        seq![Trade {
            side: Side::Bid,
            price: bid->0.price,
            quantity: bid->0.quantity,
            timestamp_us: ts,
        }]
    } else {
        seq![]
    };
    let ask_trades: Seq<Trade> = if ask_hit {
        seq![Trade {
            side: Side::Ask,
            price: ask->0.price,
            quantity: ask->0.quantity,
            timestamp_us: ts,
        }]
    } else {
        seq![]
    };
    (
        if bid_hit { None } else { bid },
        if ask_hit { None } else { ask },
        bid_trades + ask_trades,
    )
}

/// Quantity of the de-risking trade for an absolute position `pos_abs`
/// beyond the hedge threshold: the excess over the threshold (rounded
/// down to whole units), capped at one quote size.
pub open spec fn spec_hedge_qty(c: MarketMakerConfig, pos_abs: int) -> int {
    vstd::math::min(
        (pos_abs * 100 - c.max_position * c.hedge_inventory_pct) / 100,
        c.quote_size as int,
    )
}

/// The hedge trade, if the position has grown past
/// `max_position * hedge_inventory_pct`: sell at the best bid to cut a
/// long, buy at the best ask to cut a short. A whole-unit excess of zero
/// emits nothing.
pub open spec fn spec_hedge_trade(c: MarketMakerConfig, pos: int, snap: L2Snapshot) -> Option<Trade> {
    if pos * 100 > c.max_position * c.hedge_inventory_pct {
        let qty = spec_hedge_qty(c, pos);
        if qty > 0 {
            Some(Trade {
                side: Side::Ask,
                price: snap.bids@[0].price,
                quantity: qty as i64,
                timestamp_us: snap.timestamp_us,
            })
        } else {
            None
        }
    } else if pos * 100 < -(c.max_position * c.hedge_inventory_pct) {
        let qty = spec_hedge_qty(c, -pos);
        if qty > 0 {
            Some(Trade {
                side: Side::Bid,
                price: snap.asks@[0].price,
                quantity: qty as i64,
                timestamp_us: snap.timestamp_us,
            })
        } else {
            None
        }
    } else {
        None
    }
}

/// Re-quote throttle: place a fresh order only when none is resting or
/// the desired price moved by at least half a tick; otherwise leave the
/// resting order alone. Returns the resulting quote and whether a new
/// order was placed.
pub open spec fn spec_requote(
    cur: Option<LimitOrder>,
    desired: int,
    tick: int,
    size: i64,
) -> (Option<LimitOrder>, bool) {
    let need = match cur {
        Some(o) => 2 * vstd::math::abs(o.price - desired) >= tick,
        None => true,
    };
    if need {
        (Some(LimitOrder { price: desired as i64, quantity: size }), true)
    } else {
        (cur, false)
    }
}

/// Everything one snapshot does to the market maker: the surviving
/// quotes, the emitted trades in order, and which sides placed a new
/// quote.
pub struct MmOutcome {
    pub active_bid: Option<LimitOrder>,
    pub active_ask: Option<LimitOrder>,
    pub trades: Seq<Trade>,
    pub placed_bid: bool,
    pub placed_ask: bool,
}

/// The complete per-snapshot procedure, in the fixed order: fill
/// detection, hedging (which clears both quotes when it fires), desired
/// price computation, gating, the re-quote throttle, and one more fill
/// pass if a new quote was placed.
pub open spec fn spec_mm_step(
    c: MarketMakerConfig,
    bid0: Option<LimitOrder>,
    ask0: Option<LimitOrder>,
    last_mid2: Option<i64>,
    snap: L2Snapshot,
    pos: int,
) -> MmOutcome {
    let bb = snap.spec_best_bid();
    let ba = snap.spec_best_ask();
    let trend2 = spec_trend2(last_mid2, snap);
    let f1 = spec_fills(bid0, ask0, bb, ba, snap.timestamp_us);
    let hedge = spec_hedge_trade(c, pos, snap);
    let bid1 = if hedge is Some { None } else { f1.0 };
    let ask1 = if hedge is Some { None } else { f1.1 };
    let hedge_trades: Seq<Trade> = match hedge {
        Some(t) => seq![t],
        None => seq![],
    };
    let rb = if spec_bid_allowed(c, pos, trend2) {
        spec_requote(bid1, spec_desired_bid(c, bb, pos), c.tick_size as int, c.quote_size)
    } else {
        (None, false)
    };
    let ra = if spec_ask_allowed(c, pos, trend2) {
        spec_requote(ask1, spec_desired_ask(c, ba, pos), c.tick_size as int, c.quote_size)
    } else {
        (None, false)
    };
    let f2 = if rb.1 || ra.1 {
        spec_fills(rb.0, ra.0, bb, ba, snap.timestamp_us)
    } else {
        (rb.0, ra.0, seq![])
    };
    MmOutcome {
        active_bid: f2.0,
        active_ask: f2.1,
        trades: f1.2 + hedge_trades + f2.2,
        placed_bid: rb.1,
        placed_ask: ra.1,
    }
}

/// The quoting engine's state.
#[derive(Debug, Clone)]
pub struct MarketMaker {
    /// Tuning; public so that specifications can speak about it.
    pub config: MarketMakerConfig,
    pub updates_processed: usize,
    pub trades_generated: usize,
    pub quotes_placed: usize,
    pub active_bid: Option<LimitOrder>,
    pub active_ask: Option<LimitOrder>,
    /// Twice the previous snapshot's mid price, kept doubled so the trend
    /// stays exact in integers.
    pub last_mid2: Option<i64>,
}

impl MarketMaker {
    /// Well-formedness: acceptable tuning, resting quotes within the
    /// reachable price band with positive in-range size, and a remembered
    /// mid from a well-formed snapshot.
    pub open spec fn wf(&self) -> bool {
        &&& self.config.wf()
        &&& self.active_bid is Some ==> {
            &&& -3 * MAX_PRICE <= self.active_bid->0.price <= 3 * MAX_PRICE
            &&& 0 < self.active_bid->0.quantity <= MAX_QTY
        }
        &&& self.active_ask is Some ==> {
            &&& -3 * MAX_PRICE <= self.active_ask->0.price <= 3 * MAX_PRICE
            &&& 0 < self.active_ask->0.quantity <= MAX_QTY
        }
        &&& self.last_mid2 is Some ==> 0 <= self.last_mid2->0 <= 2 * MAX_PRICE
    }

    pub fn new(config: MarketMakerConfig) -> (r: Self)
        requires
            config.wf(),
        ensures
            r.wf(),
            r.config == config,
            r.updates_processed == 0,
            r.trades_generated == 0,
            r.quotes_placed == 0,
            r.active_bid is None,
            r.active_ask is None,
            r.last_mid2 is None,
    {
        Self {
            config,
            updates_processed: 0,
            trades_generated: 0,
            quotes_placed: 0,
            active_bid: None,
            active_ask: None,
            last_mid2: None,
        }
    }

    /// The desired bid price for the current position.
    fn calculate_bid_price(&self, best_bid: i64, position_qty: i128) -> (r: i64)
        requires
            self.config.wf(),
            0 <= best_bid <= MAX_PRICE,
        ensures
            r as int == spec_desired_bid(self.config, best_bid as int, position_qty as int),
            -2 * MAX_PRICE <= r <= 2 * MAX_PRICE,
    {
        let base_bid = best_bid - self.config.spread_offset;
        let skew = self.inventory_price_skew(position_qty);
        base_bid - skew
    }

    /// The desired ask price for the current position.
    fn calculate_ask_price(&self, best_ask: i64, position_qty: i128) -> (r: i64)
        requires
            self.config.wf(),
            0 <= best_ask <= MAX_PRICE,
        ensures
            r as int == spec_desired_ask(self.config, best_ask as int, position_qty as int),
            -MAX_PRICE <= r <= 3 * MAX_PRICE,
    {
        let base_ask = best_ask + self.config.spread_offset;
        let skew = self.inventory_price_skew(position_qty);
        base_ask - skew
    }

    /// The inventory skew in price units, per `spec_skew`.
    fn inventory_price_skew(&self, position_qty: i128) -> (r: i64)
        requires
            self.config.wf(),
        ensures
            r as int == spec_skew(self.config, position_qty as int),
            -self.config.inventory_skew_offset <= r <= self.config.inventory_skew_offset,
    {
        let maxp = self.config.max_position as i128;
        let clamped: i128 = if position_qty > maxp {
            maxp
        } else if position_qty < -maxp {
            -maxp
        } else {
            position_qty
        };
        let mag: i128 = if clamped < 0 { -clamped } else { clamped };
        proof {
            assert(0 <= mag * self.config.inventory_skew_offset
                <= self.config.max_position * self.config.inventory_skew_offset
                && self.config.max_position * self.config.inventory_skew_offset
                    <= MAX_QTY * MAX_PRICE)
                by (nonlinear_arith)
                requires
                    0 <= mag <= self.config.max_position <= MAX_QTY,
                    0 <= self.config.inventory_skew_offset <= MAX_PRICE,
            ;
            vstd::arithmetic::div_mod::lemma_div_pos_is_pos(
                mag as int * self.config.inventory_skew_offset as int,
                self.config.max_position as int);
            vstd::arithmetic::div_mod::lemma_div_is_ordered(
                mag as int * self.config.inventory_skew_offset as int,
                self.config.max_position as int * self.config.inventory_skew_offset as int,
                self.config.max_position as int);
            vstd::arithmetic::div_mod::lemma_div_multiples_vanish(
                self.config.inventory_skew_offset as int,
                self.config.max_position as int);
        }
        let unsigned_skew = (mag * (self.config.inventory_skew_offset as i128)) / maxp;
        if clamped < 0 {
            -(unsigned_skew as i64)
        } else {
            unsigned_skew as i64
        }
    }

    /// Inventory gate for the bid, per `spec_quote_bid_gate`.
    pub fn should_quote_bid(&self, position_qty: i128) -> (r: bool)
        requires
            self.config.wf(),
            vstd::math::abs(position_qty as int) <= crate::position::MAX_TRADES * MAX_QTY,
        ensures
            r == spec_quote_bid_gate(self.config, position_qty as int),
    {
        if position_qty >= self.config.max_position as i128 {
            return false;
        }
        proof {
            lemma_threshold_product_in_range(
                self.config.inventory_threshold_pct as int, self.config.max_position as int);
        }
        position_qty * 100
            < (self.config.inventory_threshold_pct as i128) * (self.config.max_position as i128)
    }

    /// Inventory gate for the ask, per `spec_quote_ask_gate`.
    pub fn should_quote_ask(&self, position_qty: i128) -> (r: bool)
        requires
            self.config.wf(),
            vstd::math::abs(position_qty as int) <= crate::position::MAX_TRADES * MAX_QTY,
        ensures
            r == spec_quote_ask_gate(self.config, position_qty as int),
    {
        if position_qty <= -(self.config.max_position as i128) {
            return false;
        }
        proof {
            lemma_threshold_product_in_range(
                self.config.inventory_threshold_pct as int, self.config.max_position as int);
        }
        position_qty * 100
            > -((self.config.inventory_threshold_pct as i128) * (self.config.max_position as i128))
    }
}

impl MarketMaker {
    /// One fill-detection pass over both resting quotes, appending any
    /// fill trades; implements `spec_fills`.
    fn check_resting_order_fills(&mut self, snapshot: &L2Snapshot, trades: &mut Vec<Trade>)
        requires
            old(self).wf(),
            snapshot.wf(),
            old(self).trades_generated + 2 <= usize::MAX,
        ensures
            final(self).wf(),
            ({
                let f = spec_fills(old(self).active_bid, old(self).active_ask,
                    snapshot.spec_best_bid(), snapshot.spec_best_ask(), snapshot.timestamp_us);
                &&& final(self).active_bid == f.0
                &&& final(self).active_ask == f.1
                &&& final(trades)@ == old(trades)@ + f.2
                &&& final(self).trades_generated == old(self).trades_generated + f.2.len()
            }),
            final(self).config == old(self).config,
            final(self).updates_processed == old(self).updates_processed,
            final(self).quotes_placed == old(self).quotes_placed,
            final(self).last_mid2 == old(self).last_mid2,
    {
        let ghost f = spec_fills(self.active_bid, self.active_ask,
            snapshot.spec_best_bid(), snapshot.spec_best_ask(), snapshot.timestamp_us);
        let ghost trades0 = trades@;

        if let Some(order) = self.active_bid {
            if snapshot.best_ask() <= order.price {
                let trade = Trade::new(Side::Bid, order.price, order.quantity,
                    snapshot.timestamp_us);
                trades.push(trade);
                self.trades_generated = self.trades_generated + 1;
                self.active_bid = None;
            }
        }

        if let Some(order) = self.active_ask {
            if snapshot.best_bid() >= order.price {
                let trade = Trade::new(Side::Ask, order.price, order.quantity,
                    snapshot.timestamp_us);
                trades.push(trade);
                self.trades_generated = self.trades_generated + 1;
                self.active_ask = None;
            }
        }

        proof {
            assert(trades@ =~= trades0 + f.2);
        }
    }

    /// The de-risking path: when the position has outgrown the hedge
    /// threshold, emit one opposite-side trade at the touch and clear
    /// both resting quotes; implements `spec_hedge_trade`.
    pub fn hedge_inventory(&mut self, snapshot: &L2Snapshot, position_qty: i128, trades: &mut Vec<Trade>)
        requires
            old(self).wf(),
            snapshot.wf(),
            vstd::math::abs(position_qty as int) <= crate::position::MAX_TRADES * MAX_QTY,
            old(self).trades_generated + 1 <= usize::MAX,
        ensures
            final(self).wf(),
            ({
                let h = spec_hedge_trade(old(self).config, position_qty as int, *snapshot);
                &&& h is Some ==> {
                    &&& final(self).active_bid is None
                    &&& final(self).active_ask is None
                    &&& final(trades)@ == old(trades)@.push(h->0)
                    &&& final(self).trades_generated == old(self).trades_generated + 1
                }
                &&& h is None ==> {
                    &&& final(self).active_bid == old(self).active_bid
                    &&& final(self).active_ask == old(self).active_ask
                    &&& final(trades)@ == old(trades)@
                    &&& final(self).trades_generated == old(self).trades_generated
                }
            }),
            final(self).config == old(self).config,
            final(self).updates_processed == old(self).updates_processed,
            final(self).quotes_placed == old(self).quotes_placed,
            final(self).last_mid2 == old(self).last_mid2,
    {
        proof {
            lemma_threshold_product_in_range(
                self.config.hedge_inventory_pct as int, self.config.max_position as int);
        }
        let threshold100: i128 = (self.config.max_position as i128)
            * (self.config.hedge_inventory_pct as i128);

        if position_qty * 100 > threshold100 {
            // Long beyond the threshold: sell the whole-unit excess,
            // capped at one quote size, at the best bid.
            let excess: i128 = (position_qty * 100 - threshold100) / 100;
            let quote: i128 = self.config.quote_size as i128;
            let reduce_qty: i128 = if excess < quote { excess } else { quote };
            if reduce_qty <= 0 {
                return;
            }
            let trade = Trade::new(Side::Ask, snapshot.best_bid(), reduce_qty as i64,
                snapshot.timestamp_us);
            trades.push(trade);
            self.trades_generated = self.trades_generated + 1;
            self.active_bid = None;
            self.active_ask = None;
        } else if position_qty * 100 < -threshold100 {
            // Short beyond the threshold: buy back at the best ask.
            let excess: i128 = ((-position_qty) * 100 - threshold100) / 100;
            let quote: i128 = self.config.quote_size as i128;
            let reduce_qty: i128 = if excess < quote { excess } else { quote };
            if reduce_qty <= 0 {
                return;
            }
            let trade = Trade::new(Side::Bid, snapshot.best_ask(), reduce_qty as i64,
                snapshot.timestamp_us);
            trades.push(trade);
            self.trades_generated = self.trades_generated + 1;
            self.active_bid = None;
            self.active_ask = None;
        }
    }

    /// Replace the resting bid only when the desired price has moved at
    /// least half a tick; implements `spec_requote` for the bid side.
    fn update_resting_bid(&mut self, desired_price: i64) -> (placed: bool)
        requires
            old(self).wf(),
            -3 * MAX_PRICE <= desired_price <= 3 * MAX_PRICE,
            old(self).quotes_placed + 1 <= usize::MAX,
        ensures
            final(self).wf(),
            ({
                let rq = spec_requote(old(self).active_bid, desired_price as int,
                    old(self).config.tick_size as int, old(self).config.quote_size);
                &&& final(self).active_bid == rq.0
                &&& placed == rq.1
                &&& final(self).quotes_placed == old(self).quotes_placed
                    + if rq.1 { 1int } else { 0int }
            }),
            final(self).active_ask == old(self).active_ask,
            final(self).config == old(self).config,
            final(self).updates_processed == old(self).updates_processed,
            final(self).trades_generated == old(self).trades_generated,
            final(self).last_mid2 == old(self).last_mid2,
    {
        let needs_new_order = match self.active_bid {
            Some(order) => {
                let gap = if order.price >= desired_price {
                    order.price - desired_price
                } else {
                    desired_price - order.price
                };
                2 * gap >= self.config.tick_size
            },
            None => true,
        };

        if needs_new_order {
            self.active_bid = Some(LimitOrder::new(desired_price, self.config.quote_size));
            self.quotes_placed = self.quotes_placed + 1;
            return true;
        }

        false
    }

    /// Replace the resting ask only when the desired price has moved at
    /// least half a tick; implements `spec_requote` for the ask side.
    fn update_resting_ask(&mut self, desired_price: i64) -> (placed: bool)
        requires
            old(self).wf(),
            -3 * MAX_PRICE <= desired_price <= 3 * MAX_PRICE,
            old(self).quotes_placed + 1 <= usize::MAX,
        ensures
            final(self).wf(),
            ({
                let rq = spec_requote(old(self).active_ask, desired_price as int,
                    old(self).config.tick_size as int, old(self).config.quote_size);
                &&& final(self).active_ask == rq.0
                &&& placed == rq.1
                &&& final(self).quotes_placed == old(self).quotes_placed
                    + if rq.1 { 1int } else { 0int }
            }),
            final(self).active_bid == old(self).active_bid,
            final(self).config == old(self).config,
            final(self).updates_processed == old(self).updates_processed,
            final(self).trades_generated == old(self).trades_generated,
            final(self).last_mid2 == old(self).last_mid2,
    {
        let needs_new_order = match self.active_ask {
            Some(order) => {
                let gap = if order.price >= desired_price {
                    order.price - desired_price
                } else {
                    desired_price - order.price
                };
                2 * gap >= self.config.tick_size
            },
            None => true,
        };

        if needs_new_order {
            self.active_ask = Some(LimitOrder::new(desired_price, self.config.quote_size));
            self.quotes_placed = self.quotes_placed + 1;
            return true;
        }

        false
    }

    /// Process one snapshot: detect fills, hedge oversized inventory,
    /// recompute and re-place quotes behind the throttle, and re-check
    /// fills once if a new quote was placed. Implements `spec_mm_step`
    /// exactly; the returned trades are in emission order.
    pub fn on_market_data(&mut self, snapshot: &L2Snapshot, position: &Position) -> (r: Vec<Trade>)
        requires
            old(self).wf(),
            snapshot.wf(),
            position.wf(),
            old(self).updates_processed < usize::MAX,
            old(self).trades_generated + 5 <= usize::MAX,
            old(self).quotes_placed + 2 <= usize::MAX,
        ensures
            final(self).wf(),
            final(self).config == old(self).config,
            final(self).updates_processed == old(self).updates_processed + 1,
            final(self).last_mid2 == Some((snapshot.spec_best_bid()
                + snapshot.spec_best_ask()) as i64),
            ({
                let out = spec_mm_step(old(self).config, old(self).active_bid,
                    old(self).active_ask, old(self).last_mid2, *snapshot,
                    position.quantity as int);
                &&& final(self).active_bid == out.active_bid
                &&& final(self).active_ask == out.active_ask
                &&& r@ == out.trades
                &&& final(self).trades_generated
                    == old(self).trades_generated + out.trades.len()
                &&& final(self).quotes_placed == old(self).quotes_placed
                    + (if out.placed_bid { 1int } else { 0int })
                    + (if out.placed_ask { 1int } else { 0int })
                &&& out.trades.len() <= 5
            }),
    {
        let ghost out = spec_mm_step(self.config, self.active_bid, self.active_ask,
            self.last_mid2, *snapshot, position.quantity as int);

        self.updates_processed = self.updates_processed + 1;

        let mut trades: Vec<Trade> = Vec::new();
        let position_qty = position.quantity;
        proof {
            crate::position::lemma_ledger_bounds(position.log());
        }

        let best_bid = snapshot.best_bid();
        let best_ask = snapshot.best_ask();
        let mid2 = best_bid + best_ask;
        let trend2: i64 = match self.last_mid2 {
            Some(prev) => mid2 - prev,
            None => 0,
        };
        self.last_mid2 = Some(mid2);

        self.check_resting_order_fills(snapshot, &mut trades);

        self.hedge_inventory(snapshot, position_qty, &mut trades);

        let desired_bid_price = self.calculate_bid_price(best_bid, position_qty);
        let desired_ask_price = self.calculate_ask_price(best_ask, position_qty);

        let mut placed_new_order = false;

        let mut quote_bid = self.should_quote_bid(position_qty);
        let mut quote_ask = self.should_quote_ask(position_qty);
        let trend_threshold = self.config.trend_filter_offset;
        if trend_threshold > 0 {
            if trend2 > 2 * trend_threshold && position_qty <= 0 {
                quote_ask = false;
            }
            if trend2 < -(2 * trend_threshold) && position_qty >= 0 {
                quote_bid = false;
            }
        }

        if quote_bid {
            let placed = self.update_resting_bid(desired_bid_price);
            placed_new_order = placed_new_order || placed;
        } else {
            self.active_bid = None;
        }

        if quote_ask {
            let placed = self.update_resting_ask(desired_ask_price);
            placed_new_order = placed_new_order || placed;
        } else {
            self.active_ask = None;
        }

        if placed_new_order {
            self.check_resting_order_fills(snapshot, &mut trades);
        }

        proof {
            assert(trades@ =~= out.trades);
        }
        trades
    }
}

impl MarketMaker {
    pub fn name(&self) -> (r: &'static str)
        ensures
            r@ == "Market Maker"@,
    {
        "Market Maker"
    }

    /// The run counters under the strategy's display name.
    pub fn stats(&self) -> (r: crate::strategy::StrategyStats)
        ensures
            r.name@ == "Market Maker"@,
            r.updates_processed == self.updates_processed,
            r.trades_generated == self.trades_generated,
            r.quotes_placed == self.quotes_placed,
    {
        crate::strategy::StrategyStats {
            name: String::from_str(self.name()),
            updates_processed: self.updates_processed,
            trades_generated: self.trades_generated,
            quotes_placed: self.quotes_placed,
        }
    }
}

/// Law: a snapshot processed with the position at or beyond
/// `max_position` never leaves a resting bid and places no bid quote;
/// symmetrically, at or beyond the short cap it never leaves a resting
/// ask and places no ask quote.
pub proof fn lemma_no_quote_at_position_cap(
    c: MarketMakerConfig,
    bid0: Option<LimitOrder>,
    ask0: Option<LimitOrder>,
    last_mid2: Option<i64>,
    snap: L2Snapshot,
    pos: int,
)
    requires
        c.wf(),
    ensures
        pos >= c.max_position ==> {
            &&& !spec_mm_step(c, bid0, ask0, last_mid2, snap, pos).placed_bid
            &&& spec_mm_step(c, bid0, ask0, last_mid2, snap, pos).active_bid is None
        },
        pos <= -c.max_position ==> {
            &&& !spec_mm_step(c, bid0, ask0, last_mid2, snap, pos).placed_ask
            &&& spec_mm_step(c, bid0, ask0, last_mid2, snap, pos).active_ask is None
        },
{
}

/// Law: while a side keeps quoting, its resting order is replaced only
/// when the desired price has moved by at least half a tick; a desired
/// price within half a tick of the resting one leaves the order in place
/// and places nothing new (so `quotes_placed` does not grow for it).
pub proof fn lemma_half_tick_requote_throttle(
    c: MarketMakerConfig,
    bid0: LimitOrder,
    ask0: Option<LimitOrder>,
    last_mid2: Option<i64>,
    snap: L2Snapshot,
    pos: int,
)
    requires
        c.wf(),
        spec_hedge_trade(c, pos, snap) is None,
        snap.spec_best_ask() > bid0.price,
        spec_bid_allowed(c, pos, spec_trend2(last_mid2, snap)),
        2 * vstd::math::abs(bid0.price - spec_desired_bid(c, snap.spec_best_bid(), pos))
            < c.tick_size,
    ensures
        spec_mm_step(c, Some(bid0), ask0, last_mid2, snap, pos).active_bid == Some(bid0),
        !spec_mm_step(c, Some(bid0), ask0, last_mid2, snap, pos).placed_bid,
{
}

/// A percentage of an in-range quantity stays comfortably inside 128 bits.
proof fn lemma_threshold_product_in_range(pct: int, maxp: int)
    requires
        0 <= pct <= 100,
        0 < maxp <= MAX_QTY,
    ensures
        0 <= pct * maxp <= 100 * MAX_QTY,
        0 <= maxp * pct <= 100 * MAX_QTY,
{
    assert(0 <= pct * maxp <= 100 * MAX_QTY && 0 <= maxp * pct <= 100 * MAX_QTY)
        by (nonlinear_arith)
        requires
            0 <= pct <= 100,
            0 < maxp <= MAX_QTY,
    ;
}

} // verus!
