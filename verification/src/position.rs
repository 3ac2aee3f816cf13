//! The position-accounting ledger: the single source of truth for quantity,
//! average entry price, realized profit and loss, and the trade history.
//!
//! The whole ledger is modelled by the spec functions below as a fold of
//! `ledger_step` over the trade history, and `Position` carries the invariant
//! that its fields equal that fold. Every mutation goes through
//! `execute_trade`.

use vstd::prelude::*;

use crate::types::{Side, Trade, MAX_PRICE, MAX_QTY};

verus! {

/// Most trades a single run may record; keeps every accumulator inside
/// the 128-bit range.
pub const MAX_TRADES: usize = 1_000_000_000;

/// The mathematical state of a ledger: what the integer fields of a
/// `Position` must equal after replaying its history.
pub struct LedgerState {
    /// Signed net quantity: positive long, negative short, zero flat.
    pub position: int,
    /// Average entry price of the open position, 0 when flat.
    pub avg_entry: int,
    /// Profit and loss locked in by closing trades.
    pub realized: int,
    /// Total quantity ever bought.
    pub bought: int,
    /// Total quantity ever sold.
    pub sold: int,
}

/// Quantity with the sign of its side: bought quantity counts up,
/// sold quantity counts down.
pub open spec fn signed_delta(side: Side, qty: int) -> int {
    match side {
        Side::Bid => qty,
        Side::Ask => -qty,
    }
}

/// How much of the trade closes the existing position: a trade closes only
/// when it is on the opposite side of a non-zero position, and never more
/// than what is open.
pub open spec fn closing_qty(position: int, side: Side, qty: int) -> int {
    if position > 0 && side is Ask {
        vstd::math::min(qty, position)
    } else if position < 0 && side is Bid {
        vstd::math::min(qty, -position)
    } else {
        0
    }
}

/// Profit realized by one trade against the current average entry price,
/// on the closing quantity only.
pub open spec fn realized_delta(position: int, avg: int, side: Side, price: int, qty: int) -> int {
    if position > 0 && side is Ask {
        (price - avg) * closing_qty(position, side, qty)
    } else if position < 0 && side is Bid {
        (avg - price) * closing_qty(position, side, qty)
    } else {
        0
    }
}

/// The average entry price after applying one trade:
/// 0 when the position returns to flat; the trade's price when the
/// position flips sign or opens from flat; the quantity-weighted blend
/// (rounded toward zero) when the trade adds to the open direction;
/// unchanged when the trade merely reduces it.
pub open spec fn next_avg_entry(position: int, avg: int, side: Side, price: int, qty: int) -> int {
    let new_position = position + signed_delta(side, qty);
    if new_position == 0 {
        0
    } else if position != 0 && ((position > 0) != (new_position > 0)) {
        price
    } else if position == 0 {
        price
    } else if (position > 0 && side is Bid) || (position < 0 && side is Ask) {
        (vstd::math::abs(position) * avg + qty * price) / vstd::math::abs(new_position) as int
    } else {
        avg
    }
}

/// One trade applied to a ledger, in the fixed order: realize against the
/// old average, then move the quantity, then recompute the average.
pub open spec fn ledger_step(l: LedgerState, t: Trade) -> LedgerState {
    LedgerState {
        position: l.position + signed_delta(t.side, t.quantity as int),
        avg_entry: next_avg_entry(l.position, l.avg_entry, t.side, t.price as int, t.quantity as int),
        realized: l.realized + realized_delta(l.position, l.avg_entry, t.side, t.price as int, t.quantity as int),
        bought: l.bought + if t.side is Bid { t.quantity as int } else { 0 },
        sold: l.sold + if t.side is Ask { t.quantity as int } else { 0 },
    }
}

/// The ledger at the start of a run.
pub open spec fn ledger_empty() -> LedgerState {
    LedgerState { position: 0, avg_entry: 0, realized: 0, bought: 0, sold: 0 }
}

/// The ledger after replaying a whole trade history, oldest first.
pub open spec fn ledger_of(ts: Seq<Trade>) -> LedgerState
    decreases ts.len(),
{
    if ts.len() == 0 {
        ledger_empty()
    } else {
        ledger_step(ledger_of(ts.drop_last()), ts.last())
    }
}

/// Every trade of the history is one the ledger accepts.
pub open spec fn trades_ok(ts: Seq<Trade>) -> bool {
    forall|i: int| 0 <= i < ts.len() ==> (#[trigger] ts[i]).valid()
}

/// A blended average of two prices in `[0, limit]` stays in `[0, limit]`.
proof fn lemma_weighted_avg_in_range(m: int, a: int, q: int, p: int, limit: int)
    requires
        0 <= m,
        1 <= q,
        0 <= a <= limit,
        0 <= p <= limit,
    ensures
        0 <= (m * a + q * p) / (m + q) <= limit,
{
    let num = m * a + q * p;
    let n = m + q;
    assert(0 <= num && num <= n * limit) by (nonlinear_arith)
        requires
            0 <= m,
            1 <= q,
            0 <= a <= limit,
            0 <= p <= limit,
            num == m * a + q * p,
            n == m + q,
    ;
    vstd::arithmetic::div_mod::lemma_div_pos_is_pos(num, n);
    vstd::arithmetic::div_mod::lemma_div_is_ordered(num, n * limit, n);
    vstd::arithmetic::div_mod::lemma_div_multiples_vanish(limit, n);
}

/// Replaying a history of acceptable trades keeps every ledger field inside
/// the bounds that the 128-bit accumulators need.
pub proof fn lemma_ledger_bounds(ts: Seq<Trade>)
    requires
        trades_ok(ts),
    ensures
        vstd::math::abs(ledger_of(ts).position) <= ts.len() * MAX_QTY,
        0 <= ledger_of(ts).avg_entry <= MAX_PRICE,
        vstd::math::abs(ledger_of(ts).realized) <= ts.len() * (MAX_PRICE * MAX_QTY),
        0 <= ledger_of(ts).bought <= ts.len() * MAX_QTY,
        0 <= ledger_of(ts).sold <= ts.len() * MAX_QTY,
    decreases ts.len(),
{
    if ts.len() > 0 {
        let prefix = ts.drop_last();
        let t = ts.last();
        assert(trades_ok(prefix)) by {
            assert(forall|i: int| 0 <= i < prefix.len() ==> prefix[i] == ts[i]);
        }
        lemma_ledger_bounds(prefix);
        let l = ledger_of(prefix);
        let pos = l.position;
        let avg = l.avg_entry;
        let price = t.price as int;
        let qty = t.quantity as int;

        // Realized contribution is at most one full trade against the
        // widest possible price gap.
        let c = closing_qty(pos, t.side, qty);
        assert(0 <= c <= qty);
        let d = realized_delta(pos, avg, t.side, price, qty);
        assert(vstd::math::abs(d) <= MAX_PRICE * MAX_QTY) by (nonlinear_arith)
            requires
                0 <= avg <= MAX_PRICE,
                0 < price <= MAX_PRICE,
                0 <= c <= qty,
                0 < qty <= MAX_QTY,
                d == realized_delta(pos, avg, t.side, price, qty),
                (d == (price - avg) * c || d == (avg - price) * c || d == 0),
        ;

        // The new average entry price stays within the price range.
        let new_pos = pos + signed_delta(t.side, qty);
        if new_pos != 0 && !(pos != 0 && ((pos > 0) != (new_pos > 0))) && pos != 0
            && ((pos > 0 && t.side is Bid) || (pos < 0 && t.side is Ask)) {
            let m = vstd::math::abs(pos) as int;
            assert(vstd::math::abs(new_pos) as int == m + qty);
            lemma_weighted_avg_in_range(m, avg, qty, price, MAX_PRICE as int);
        }
        assert(0 <= ledger_of(ts).avg_entry <= MAX_PRICE);
    }
}

/// The mutable ledger. Created flat, mutated only by `execute_trade`,
/// reset for reuse by `reset`.
#[derive(Debug, Clone)]
pub struct Position {
    /// Signed net quantity: positive long, negative short, zero flat.
    pub quantity: i128,
    /// Average entry price of the open position; 0 when flat.
    pub avg_entry_price: i64,
    /// Accumulated realized profit and loss.
    pub realized_pnl: i128,
    /// Number of trades executed.
    pub trade_count: usize,
    /// Total quantity bought across the run.
    pub total_bought: i128,
    /// Total quantity sold across the run.
    pub total_sold: i128,
    /// The ordered trade log. Public so that specifications can speak
    /// about the history; mutate it only through `execute_trade`.
    pub trades: Vec<Trade>,
}

impl Position {
    /// The ordered trade history behind this ledger.
    pub open spec fn log(&self) -> Seq<Trade> {
        self.trades@
    }

    /// Well-formedness: the integer fields are exactly the replay of the
    /// trade history, and the history is acceptable and within capacity.
    pub open spec fn wf(&self) -> bool {
        &&& trades_ok(self.log())
        &&& self.log().len() <= MAX_TRADES
        &&& self.trade_count == self.log().len()
        &&& self.quantity as int == ledger_of(self.log()).position
        &&& self.avg_entry_price as int == ledger_of(self.log()).avg_entry
        &&& self.realized_pnl as int == ledger_of(self.log()).realized
        &&& self.total_bought as int == ledger_of(self.log()).bought
        &&& self.total_sold as int == ledger_of(self.log()).sold
    }

    /// A flat ledger with an empty history.
    pub fn new() -> (r: Self)
        ensures
            r.wf(),
            r.log() == Seq::<Trade>::empty(),
            r.quantity == 0,
            r.avg_entry_price == 0,
            r.realized_pnl == 0,
            r.trade_count == 0,
            r.total_bought == 0,
            r.total_sold == 0,
    {
        let r = Self {
            quantity: 0,
            avg_entry_price: 0,
            realized_pnl: 0,
            trade_count: 0,
            total_bought: 0,
            total_sold: 0,
            trades: Vec::new(),
        };
        proof {
            assert(r.log() =~= Seq::<Trade>::empty());
        }
        r
    }

    /// Realized profit of one prospective trade against the current state,
    /// before any field changes.
    fn calculate_realized_pnl(&self, side: Side, price: i64, quantity: i64) -> (r: i128)
        requires
            vstd::math::abs(self.quantity as int) <= MAX_TRADES * MAX_QTY,
            0 <= self.avg_entry_price <= MAX_PRICE,
            0 < price <= MAX_PRICE,
            0 < quantity <= MAX_QTY,
        ensures
            r as int == realized_delta(
                self.quantity as int, self.avg_entry_price as int,
                side, price as int, quantity as int),
            vstd::math::abs(r as int) <= MAX_PRICE * MAX_QTY,
    {
        if self.quantity == 0 {
            return 0;
        }

        let is_long = self.quantity > 0;
        let is_closing = match (is_long, side) {
            (true, Side::Ask) => true,
            (false, Side::Bid) => true,
            _ => false,
        };

        if !is_closing {
            return 0;
        }

        let pos_abs: i128 = if self.quantity < 0 { -self.quantity } else { self.quantity };
        let q: i128 = quantity as i128;
        let c: i128 = if q < pos_abs { q } else { pos_abs };

        let diff: i128 = if is_long {
            price as i128 - self.avg_entry_price as i128
        } else {
            self.avg_entry_price as i128 - price as i128
        };

        proof {
            assert(vstd::math::abs(diff as int * c as int) <= MAX_PRICE * MAX_QTY)
                by (nonlinear_arith)
                requires
                    -MAX_PRICE <= diff <= MAX_PRICE,
                    0 < c <= MAX_QTY,
            ;
        }
        diff * c
    }

    /// Recompute the average entry price after the quantity has moved from
    /// `old_qty` to `self.quantity` by a trade of `qty` at `price`.
    fn update_avg_entry_price(&mut self, old_qty: i128, side: Side, price: i64, qty: i64)
        requires
            vstd::math::abs(old_qty as int) <= MAX_TRADES * MAX_QTY,
            0 <= old(self).avg_entry_price <= MAX_PRICE,
            0 < price <= MAX_PRICE,
            0 < qty <= MAX_QTY,
            old(self).quantity as int == old_qty + signed_delta(side, qty as int),
        ensures
            final(self).avg_entry_price as int == next_avg_entry(
                old_qty as int, old(self).avg_entry_price as int,
                side, price as int, qty as int),
            final(self).quantity == old(self).quantity,
            final(self).realized_pnl == old(self).realized_pnl,
            final(self).trade_count == old(self).trade_count,
            final(self).total_bought == old(self).total_bought,
            final(self).total_sold == old(self).total_sold,
            final(self).trades == old(self).trades,
    {
        let new_qty = self.quantity;

        if new_qty == 0 {
            self.avg_entry_price = 0;
            return;
        }

        let old_long = old_qty > 0;
        let new_long = new_qty > 0;

        if old_qty != 0 && old_long != new_long {
            // Sign flip: the residue is a fresh position at the trade price.
            self.avg_entry_price = price;
            return;
        }

        let is_adding = match (old_long, side) {
            (true, Side::Bid) => true,
            (false, Side::Ask) => true,
            _ => false,
        };

        if is_adding && old_qty != 0 {
            let m: i128 = if old_qty < 0 { -old_qty } else { old_qty };
            let n: i128 = if new_qty < 0 { -new_qty } else { new_qty };
            let ghost a0 = self.avg_entry_price as int;
            proof {
                assert(n as int == m as int + qty as int);
                assert(m as int * a0 <= (MAX_TRADES * MAX_QTY) * MAX_PRICE
                    && 0 <= m as int * a0)
                    by (nonlinear_arith)
                    requires
                        0 <= m <= MAX_TRADES * MAX_QTY,
                        0 <= a0 <= MAX_PRICE,
                ;
                assert(0 < qty as int * price as int <= MAX_QTY * MAX_PRICE)
                    by (nonlinear_arith)
                    requires
                        0 < qty <= MAX_QTY,
                        0 < price <= MAX_PRICE,
                ;
                lemma_weighted_avg_in_range(
                    m as int, a0, qty as int, price as int, MAX_PRICE as int);
            }
            let num: i128 = m * (self.avg_entry_price as i128) + (qty as i128) * (price as i128);
            self.avg_entry_price = (num / n) as i64;
        } else if old_qty == 0 {
            self.avg_entry_price = price;
        }
        // Reducing without a flip: the average entry price is unchanged.
    }

    /// Apply one executed trade to the ledger, in the fixed order:
    /// realize profit against the old average, move the quantity, recompute
    /// the average entry price, bump the counters, log the trade.
    pub fn execute_trade(&mut self, trade: Trade)
        requires
            old(self).wf(),
            trade.valid(),
            old(self).log().len() < MAX_TRADES,
        ensures
            final(self).wf(),
            final(self).log() == old(self).log().push(trade),
            final(self).quantity as int
                == old(self).quantity + signed_delta(trade.side, trade.quantity as int),
            final(self).realized_pnl as int == old(self).realized_pnl + realized_delta(
                old(self).quantity as int, old(self).avg_entry_price as int,
                trade.side, trade.price as int, trade.quantity as int),
            final(self).avg_entry_price as int == next_avg_entry(
                old(self).quantity as int, old(self).avg_entry_price as int,
                trade.side, trade.price as int, trade.quantity as int),
            final(self).trade_count == old(self).trade_count + 1,
            final(self).total_bought as int == old(self).total_bought
                + if trade.side is Bid { trade.quantity as int } else { 0 },
            final(self).total_sold as int == old(self).total_sold
                + if trade.side is Ask { trade.quantity as int } else { 0 },
    {
        let ghost pre = *self;
        proof {
            lemma_ledger_bounds(pre.log());
        }

        let signed_qty: i128 = match trade.side {
            Side::Bid => trade.quantity as i128,
            Side::Ask => -(trade.quantity as i128),
        };

        // Realize profit before mutating the quantity.
        let realized = self.calculate_realized_pnl(trade.side, trade.price, trade.quantity);
        self.realized_pnl = self.realized_pnl + realized;

        let old_position = self.quantity;
        self.quantity = self.quantity + signed_qty;

        self.update_avg_entry_price(old_position, trade.side, trade.price, trade.quantity);

        self.trade_count = self.trade_count + 1;
        match trade.side {
            Side::Bid => self.total_bought = self.total_bought + trade.quantity as i128,
            Side::Ask => self.total_sold = self.total_sold + trade.quantity as i128,
        }

        self.trades.push(trade);

        proof {
            let ts = self.log();
            assert(ts.drop_last() =~= pre.log());
            assert(ledger_of(ts) == ledger_step(ledger_of(pre.log()), trade));
        }
    }

    /// Mark-to-market profit of the open position at `current_price`.
    pub fn unrealized_pnl(&self, current_price: i64) -> (r: i128)
        requires
            self.wf(),
            0 <= current_price <= MAX_PRICE,
        ensures
            r as int == unrealized(self.quantity as int, self.avg_entry_price as int,
                current_price as int),
            vstd::math::abs(r as int) <= MAX_PRICE * (MAX_TRADES * MAX_QTY),
    {
        proof {
            lemma_ledger_bounds(self.log());
        }
        if self.quantity == 0 {
            return 0;
        }

        let diff: i128 = if self.quantity > 0 {
            current_price as i128 - self.avg_entry_price as i128
        } else {
            self.avg_entry_price as i128 - current_price as i128
        };
        let pos_abs: i128 = if self.quantity < 0 { -self.quantity } else { self.quantity };
        proof {
            assert(vstd::math::abs(diff as int * pos_abs as int)
                <= MAX_PRICE * (MAX_TRADES * MAX_QTY))
                by (nonlinear_arith)
                requires
                    -MAX_PRICE <= diff <= MAX_PRICE,
                    0 < pos_abs <= MAX_TRADES * MAX_QTY,
            ;
        }
        diff * pos_abs
    }

    /// Realized plus unrealized profit at `current_price`.
    pub fn total_pnl(&self, current_price: i64) -> (r: i128)
        requires
            self.wf(),
            0 <= current_price <= MAX_PRICE,
        ensures
            r as int == self.realized_pnl
                + unrealized(self.quantity as int, self.avg_entry_price as int,
                    current_price as int),
    {
        proof {
            lemma_ledger_bounds(self.log());
        }
        self.realized_pnl + self.unrealized_pnl(current_price)
    }

    pub fn is_long(&self) -> (r: bool)
        ensures
            r == (self.quantity > 0),
    {
        self.quantity > 0
    }

    pub fn is_short(&self) -> (r: bool)
        ensures
            r == (self.quantity < 0),
    {
        self.quantity < 0
    }

    pub fn is_flat(&self) -> (r: bool)
        ensures
            r == (self.quantity == 0),
    {
        self.quantity == 0
    }

    /// The ordered trade history.
    pub fn trades(&self) -> (r: &Vec<Trade>)
        ensures
            r@ == self.log(),
    {
        &self.trades
    }

    /// A point-in-time summary of the ledger marked at `current_price`.
    pub fn stats(&self, current_price: i64) -> (r: PositionStats)
        requires
            self.wf(),
            0 <= current_price <= MAX_PRICE,
        ensures
            r.position_qty == self.quantity,
            r.avg_entry_price == self.avg_entry_price,
            r.current_price == current_price,
            r.realized_pnl == self.realized_pnl,
            r.unrealized_pnl as int == unrealized(self.quantity as int,
                self.avg_entry_price as int, current_price as int),
            r.total_pnl as int == r.realized_pnl + r.unrealized_pnl,
            r.trade_count == self.trade_count,
            r.total_bought == self.total_bought,
            r.total_sold == self.total_sold,
            r.winning_trades == if self.realized_pnl > 0 { 1int } else { 0int },
            r.losing_trades == if self.realized_pnl < 0 { 1int } else { 0int },
    {
        proof {
            lemma_ledger_bounds(self.log());
        }
        let unrealized_now = self.unrealized_pnl(current_price);
        let total = self.realized_pnl + unrealized_now;

        let (winning_trades, losing_trades) = self.count_profitable_trades();

        PositionStats {
            position_qty: self.quantity,
            avg_entry_price: self.avg_entry_price,
            current_price,
            realized_pnl: self.realized_pnl,
            unrealized_pnl: unrealized_now,
            total_pnl: total,
            trade_count: self.trade_count,
            total_bought: self.total_bought,
            total_sold: self.total_sold,
            winning_trades,
            losing_trades,
        }
    }

    /// A coarse win/loss tally: the run counts as one winning trade while
    /// the realized profit is positive, one losing trade while negative.
    fn count_profitable_trades(&self) -> (r: (usize, usize))
        ensures
            r.0 == if self.realized_pnl > 0 { 1int } else { 0int },
            r.1 == if self.realized_pnl < 0 { 1int } else { 0int },
    {
        let wins: usize = if self.realized_pnl > 0 { 1 } else { 0 };
        let losses: usize = if self.realized_pnl < 0 { 1 } else { 0 };
        (wins, losses)
    }

    /// Return the ledger to its initial flat state for reuse.
    pub fn reset(&mut self)
        ensures
            final(self).wf(),
            final(self).log() == Seq::<Trade>::empty(),
            final(self).quantity == 0,
            final(self).avg_entry_price == 0,
            final(self).realized_pnl == 0,
            final(self).trade_count == 0,
            final(self).total_bought == 0,
            final(self).total_sold == 0,
    {
        self.quantity = 0;
        self.avg_entry_price = 0;
        self.realized_pnl = 0;
        self.trade_count = 0;
        self.total_bought = 0;
        self.total_sold = 0;
        self.trades.clear();
        proof {
            assert(self.log() =~= Seq::<Trade>::empty());
        }
    }
}

/// The signed sum of a trade history's quantities: bought counts up,
/// sold counts down.
pub open spec fn signed_sum(ts: Seq<Trade>) -> int
    decreases ts.len(),
{
    if ts.len() == 0 {
        0
    } else {
        signed_sum(ts.drop_last()) + signed_delta(ts.last().side, ts.last().quantity as int)
    }
}

/// Law: after replaying any trade history, the net position equals the
/// signed sum of all traded quantities.
pub proof fn lemma_quantity_is_signed_sum(ts: Seq<Trade>)
    ensures
        ledger_of(ts).position == signed_sum(ts),
    decreases ts.len(),
{
    if ts.len() > 0 {
        lemma_quantity_is_signed_sum(ts.drop_last());
    }
}

/// Law: opening a position from flat and then fully closing it realizes
/// exactly the price difference times the quantity, and returns the
/// average entry price to 0.
pub proof fn lemma_open_then_full_close(l: LedgerState, entry: Trade, exit: Trade)
    requires
        l.position == 0,
        entry.quantity > 0,
        exit.quantity == entry.quantity,
        entry.side is Bid <==> exit.side is Ask,
    ensures
        ledger_step(ledger_step(l, entry), exit).position == 0,
        ledger_step(ledger_step(l, entry), exit).avg_entry == 0,
        entry.side is Bid ==> ledger_step(ledger_step(l, entry), exit).realized
            == l.realized + (exit.price - entry.price) * entry.quantity,
        entry.side is Ask ==> ledger_step(ledger_step(l, entry), exit).realized
            == l.realized + (entry.price - exit.price) * entry.quantity,
{
    let mid = ledger_step(l, entry);
    assert(mid.avg_entry == entry.price as int);
    assert(closing_qty(mid.position, exit.side, exit.quantity as int) == entry.quantity as int);
}

/// Law: a partial close leaves the average entry price unchanged and
/// realizes profit in proportion to the closed quantity alone.
pub proof fn lemma_partial_close(l: LedgerState, t: Trade)
    requires
        t.quantity > 0,
        (l.position > 0 && t.side is Ask && t.quantity < l.position)
            || (l.position < 0 && t.side is Bid && t.quantity < -l.position),
    ensures
        ledger_step(l, t).avg_entry == l.avg_entry,
        ledger_step(l, t).position == l.position + signed_delta(t.side, t.quantity as int),
        l.position > 0 ==> ledger_step(l, t).realized
            == l.realized + (t.price - l.avg_entry) * t.quantity,
        l.position < 0 ==> ledger_step(l, t).realized
            == l.realized + (l.avg_entry - t.price) * t.quantity,
{
}

/// Law: a trade larger than the opposite open position flips the sign,
/// realizes profit on the closed portion only, and restarts the average
/// entry price at the trade's own price.
pub proof fn lemma_flip_resets_entry(l: LedgerState, t: Trade)
    requires
        (l.position > 0 && t.side is Ask && t.quantity > l.position)
            || (l.position < 0 && t.side is Bid && t.quantity > -l.position),
    ensures
        ledger_step(l, t).avg_entry == t.price,
        l.position > 0 ==> ledger_step(l, t).position < 0,
        l.position < 0 ==> ledger_step(l, t).position > 0,
        l.position > 0 ==> ledger_step(l, t).realized
            == l.realized + (t.price - l.avg_entry) * l.position,
        l.position < 0 ==> ledger_step(l, t).realized
            == l.realized + (l.avg_entry - t.price) * (-l.position),
{
}

/// Mark-to-market profit of a position `pos` with average entry `avg`
/// at the reference price `price`.
pub open spec fn unrealized(pos: int, avg: int, price: int) -> int {
    if pos > 0 {
        (price - avg) * pos
    } else if pos < 0 {
        (avg - price) * -pos
    } else {
        0
    }
}

/// A snapshot of the ledger's figures marked at one reference price.
#[derive(Debug, Clone)]
pub struct PositionStats {
    pub position_qty: i128,
    pub avg_entry_price: i64,
    pub current_price: i64,
    pub realized_pnl: i128,
    pub unrealized_pnl: i128,
    pub total_pnl: i128,
    pub trade_count: usize,
    pub total_bought: i128,
    pub total_sold: i128,
    pub winning_trades: usize,
    pub losing_trades: usize,
}

impl Default for Position {
    fn default() -> (r: Self)
        ensures
            r.wf(),
            r.log() == Seq::<Trade>::empty(),
    {
        Self::new()
    }
}

} // verus!
