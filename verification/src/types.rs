//! Shared market-data types.
//!
//! Prices and quantities are fixed-point integers: the caller picks a scale
//! (say, one unit = 0.001 of the quoted currency) and every price and size in
//! the crate is a whole number of such units.

use vstd::prelude::*;

verus! {

/// Largest price the engine accepts, in fixed-point units.
pub const MAX_PRICE: i64 = 1_000_000_000_000;

/// Largest single-trade or single-level quantity, in fixed-point units.
pub const MAX_QTY: i64 = 1_000_000_000_000;

/// Side of the book an order or trade rests on.
/// `Bid` buys (increases a long position), `Ask` sells.
#[derive(Debug, Clone, Copy, PartialEq, Eq, Structural)]
pub enum Side {
    Bid,
    Ask,
}

impl Side {
    /// The other side of the book.
    pub fn opposite(&self) -> (r: Self)
        ensures
            self is Bid ==> r is Ask,
            self is Ask ==> r is Bid,
    {
        match self {
            Side::Bid => Side::Ask,
            Side::Ask => Side::Bid,
        }
    }
}

/// An executed trade: immutable once created.
#[derive(Debug, Clone, Copy, PartialEq, Eq, Structural)]
pub struct Trade {
    pub side: Side,
    /// Fixed-point price, positive for a well-formed trade.
    pub price: i64,
    /// Fixed-point quantity, positive for a well-formed trade.
    pub quantity: i64,
    /// Monotonic exchange timestamp, microseconds.
    pub timestamp_us: u64,
}

impl Trade {
    /// A trade the ledger accepts: positive price and quantity, both in range.
    pub open spec fn valid(self) -> bool {
        0 < self.price <= MAX_PRICE && 0 < self.quantity <= MAX_QTY
    }

    pub fn new(side: Side, price: i64, quantity: i64, timestamp_us: u64) -> (r: Self)
        ensures
            r == (Trade { side, price, quantity, timestamp_us }),
    {
        Self { side, price, quantity, timestamp_us }
    }

    /// Price times quantity, exact in 128-bit arithmetic.
    pub fn notional(&self) -> (r: i128)
        ensures
            r == self.price * self.quantity,
    {
        let p = self.price as i128;
        let q = self.quantity as i128;
        proof {
            lemma_i64_product_fits_i128(p as int, q as int);
        }
        p * q
    }

    pub fn is_buy(&self) -> (r: bool)
        ensures
            r == (self.side is Bid),
    {
        matches!(self.side, Side::Bid)
    }

    pub fn is_sell(&self) -> (r: bool)
        ensures
            r == (self.side is Ask),
    {
        matches!(self.side, Side::Ask)
    }
}

/// One level of depth: a price and the quantity resting there.
#[derive(Debug, Clone, Copy, PartialEq, Eq, Structural)]
pub struct PriceLevel {
    pub price: i64,
    pub quantity: i64,
}

impl PriceLevel {
    /// A level the depth walks accept: non-negative and in range.
    pub open spec fn ok(self) -> bool {
        0 <= self.price <= MAX_PRICE && 0 <= self.quantity <= MAX_QTY
    }

    pub fn new(price: i64, quantity: i64) -> (r: Self)
        ensures
            r == (PriceLevel { price, quantity }),
    {
        Self { price, quantity }
    }

    /// Price times quantity, exact in 128-bit arithmetic.
    pub fn notional(&self) -> (r: i128)
        ensures
            r == self.price * self.quantity,
    {
        let p = self.price as i128;
        let q = self.quantity as i128;
        proof {
            lemma_i64_product_fits_i128(p as int, q as int);
        }
        p * q
    }
}

/// Every level of the sequence is in range.
pub open spec fn levels_ok(ls: Seq<PriceLevel>) -> bool {
    forall|i: int| 0 <= i < ls.len() ==> (#[trigger] ls[i]).ok()
}

/// Total resting quantity across a sequence of levels.
pub open spec fn sum_qty(ls: Seq<PriceLevel>) -> int
    decreases ls.len(),
{
    if ls.len() == 0 {
        0
    } else {
        sum_qty(ls.drop_last()) + ls.last().quantity
    }
}

/// Total notional (price times quantity) across a sequence of levels.
pub open spec fn sum_notional(ls: Seq<PriceLevel>) -> int
    decreases ls.len(),
{
    if ls.len() == 0 {
        0
    } else {
        sum_notional(ls.drop_last()) + ls.last().price * ls.last().quantity
    }
}

/// In-range levels keep their totals inside easy 128-bit bounds.
pub proof fn lemma_level_sums_in_range(ls: Seq<PriceLevel>)
    requires
        levels_ok(ls),
    ensures
        0 <= sum_qty(ls) <= ls.len() * MAX_QTY,
        0 <= sum_notional(ls) <= ls.len() * (MAX_PRICE * MAX_QTY),
    decreases ls.len(),
{
    if ls.len() > 0 {
        let prefix = ls.drop_last();
        assert(forall|i: int| 0 <= i < prefix.len() ==> prefix[i] == ls[i]);
        lemma_level_sums_in_range(prefix);
        let l = ls.last();
        assert(0 <= l.price * l.quantity <= MAX_PRICE * MAX_QTY) by (nonlinear_arith)
            requires
                0 <= l.price <= MAX_PRICE,
                0 <= l.quantity <= MAX_QTY,
        ;
    }
}

/// One order-book depth snapshot: ten bid levels (best first) and ten ask
/// levels (best first), with its source row index and timestamp.
#[derive(Debug, Clone)]
pub struct L2Snapshot {
    pub row_index: usize,
    pub timestamp_us: u64,
    pub datetime: String,
    /// Ten bid levels, best (highest) first.
    pub bids: Vec<PriceLevel>,
    /// Ten ask levels, best (lowest) first.
    pub asks: Vec<PriceLevel>,
}

impl L2Snapshot {
    /// Well-formed: exactly ten levels per side, all in range.
    pub open spec fn wf(&self) -> bool {
        &&& self.bids@.len() == 10
        &&& self.asks@.len() == 10
        &&& levels_ok(self.bids@)
        &&& levels_ok(self.asks@)
    }

    /// Highest bid price (level 1).
    pub open spec fn spec_best_bid(&self) -> int {
        self.bids@[0].price as int
    }

    /// Lowest ask price (level 1).
    pub open spec fn spec_best_ask(&self) -> int {
        self.asks@[0].price as int
    }

    /// Twice the mid price: best bid plus best ask, exact in integers.
    pub open spec fn spec_mid2(&self) -> int {
        self.spec_best_bid() + self.spec_best_ask()
    }

    /// A usable snapshot: positive spread, bids non-increasing, asks
    /// non-decreasing, no negative quantity.
    pub open spec fn valid(&self) -> bool {
        &&& self.spec_best_ask() - self.spec_best_bid() > 0
        &&& forall|i: int| 0 <= i < 9 ==> (#[trigger] self.bids@[i]).price >= self.bids@[i + 1].price
        &&& forall|i: int| 0 <= i < 9 ==> (#[trigger] self.asks@[i]).price <= self.asks@[i + 1].price
        &&& forall|i: int| 0 <= i < 10 ==> (#[trigger] self.bids@[i]).quantity >= 0
        &&& forall|i: int| 0 <= i < 10 ==> (#[trigger] self.asks@[i]).quantity >= 0
    }

    /// A fresh copy of the ten bid levels, best first.
    pub fn bids(&self) -> (r: Vec<PriceLevel>)
        ensures
            r@ == self.bids@,
    {
        copy_levels(&self.bids)
    }

    /// A fresh copy of the ten ask levels, best first.
    pub fn asks(&self) -> (r: Vec<PriceLevel>)
        ensures
            r@ == self.asks@,
    {
        copy_levels(&self.asks)
    }

    pub fn best_bid(&self) -> (r: i64)
        requires
            self.wf(),
        ensures
            r as int == self.spec_best_bid(),
    {
        self.bids[0].price
    }

    pub fn best_ask(&self) -> (r: i64)
        requires
            self.wf(),
        ensures
            r as int == self.spec_best_ask(),
    {
        self.asks[0].price
    }

    /// Best ask minus best bid.
    pub fn spread(&self) -> (r: i64)
        requires
            self.wf(),
        ensures
            r as int == self.spec_best_ask() - self.spec_best_bid(),
    {
        self.best_ask() - self.best_bid()
    }

    /// Midpoint of the touch, rounded down to a whole price unit.
    /// (The strategies work with `spec_mid2`, twice this value, to stay
    /// exact.)
    pub fn mid_price(&self) -> (r: i64)
        requires
            self.wf(),
        ensures
            r as int == self.spec_mid2() / 2,
    {
        (self.best_bid() + self.best_ask()) / 2
    }

    pub fn total_bid_qty(&self) -> (r: i64)
        requires
            self.wf(),
        ensures
            r as int == sum_qty(self.bids@),
    {
        sum_level_qty(&self.bids)
    }

    pub fn total_ask_qty(&self) -> (r: i64)
        requires
            self.wf(),
        ensures
            r as int == sum_qty(self.asks@),
    {
        sum_level_qty(&self.asks)
    }

    pub fn total_bid_notional(&self) -> (r: i128)
        requires
            self.wf(),
        ensures
            r as int == sum_notional(self.bids@),
    {
        sum_level_notional(&self.bids)
    }

    pub fn total_ask_notional(&self) -> (r: i128)
        requires
            self.wf(),
        ensures
            r as int == sum_notional(self.asks@),
    {
        sum_level_notional(&self.asks)
    }

    /// Book-pressure ratio `(bid_qty - ask_qty) / (bid_qty + ask_qty)`,
    /// scaled by 10_000 and rounded toward zero; `None` on an empty book
    /// (where the real-valued ratio is undefined).
    pub fn imbalance(&self) -> (r: Option<i64>)
        requires
            self.wf(),
        ensures
            sum_qty(self.bids@) + sum_qty(self.asks@) == 0 ==> r is None,
            sum_qty(self.bids@) + sum_qty(self.asks@) > 0 ==> {
                let b = sum_qty(self.bids@);
                let a = sum_qty(self.asks@);
                &&& r is Some
                &&& b >= a ==> r->0 as int == (b - a) * 10000 / (b + a)
                &&& b < a ==> r->0 as int == -((a - b) * 10000 / (b + a))
            },
    {
        proof {
            lemma_level_sums_in_range(self.bids@);
            lemma_level_sums_in_range(self.asks@);
        }
        let bid_qty = self.total_bid_qty();
        let ask_qty = self.total_ask_qty();
        let total: i128 = bid_qty as i128 + ask_qty as i128;
        if total == 0 {
            return None;
        }
        let diff: i128 = if bid_qty >= ask_qty {
            bid_qty as i128 - ask_qty as i128
        } else {
            ask_qty as i128 - bid_qty as i128
        };
        proof {
            vstd::arithmetic::div_mod::lemma_div_pos_is_pos(diff as int * 10000, total as int);
            vstd::arithmetic::div_mod::lemma_div_is_ordered(
                diff as int * 10000, total as int * 10000, total as int);
            vstd::arithmetic::div_mod::lemma_div_multiples_vanish(10000, total as int);
            assert(diff as int * 10000 <= total as int * 10000) by (nonlinear_arith)
                requires
                    0 <= diff <= total,
            ;
        }
        let scaled: i128 = (diff * 10000) / total;
        if bid_qty >= ask_qty {
            Some(scaled as i64)
        } else {
            Some(-(scaled as i64))
        }
    }

    /// Runtime well-formedness check: ten levels per side, every price
    /// and quantity in range. What the other methods assume, made
    /// testable for callers that receive snapshots from outside.
    pub fn check_shape(&self) -> (r: bool)
        ensures
            r == self.wf(),
    {
        if self.bids.len() != 10 || self.asks.len() != 10 {
            return false;
        }
        let mut i: usize = 0;
        while i < 10
            invariant
                self.bids@.len() == 10,
                self.asks@.len() == 10,
                i <= 10,
                forall|j: int| 0 <= j < i ==> (#[trigger] self.bids@[j]).ok(),
                forall|j: int| 0 <= j < i ==> (#[trigger] self.asks@[j]).ok(),
            decreases 10 - i,
        {
            let b = self.bids[i];
            if b.price < 0 || b.price > MAX_PRICE || b.quantity < 0 || b.quantity > MAX_QTY {
                return false;
            }
            let a = self.asks[i];
            if a.price < 0 || a.price > MAX_PRICE || a.quantity < 0 || a.quantity > MAX_QTY {
                return false;
            }
            i = i + 1;
        }
        true
    }

    /// Runtime validity check: positive spread, sides sorted, quantities
    /// non-negative.
    pub fn is_valid(&self) -> (r: bool)
        requires
            self.wf(),
        ensures
            r == self.valid(),
    {
        if self.spread() <= 0 {
            return false;
        }

        let mut i: usize = 0;
        while i < 9
            invariant
                self.wf(),
                i <= 9,
                forall|j: int| 0 <= j < i ==> (#[trigger] self.bids@[j]).price >= self.bids@[j + 1].price,
                forall|j: int| 0 <= j < i ==> (#[trigger] self.asks@[j]).price <= self.asks@[j + 1].price,
            decreases 9 - i,
        {
            if self.bids[i].price < self.bids[i + 1].price {
                return false;
            }
            if self.asks[i].price > self.asks[i + 1].price {
                return false;
            }
            i = i + 1;
        }

        let mut k: usize = 0;
        while k < 10
            invariant
                self.wf(),
                k <= 10,
                forall|j: int| 0 <= j < k ==> (#[trigger] self.bids@[j]).quantity >= 0,
                forall|j: int| 0 <= j < k ==> (#[trigger] self.asks@[j]).quantity >= 0,
            decreases 10 - k,
        {
            if self.bids[k].quantity < 0 {
                return false;
            }
            if self.asks[k].quantity < 0 {
                return false;
            }
            k = k + 1;
        }

        true
    }
}

/// Copy a vector of levels element by element.
fn copy_levels(ls: &Vec<PriceLevel>) -> (r: Vec<PriceLevel>)
    ensures
        r@ == ls@,
{
    let mut out: Vec<PriceLevel> = Vec::new();
    let mut i: usize = 0;
    while i < ls.len()
        invariant
            i <= ls@.len(),
            out@ =~= ls@.take(i as int),
        decreases ls@.len() - i,
    {
        out.push(ls[i]);
        proof {
            assert(ls@.take(i + 1 as int) =~= ls@.take(i as int).push(ls@[i as int]));
        }
        i = i + 1;
    }
    proof {
        assert(ls@.take(ls@.len() as int) =~= ls@);
    }
    out
}

/// Sum the quantities of a sequence of in-range levels.
fn sum_level_qty(ls: &Vec<PriceLevel>) -> (r: i64)
    requires
        levels_ok(ls@),
        ls@.len() <= 10,
    ensures
        r as int == sum_qty(ls@),
        0 <= r,
{
    proof {
        lemma_level_sums_in_range(ls@);
    }
    let mut total: i64 = 0;
    let mut i: usize = 0;
    while i < ls.len()
        invariant
            levels_ok(ls@),
            ls@.len() <= 10,
            i <= ls@.len(),
            total as int == sum_qty(ls@.take(i as int)),
            0 <= total,
        decreases ls@.len() - i,
    {
        proof {
            lemma_level_sums_in_range(ls@.take(i as int));
            assert(ls@.take(i + 1 as int).drop_last() =~= ls@.take(i as int));
            assert(forall|j: int| 0 <= j < i + 1 ==> ls@.take(i + 1 as int)[j] == ls@[j]);
        }
        total = total + ls[i].quantity;
        i = i + 1;
    }
    proof {
        assert(ls@.take(ls@.len() as int) =~= ls@);
    }
    total
}

/// Sum the notionals of a sequence of in-range levels.
fn sum_level_notional(ls: &Vec<PriceLevel>) -> (r: i128)
    requires
        levels_ok(ls@),
        ls@.len() <= 10,
    ensures
        r as int == sum_notional(ls@),
        0 <= r,
{
    proof {
        lemma_level_sums_in_range(ls@);
    }
    let mut total: i128 = 0;
    let mut i: usize = 0;
    while i < ls.len()
        invariant
            levels_ok(ls@),
            ls@.len() <= 10,
            i <= ls@.len(),
            total as int == sum_notional(ls@.take(i as int)),
            0 <= total <= i * (MAX_PRICE * MAX_QTY),
        decreases ls@.len() - i,
    {
        proof {
            assert(ls@.take(i + 1 as int).drop_last() =~= ls@.take(i as int));
            assert(forall|j: int| 0 <= j < i + 1 ==> ls@.take(i + 1 as int)[j] == ls@[j]);
            assert(levels_ok(ls@.take(i + 1 as int)));
            lemma_level_sums_in_range(ls@.take(i + 1 as int));
        }
        total = total + ls[i].notional();
        i = i + 1;
    }
    proof {
        assert(ls@.take(ls@.len() as int) =~= ls@);
    }
    total
}

/// The product of two values in `i64` range never overflows an `i128`.
pub proof fn lemma_i64_product_fits_i128(p: int, q: int)
    requires
        i64::MIN <= p <= i64::MAX,
        i64::MIN <= q <= i64::MAX,
    ensures
        i128::MIN <= p * q <= i128::MAX,
{
    assert(i128::MIN <= p * q <= i128::MAX) by (nonlinear_arith)
        requires
            -0x8000_0000_0000_0000 <= p <= 0x7fff_ffff_ffff_ffff,
            -0x8000_0000_0000_0000 <= q <= 0x7fff_ffff_ffff_ffff,
    ;
}

} // verus!
