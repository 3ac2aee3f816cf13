//! Read-only view over the latest depth snapshot: best prices, spread and
//! mid, plus the two depth walks used for execution simulation
//! (liquidity-for-notional and slippage-for-quantity).

use vstd::prelude::*;

use crate::types::{levels_ok, sum_qty, L2Snapshot, PriceLevel, Side, MAX_PRICE, MAX_QTY};

verus! {

/// Walk levels from the best, consuming whole levels while their notional
/// fits in what is still requested; the last level contributes the floored
/// prorated quantity `remaining / price`. Returns
/// `(quantity obtained, notional consumed, levels touched)`.
pub open spec fn walk_notional(ls: Seq<PriceLevel>, notional: int) -> (int, int, int)
    decreases ls.len(),
{
    if ls.len() == 0 {
        (0, 0, 0)
    } else {
        let l = ls.first();
        let ln = l.price * l.quantity;
        if ln <= notional {
            let rest = walk_notional(ls.drop_first(), notional - ln);
            (l.quantity + rest.0, ln + rest.1, 1 + rest.2)
        } else if l.price > 0 {
            (notional / l.price as int, notional, 1)
        } else {
            (0, 0, 0)
        }
    }
}

/// Walk levels from the best, filling `qty` against each level's resting
/// quantity until nothing remains. Returns
/// `(notional paid, levels touched)`; short books leave part unfilled,
/// which the caller detects by comparing `qty` with `sum_qty`.
pub open spec fn walk_fill(ls: Seq<PriceLevel>, qty: int) -> (int, int)
    decreases ls.len(),
{
    if ls.len() == 0 || qty <= 0 {
        (0, 0)
    } else {
        let l = ls.first();
        let f = vstd::math::min(qty, l.quantity as int);
        let rest = walk_fill(ls.drop_first(), qty - f);
        (l.price * f + rest.0, 1 + rest.1)
    }
}

/// Slippage in basis points of a fill with total `notional` for `qty`
/// units against a best price of `best`: `|avg - best| / best * 10_000`,
/// computed exactly and rounded down.
pub open spec fn slippage_bps(best: int, notional: int, qty: int) -> int {
    vstd::math::abs(notional - best * qty) as int * 10000 / (best * qty)
}

/// The book view: at most one current snapshot and an update counter.
#[derive(Debug, Clone)]
pub struct OrderBook {
    /// The latest snapshot, if any has arrived. Public so that
    /// specifications can speak about it; replace it only via `update`.
    pub current_snapshot: Option<L2Snapshot>,
    pub update_count: u64,
}

impl OrderBook {
    /// Well-formed: whatever snapshot is held is itself well-formed.
    pub open spec fn wf(&self) -> bool {
        self.current_snapshot is Some ==> self.current_snapshot->0.wf()
    }

    /// An empty book with no snapshot yet.
    pub fn new() -> (r: Self)
        ensures
            r.wf(),
            r.current_snapshot is None,
            r.update_count == 0,
    {
        Self { current_snapshot: None, update_count: 0 }
    }

    /// Replace the current snapshot.
    pub fn update(&mut self, snapshot: L2Snapshot)
        requires
            old(self).wf(),
            snapshot.wf(),
            old(self).update_count < u64::MAX,
        ensures
            final(self).wf(),
            final(self).current_snapshot == Some(snapshot),
            final(self).update_count == old(self).update_count + 1,
    {
        self.current_snapshot = Some(snapshot);
        self.update_count = self.update_count + 1;
    }

    /// The current snapshot, if any.
    pub fn snapshot(&self) -> (r: Option<&L2Snapshot>)
        ensures
            r is Some <==> self.current_snapshot is Some,
            r is Some ==> *r->0 == self.current_snapshot->0,
    {
        self.current_snapshot.as_ref()
    }

    pub fn best_bid(&self) -> (r: Option<i64>)
        requires
            self.wf(),
        ensures
            r is Some <==> self.current_snapshot is Some,
            r is Some ==> r->0 as int == self.current_snapshot->0.spec_best_bid(),
    {
        match &self.current_snapshot {
            Some(s) => Some(s.best_bid()),
            None => None,
        }
    }

    pub fn best_ask(&self) -> (r: Option<i64>)
        requires
            self.wf(),
        ensures
            r is Some <==> self.current_snapshot is Some,
            r is Some ==> r->0 as int == self.current_snapshot->0.spec_best_ask(),
    {
        match &self.current_snapshot {
            Some(s) => Some(s.best_ask()),
            None => None,
        }
    }

    pub fn spread(&self) -> (r: Option<i64>)
        requires
            self.wf(),
        ensures
            r is Some <==> self.current_snapshot is Some,
            r is Some ==> r->0 as int == self.current_snapshot->0.spec_best_ask()
                - self.current_snapshot->0.spec_best_bid(),
    {
        match &self.current_snapshot {
            Some(s) => Some(s.spread()),
            None => None,
        }
    }

    pub fn mid_price(&self) -> (r: Option<i64>)
        requires
            self.wf(),
        ensures
            r is Some <==> self.current_snapshot is Some,
            r is Some ==> r->0 as int == self.current_snapshot->0.spec_mid2() / 2,
    {
        match &self.current_snapshot {
            Some(s) => Some(s.mid_price()),
            None => None,
        }
    }

    /// The bid levels of the current snapshot, or nothing.
    pub fn bids(&self) -> (r: Vec<PriceLevel>)
        ensures
            self.current_snapshot is Some ==> r@ == self.current_snapshot->0.bids@,
            self.current_snapshot is None ==> r@.len() == 0,
    {
        match &self.current_snapshot {
            Some(s) => s.bids(),
            None => Vec::new(),
        }
    }

    /// The ask levels of the current snapshot, or nothing.
    pub fn asks(&self) -> (r: Vec<PriceLevel>)
        ensures
            self.current_snapshot is Some ==> r@ == self.current_snapshot->0.asks@,
            self.current_snapshot is None ==> r@.len() == 0,
    {
        match &self.current_snapshot {
            Some(s) => s.asks(),
            None => Vec::new(),
        }
    }

    /// How much quantity `notional` buys on one side of the book, walking
    /// the levels from the best. Returns `(quantity, volume-weighted
    /// average price rounded down, levels touched)`; the averages and the
    /// walk follow `walk_notional`.
    #[verifier::loop_isolation(false)]
    pub fn liquidity_for_notional(&self, side: Side, notional: i128) -> (r: (i128, i128, usize))
        requires
            self.wf(),
            0 <= notional <= 100 * (MAX_PRICE * MAX_QTY),
        ensures
            self.current_snapshot is None ==> r == (0i128, 0i128, 0usize),
            self.current_snapshot is Some ==> {
                let ls = if side is Bid { self.current_snapshot->0.bids@ }
                    else { self.current_snapshot->0.asks@ };
                let w = walk_notional(ls, notional as int);
                &&& r.0 == w.0
                &&& w.0 > 0 ==> r.1 == w.1 / w.0
                &&& w.0 == 0 ==> r.1 == 0
                &&& r.2 == w.2
            },
    {
        let s = match &self.current_snapshot {
            Some(s) => s,
            None => {
                return (0, 0, 0);
            },
        };
        let levels: &Vec<PriceLevel> = match side {
            Side::Bid => &s.bids,
            Side::Ask => &s.asks,
        };
        let ghost ls = levels@;
        let ghost target = notional as int;

        let mut total_qty: i128 = 0;
        let mut used: i128 = 0;
        let mut consumed: usize = 0;
        let mut i: usize = 0;

        proof {
            assert(ls.skip(0) =~= ls);
        }
        while i < levels.len()
            invariant
                levels_ok(ls),
                ls.len() == 10,
                ls == levels@,
                i <= 10,
                0 <= used <= target,
                target == notional as int,
                0 <= notional <= 100 * (MAX_PRICE * MAX_QTY),
                0 <= total_qty <= i * MAX_QTY,
                consumed <= i,
                ({
                    let w = walk_notional(ls.skip(i as int), target - used);
                    walk_notional(ls, target)
                        == (total_qty + w.0, used + w.1, consumed as int + w.2)
                }),
            decreases 10 - i,
        {
            let level = levels[i];
            let level_notional = level.notional();
            proof {
                assert(ls.skip(i as int).first() == ls[i as int]);
                assert(ls.skip(i as int).drop_first() =~= ls.skip(i + 1 as int));
                assert(0 <= level.price * level.quantity <= MAX_PRICE * MAX_QTY)
                    by (nonlinear_arith)
                    requires
                        0 <= level.price <= MAX_PRICE,
                        0 <= level.quantity <= MAX_QTY,
                ;
            }
            if level_notional <= notional - used {
                // Whole level fits in the remaining budget.
                total_qty = total_qty + level.quantity as i128;
                used = used + level_notional;
                consumed = consumed + 1;
            } else if level.price > 0 {
                // Last level: prorated quantity for what budget remains.
                let remaining = notional - used;
                proof {
                    vstd::arithmetic::div_mod::lemma_div_pos_is_pos(
                        remaining as int, level.price as int);
                    vstd::arithmetic::div_mod::lemma_div_nonincreasing(
                        remaining as int, level.price as int);
                }
                let partial_qty = remaining / (level.price as i128);
                total_qty = total_qty + partial_qty;
                used = notional;
                consumed = consumed + 1;
                return finish_walk(total_qty, used, consumed);
            } else {
                // Degenerate zero-price level that exceeds the budget can
                // only mean the budget is exhausted: stop.
                return finish_walk(total_qty, used, consumed);
            }
            i = i + 1;
        }
        proof {
            assert(ls.skip(10) =~= Seq::<PriceLevel>::empty());
        }
        finish_walk(total_qty, used, consumed)
    }

    /// Average fill price and slippage for selling (`Bid`) or buying
    /// (`Ask`) `quantity` units against the book, walking the levels from
    /// the best. `None` when no snapshot is held, when the side's best
    /// price is not positive, or when the whole book holds less than
    /// `quantity` (no partial answer). On success returns
    /// `(volume-weighted average price rounded down, slippage in basis
    /// points rounded down, levels touched)`.
    pub fn calculate_slippage(&self, side: Side, quantity: i64) -> (r: Option<(i64, i64, usize)>)
        requires
            self.wf(),
            0 < quantity,
        ensures
            self.current_snapshot is None ==> r is None,
            self.current_snapshot is Some ==> {
                let ls = if side is Bid { self.current_snapshot->0.bids@ }
                    else { self.current_snapshot->0.asks@ };
                let best = ls[0].price as int;
                let w = walk_fill(ls, quantity as int);
                &&& (best <= 0 || sum_qty(ls) < quantity) <==> r is None
                &&& r is Some ==> ({
                    let t = r->0;
                    &&& t.0 as int == w.0 / quantity as int
                    &&& t.1 as int == slippage_bps(best, w.0, quantity as int)
                    &&& t.2 as int == w.1
                })
            },
    {
        let s = match &self.current_snapshot {
            Some(s) => s,
            None => {
                return None;
            },
        };
        let levels: &Vec<PriceLevel> = match side {
            Side::Bid => &s.bids,
            Side::Ask => &s.asks,
        };
        let ghost ls = levels@;

        let best_price = levels[0].price;
        if best_price <= 0 {
            // A non-positive best price admits no meaningful relative
            // slippage; treat the side as unusable.
            return None;
        }

        let q: i128 = quantity as i128;
        let mut remaining: i128 = q;
        let mut total_notional: i128 = 0;
        let mut consumed: usize = 0;
        let mut i: usize = 0;

        proof {
            assert(ls.skip(0) =~= ls);
            assert(ls.take(0) =~= Seq::<PriceLevel>::empty());
        }
        while i < levels.len() && remaining > 0
            invariant
                levels_ok(ls),
                ls.len() == 10,
                ls == levels@,
                i <= 10,
                q == quantity as int,
                0 < quantity,
                0 <= remaining <= q,
                consumed <= i,
                0 <= total_notional <= MAX_PRICE * (q - remaining),
                remaining >= q - sum_qty(ls.take(i as int)),
                remaining > 0 ==> remaining == q - sum_qty(ls.take(i as int)),
                ({
                    let w = walk_fill(ls.skip(i as int), remaining as int);
                    walk_fill(ls, q as int)
                        == (total_notional + w.0, consumed as int + w.1)
                }),
            decreases 10 - i,
        {
            let level = levels[i];
            proof {
                assert(ls.skip(i as int).first() == ls[i as int]);
                assert(ls.skip(i as int).drop_first() =~= ls.skip(i + 1 as int));
                assert(ls.take(i + 1 as int).drop_last() =~= ls.take(i as int));
                assert(forall|j: int| 0 <= j < i + 1 ==> ls.take(i + 1 as int)[j] == ls[j]);
            }
            let fill_qty: i128 = if remaining < level.quantity as i128 {
                remaining
            } else {
                level.quantity as i128
            };
            proof {
                assert(0 <= level.price * fill_qty <= MAX_PRICE * fill_qty)
                    by (nonlinear_arith)
                    requires
                        0 <= level.price <= MAX_PRICE,
                        0 <= fill_qty,
                ;
                assert(MAX_PRICE * (q - remaining) + MAX_PRICE * fill_qty
                    == MAX_PRICE * (q - (remaining - fill_qty))) by (nonlinear_arith);
            }
            total_notional = total_notional + (level.price as i128) * fill_qty;
            remaining = remaining - fill_qty;
            consumed = consumed + 1;
            i = i + 1;
        }

        if remaining > 0 {
            // The whole visible book cannot absorb the quantity.
            proof {
                assert(ls.take(10) =~= ls);
            }
            return None;
        }

        proof {
            assert(walk_fill(ls.skip(i as int), 0) == (0int, 0int));
            assert(sum_qty(ls.take(i as int)) <= sum_qty(ls)) by {
                partial_sum_le(ls, i as int);
            }
            assert(ls.take(10) =~= ls);
        }

        let avg_price: i64 = {
            proof {
                vstd::arithmetic::div_mod::lemma_div_pos_is_pos(total_notional as int, q as int);
                vstd::arithmetic::div_mod::lemma_div_is_ordered(
                    total_notional as int, q as int * MAX_PRICE, q as int);
                vstd::arithmetic::div_mod::lemma_div_multiples_vanish(MAX_PRICE as int, q as int);
            }
            (total_notional / q) as i64
        };

        proof {
            crate::types::lemma_i64_product_fits_i128(best_price as int, q as int);
        }
        let base: i128 = (best_price as i128) * q;
        let diff: i128 = if total_notional >= base {
            total_notional - base
        } else {
            base - total_notional
        };
        proof {
            assert(1 <= base <= MAX_PRICE * q && q <= base) by (nonlinear_arith)
                requires
                    1 <= best_price <= MAX_PRICE,
                    1 <= q,
                    base == best_price * q,
            ;
            assert(diff * 10000 <= (MAX_PRICE * q) * 10000) by (nonlinear_arith)
                requires
                    0 <= diff <= MAX_PRICE * q,
            ;
            assert((MAX_PRICE * q) * 10000 == q * (MAX_PRICE * 10000)) by (nonlinear_arith);
            vstd::arithmetic::div_mod::lemma_div_pos_is_pos(diff as int * 10000, base as int);
            vstd::arithmetic::div_mod::lemma_div_is_ordered_by_denominator(
                diff as int * 10000, q as int, base as int);
            vstd::arithmetic::div_mod::lemma_div_is_ordered(
                diff as int * 10000, q as int * (MAX_PRICE * 10000), q as int);
            vstd::arithmetic::div_mod::lemma_div_multiples_vanish(
                MAX_PRICE as int * 10000, q as int);
        }
        let slippage: i64 = ((diff * 10000) / base) as i64;

        Some((avg_price, slippage, consumed))
    }

    /// How many snapshots this book has seen.
    pub fn update_count(&self) -> (r: u64)
        ensures
            r == self.update_count,
    {
        self.update_count
    }

    /// Whether no snapshot has arrived yet.
    pub fn is_empty(&self) -> (r: bool)
        ensures
            r == (self.current_snapshot is None),
    {
        match &self.current_snapshot {
            Some(_) => false,
            None => true,
        }
    }
}

impl Default for OrderBook {
    fn default() -> (r: Self)
        ensures
            r.wf(),
            r.current_snapshot is None,
            r.update_count == 0,
    {
        Self::new()
    }
}

/// Divide the consumed notional by the obtained quantity, or report a zero
/// average when nothing was obtained.
fn finish_walk(total_qty: i128, used: i128, consumed: usize) -> (r: (i128, i128, usize))
    requires
        0 <= total_qty,
        0 <= used,
    ensures
        r.0 == total_qty,
        total_qty > 0 ==> r.1 == used as int / total_qty as int,
        total_qty == 0 ==> r.1 == 0,
        r.2 == consumed,
{
    let avg: i128 = if total_qty > 0 {
        proof {
            vstd::arithmetic::div_mod::lemma_div_pos_is_pos(used as int, total_qty as int);
            vstd::arithmetic::div_mod::lemma_div_nonincreasing(used as int, total_qty as int);
        }
        used / total_qty
    } else {
        0
    };
    (total_qty, avg, consumed)
}

/// A prefix of a non-negative level sequence never sums to more than the
/// whole.
proof fn partial_sum_le(ls: Seq<PriceLevel>, i: int)
    requires
        levels_ok(ls),
        0 <= i <= ls.len(),
    ensures
        sum_qty(ls.take(i)) <= sum_qty(ls),
    decreases ls.len() - i,
{
    if i < ls.len() {
        assert(ls.take(i + 1).drop_last() =~= ls.take(i));
        assert(forall|j: int| 0 <= j < i + 1 ==> ls.take(i + 1)[j] == ls[j]);
        partial_sum_le(ls, i + 1);
        assert(ls.take(ls.len() as int) =~= ls);
    } else {
        assert(ls.take(i) =~= ls);
    }
}

} // verus!
