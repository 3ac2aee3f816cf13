//! The momentum strategy: keeps a bounded history of mid prices and
//! crosses the spread with one aggressive order whenever the move over
//! the lookback window exceeds the trigger threshold.
//!
//! Mid prices are stored doubled (best bid plus best ask) so that the
//! momentum comparison stays exact in integers: the real-valued momentum
//! exceeds the threshold exactly when its double exceeds the doubled
//! threshold.

use vstd::prelude::*;
use vstd::string::StringExecFns;

use crate::position::Position;
use crate::types::{L2Snapshot, Side, Trade, MAX_PRICE, MAX_QTY};

verus! {

/// Momentum tuning, in fixed-point price and quantity units.
#[derive(Debug, Clone, Copy, PartialEq, Eq, Structural)]
pub struct MomentumConfig {
    /// Mid-price move over the lookback window that triggers a trade.
    pub trigger_threshold: i64,
    /// Size of each aggressive order.
    pub trade_size: i64,
    /// No buying at or above this position, no selling at or below its
    /// negative.
    pub max_position: i64,
    /// How many snapshots back the momentum is measured against.
    pub lookback: usize,
}

impl MomentumConfig {
    /// Acceptable tuning. A lookback of zero would index one past the
    /// newest entry, so at least one snapshot of lookback is demanded.
    pub open spec fn wf(&self) -> bool {
        &&& 0 <= self.trigger_threshold <= MAX_PRICE
        &&& 0 < self.trade_size <= MAX_QTY
        &&& 0 < self.max_position <= MAX_QTY
        &&& 1 <= self.lookback <= 1_000_000
    }
}

impl Default for MomentumConfig {
    /// Defaults at a scale of one unit = 0.001: a 5.0 trigger move, 0.1
    /// trade size, 2.0 position cap, 100-snapshot lookback.
    fn default() -> (r: Self)
        ensures
            r.wf(),
    {
        Self { trigger_threshold: 5000, trade_size: 100, max_position: 2000, lookback: 100 }
    }
}

/// Extra history kept beyond the lookback before the oldest entry is
/// evicted.
pub const HISTORY_SLACK: usize = 100;

/// The price history after appending one doubled mid price: bounded at
/// `lookback + HISTORY_SLACK`, oldest entry evicted first.
pub open spec fn spec_next_history(h: Seq<i64>, mid2: i64, lookback: int) -> Seq<i64> {
    let pushed = h.push(mid2);
    if pushed.len() > lookback + HISTORY_SLACK {
        pushed.drop_first()
    } else {
        pushed
    }
}

/// Twice the momentum: the newest doubled mid minus the one `lookback`
/// entries back; undefined until the history is long enough.
pub open spec fn spec_momentum2(h: Seq<i64>, lookback: int) -> Option<int> {
    if h.len() < lookback {
        None
    } else {
        Some(h.last() - h[h.len() - lookback])
    }
}

/// The at-most-one trade a snapshot emits: a buy at the best ask when the
/// momentum exceeds the trigger and the position allows it, a sell at the
/// best bid symmetrically, nothing otherwise.
pub open spec fn spec_momentum_signal(
    c: MomentumConfig,
    h: Seq<i64>,
    pos: int,
    snap: L2Snapshot,
) -> Option<Trade> {
    match spec_momentum2(h, c.lookback as int) {
        None => None,
        Some(m2) => {
            if m2 > 2 * c.trigger_threshold && pos < c.max_position {
                Some(Trade {
                    side: Side::Bid,
                    price: snap.asks@[0].price,
                    quantity: c.trade_size,
                    timestamp_us: snap.timestamp_us,
                })
            } else if m2 < -2 * c.trigger_threshold && pos > -c.max_position {
                Some(Trade {
                    side: Side::Ask,
                    price: snap.bids@[0].price,
                    quantity: c.trade_size,
                    timestamp_us: snap.timestamp_us,
                })
            } else {
                None
            }
        },
    }
}

/// Law: the momentum strategy emits nothing before `lookback` snapshots
/// are in the window, nothing while the absolute momentum stays at or
/// under the trigger threshold, and a single aggressive order (buying
/// into strength, selling into weakness) once it crosses while the
/// position cap allows.
pub proof fn lemma_momentum_trade_discipline(
    c: MomentumConfig,
    h: Seq<i64>,
    pos: int,
    snap: L2Snapshot,
)
    requires
        c.wf(),
    ensures
        h.len() < c.lookback ==> spec_momentum_signal(c, h, pos, snap) is None,
        h.len() >= c.lookback
            && vstd::math::abs(h.last() - h[h.len() - c.lookback]) <= 2 * c.trigger_threshold
            ==> spec_momentum_signal(c, h, pos, snap) is None,
        h.len() >= c.lookback && h.last() - h[h.len() - c.lookback] > 2 * c.trigger_threshold
            && pos < c.max_position
            ==> spec_momentum_signal(c, h, pos, snap)
                == Some(Trade {
                    side: Side::Bid,
                    price: snap.asks@[0].price,
                    quantity: c.trade_size,
                    timestamp_us: snap.timestamp_us,
                }),
        h.len() >= c.lookback && h.last() - h[h.len() - c.lookback] < -2 * c.trigger_threshold
            && pos > -c.max_position
            ==> spec_momentum_signal(c, h, pos, snap)
                == Some(Trade {
                    side: Side::Ask,
                    price: snap.bids@[0].price,
                    quantity: c.trade_size,
                    timestamp_us: snap.timestamp_us,
                }),
{
}

/// The momentum strategy's state.
pub struct MomentumStrategy {
    /// Tuning; public so that specifications can speak about it.
    pub config: MomentumConfig,
    /// Doubled mid prices, oldest first, bounded by
    /// `lookback + HISTORY_SLACK`.
    pub price_history: Vec<i64>,
    pub updates_processed: usize,
    pub trades_generated: usize,
    pub signals_generated: usize,
}

impl MomentumStrategy {
    /// Well-formedness: acceptable tuning, a bounded history of doubled
    /// mids from well-formed snapshots.
    pub open spec fn wf(&self) -> bool {
        &&& self.config.wf()
        &&& self.price_history@.len() <= self.config.lookback + HISTORY_SLACK
        &&& forall|i: int| 0 <= i < self.price_history@.len()
            ==> 0 <= #[trigger] self.price_history@[i] <= 2 * MAX_PRICE
    }

    pub fn new(config: MomentumConfig) -> (r: Self)
        requires
            config.wf(),
        ensures
            r.wf(),
            r.config == config,
            r.price_history@.len() == 0,
            r.updates_processed == 0,
            r.trades_generated == 0,
            r.signals_generated == 0,
    {
        Self {
            config,
            price_history: Vec::new(),
            updates_processed: 0,
            trades_generated: 0,
            signals_generated: 0,
        }
    }

    /// Twice the momentum over the current history, per `spec_momentum2`.
    fn calculate_momentum(&self) -> (r: Option<i64>)
        requires
            self.wf(),
        ensures
            r is Some <==> spec_momentum2(self.price_history@, self.config.lookback as int) is Some,
            r is Some ==> r->0 as int
                == spec_momentum2(self.price_history@, self.config.lookback as int)->0,
    {
        if self.price_history.len() < self.config.lookback {
            return None;
        }

        let len = self.price_history.len();
        let current = self.price_history[len - 1];
        let past = self.price_history[len - self.config.lookback];

        Some(current - past)
    }

    /// Whether the doubled momentum calls for a buy at this position.
    fn should_buy(&self, position_qty: i128, momentum2: i64) -> (r: bool)
        requires
            self.config.wf(),
        ensures
            r == (momentum2 > 2 * self.config.trigger_threshold
                && position_qty < self.config.max_position),
    {
        momentum2 > 2 * self.config.trigger_threshold
            && position_qty < self.config.max_position as i128
    }

    /// Whether the doubled momentum calls for a sell at this position.
    fn should_sell(&self, position_qty: i128, momentum2: i64) -> (r: bool)
        requires
            self.config.wf(),
        ensures
            r == (momentum2 < -2 * self.config.trigger_threshold
                && position_qty > -self.config.max_position),
    {
        momentum2 < -(2 * self.config.trigger_threshold)
            && position_qty > -(self.config.max_position as i128)
    }

    /// Process one snapshot: append the doubled mid to the bounded
    /// history, then emit at most one aggressive order per
    /// `spec_momentum_signal` on the updated history.
    pub fn on_market_data(&mut self, snapshot: &L2Snapshot, position: &Position) -> (r: Vec<Trade>)
        requires
            old(self).wf(),
            snapshot.wf(),
            position.wf(),
            old(self).updates_processed < usize::MAX,
            old(self).trades_generated < usize::MAX,
            old(self).signals_generated < usize::MAX,
        ensures
            final(self).wf(),
            final(self).config == old(self).config,
            final(self).updates_processed == old(self).updates_processed + 1,
            final(self).price_history@ == spec_next_history(
                old(self).price_history@,
                (snapshot.spec_mid2()) as i64,
                old(self).config.lookback as int),
            ({
                let sig = spec_momentum_signal(old(self).config, final(self).price_history@,
                    position.quantity as int, *snapshot);
                &&& sig is Some ==> {
                    &&& r@ == seq![sig->0]
                    &&& final(self).trades_generated == old(self).trades_generated + 1
                    &&& final(self).signals_generated == old(self).signals_generated + 1
                }
                &&& sig is None ==> {
                    &&& r@.len() == 0
                    &&& final(self).trades_generated == old(self).trades_generated
                    &&& final(self).signals_generated == old(self).signals_generated
                }
            }),
    {
        let ghost h0 = self.price_history@;
        self.updates_processed = self.updates_processed + 1;

        let mut trades: Vec<Trade> = Vec::new();

        let mid2 = snapshot.best_bid() + snapshot.best_ask();
        self.price_history.push(mid2);

        if self.price_history.len() > self.config.lookback + HISTORY_SLACK {
            self.price_history.remove(0);
            proof {
                assert(self.price_history@ =~= h0.push(mid2).drop_first());
            }
        }

        let momentum2 = match self.calculate_momentum() {
            Some(m) => m,
            None => {
                return trades;
            },
        };

        let position_qty = position.quantity;
        proof {
            crate::position::lemma_ledger_bounds(position.log());
        }

        if self.should_buy(position_qty, momentum2) {
            // Cross the spread: buy at the ask.
            let trade = Trade::new(Side::Bid, snapshot.best_ask(), self.config.trade_size,
                snapshot.timestamp_us);
            trades.push(trade);
            self.trades_generated = self.trades_generated + 1;
            self.signals_generated = self.signals_generated + 1;
            proof {
                let sig = spec_momentum_signal(self.config, self.price_history@,
                    position.quantity as int, *snapshot);
                assert(trades@ =~= seq![sig->0]);
            }
        } else if self.should_sell(position_qty, momentum2) {
            // Cross the spread: sell at the bid.
            let trade = Trade::new(Side::Ask, snapshot.best_bid(), self.config.trade_size,
                snapshot.timestamp_us);
            trades.push(trade);
            self.trades_generated = self.trades_generated + 1;
            self.signals_generated = self.signals_generated + 1;
            proof {
                let sig = spec_momentum_signal(self.config, self.price_history@,
                    position.quantity as int, *snapshot);
                assert(trades@ =~= seq![sig->0]);
            }
        }

        trades
    }

    pub fn name(&self) -> (r: &'static str)
        ensures
            r@ == "Momentum Strategy"@,
    {
        "Momentum Strategy"
    }

    /// The run counters under the strategy's display name; the
    /// `quotes_placed` slot reports the signals generated.
    pub fn stats(&self) -> (r: crate::strategy::StrategyStats)
        ensures
            r.name@ == "Momentum Strategy"@,
            r.updates_processed == self.updates_processed,
            r.trades_generated == self.trades_generated,
            r.quotes_placed == self.signals_generated,
    {
        crate::strategy::StrategyStats {
            name: String::from_str(self.name()),
            updates_processed: self.updates_processed,
            trades_generated: self.trades_generated,
            quotes_placed: self.signals_generated,
        }
    }
}

} // verus!
