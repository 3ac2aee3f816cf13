//! Strategy dispatch and the backtest driver: a tagged union over the two
//! trading engines, fed one snapshot at a time, with every resulting
//! trade applied to the position ledger.

use vstd::prelude::*;

use crate::market_maker::{spec_mm_step, MarketMaker};
use crate::momentum::{spec_momentum_signal, spec_next_history, MomentumStrategy};
use crate::position::{Position, MAX_TRADES};
use crate::types::{L2Snapshot, Trade, MAX_PRICE, MAX_QTY};

verus! {

/// Run counters reported by a strategy. For the market maker
/// `quotes_placed` counts resting orders placed; for the momentum
/// strategy it carries the signals generated.
#[derive(Debug, Clone)]
pub struct StrategyStats {
    pub name: String,
    pub updates_processed: usize,
    pub trades_generated: usize,
    pub quotes_placed: usize,
}

/// A strategy under replay: tagged dispatch over the two engines.
pub enum Strategy {
    MarketMaker(MarketMaker),
    Momentum(MomentumStrategy),
}

/// Counter headroom needed to process `n` more snapshots without any
/// counter or the ledger overflowing.
pub open spec fn spec_headroom(s: Strategy, n: int) -> bool {
    match s {
        Strategy::MarketMaker(m) => {
            &&& m.updates_processed + n <= usize::MAX
            &&& m.trades_generated + 5 * n <= usize::MAX
            &&& m.quotes_placed + 2 * n <= usize::MAX
        },
        Strategy::Momentum(m) => {
            &&& m.updates_processed + n <= usize::MAX
            &&& m.trades_generated + n <= usize::MAX
            &&& m.signals_generated + n <= usize::MAX
        },
    }
}

impl Strategy {
    pub open spec fn wf(&self) -> bool {
        match self {
            Strategy::MarketMaker(m) => m.wf(),
            Strategy::Momentum(m) => m.wf(),
        }
    }

    /// Feed one snapshot to the wrapped engine. Each engine's behaviour
    /// is pinned by its own step specification (`spec_mm_step`,
    /// `spec_momentum_signal`); this method only dispatches.
    pub fn on_market_data(&mut self, snapshot: &L2Snapshot, position: &Position) -> (r: Vec<Trade>)
        requires
            old(self).wf(),
            snapshot.wf(),
            position.wf(),
            spec_headroom(*old(self), 1),
        ensures
            final(self).wf(),
            spec_headroom(*old(self), 1),
            r@.len() <= 5,
            *old(self) is MarketMaker <==> *final(self) is MarketMaker,
            (*old(self) matches Strategy::MarketMaker(m0) ==> *final(self) matches
                Strategy::MarketMaker(m1) && {
                let out = spec_mm_step(m0.config, m0.active_bid, m0.active_ask, m0.last_mid2,
                    *snapshot, position.quantity as int);
                &&& m1.config == m0.config
                &&& m1.active_bid == out.active_bid
                &&& m1.active_ask == out.active_ask
                &&& m1.last_mid2 == Some((snapshot.spec_mid2()) as i64)
                &&& r@ == out.trades
                &&& m1.updates_processed == m0.updates_processed + 1
                &&& m1.trades_generated == m0.trades_generated + out.trades.len()
                &&& m1.quotes_placed == m0.quotes_placed
                    + (if out.placed_bid { 1int } else { 0int })
                    + (if out.placed_ask { 1int } else { 0int })
            }),
            (*old(self) matches Strategy::Momentum(m0) ==> *final(self) matches
                Strategy::Momentum(m1) && {
                let sig = spec_momentum_signal(m0.config, m1.price_history@,
                    position.quantity as int, *snapshot);
                &&& m1.config == m0.config
                &&& m1.price_history@ == spec_next_history(m0.price_history@,
                    (snapshot.spec_mid2()) as i64, m0.config.lookback as int)
                &&& m1.updates_processed == m0.updates_processed + 1
                &&& sig is Some ==> r@ == seq![sig->0]
                    && m1.trades_generated == m0.trades_generated + 1
                    && m1.signals_generated == m0.signals_generated + 1
                &&& sig is None ==> r@.len() == 0
                    && m1.trades_generated == m0.trades_generated
                    && m1.signals_generated == m0.signals_generated
            }),
    {
        match self {
            Strategy::MarketMaker(m) => m.on_market_data(snapshot, position),
            Strategy::Momentum(m) => m.on_market_data(snapshot, position),
        }
    }

    /// The wrapped engine's display name.
    pub fn name(&self) -> (r: &'static str)
        ensures
            self is MarketMaker ==> r@ == "Market Maker"@,
            self is Momentum ==> r@ == "Momentum Strategy"@,
    {
        match self {
            Strategy::MarketMaker(m) => m.name(),
            Strategy::Momentum(m) => m.name(),
        }
    }

    /// The wrapped engine's run counters.
    pub fn stats(&self) -> (r: StrategyStats)
        ensures
            (self matches Strategy::MarketMaker(m) ==> {
                &&& r.name@ == "Market Maker"@
                &&& r.updates_processed == m.updates_processed
                &&& r.trades_generated == m.trades_generated
                &&& r.quotes_placed == m.quotes_placed
            }),
            (self matches Strategy::Momentum(m) ==> {
                &&& r.name@ == "Momentum Strategy"@
                &&& r.updates_processed == m.updates_processed
                &&& r.trades_generated == m.trades_generated
                &&& r.quotes_placed == m.signals_generated
            }),
    {
        match self {
            Strategy::MarketMaker(m) => m.stats(),
            Strategy::Momentum(m) => m.stats(),
        }
    }

    /// Feed one snapshot through the strategy and apply its acceptable
    /// trades to the ledger. A malformed or invalid snapshot changes
    /// nothing (skipping is the caller-side policy the input contract
    /// allows). On a usable snapshot the appended history is exactly the
    /// engine's emissions with any degenerate trade (out-of-range price
    /// or quantity, as can arise against a degenerate book) filtered out.
    pub fn process_snapshot(&mut self, snapshot: &L2Snapshot, position: &mut Position)
        requires
            old(self).wf(),
            old(position).wf(),
            old(position).log().len() + 5 <= MAX_TRADES,
            spec_headroom(*old(self), 1),
        ensures
            final(self).wf(),
            final(position).wf(),
            *old(self) is MarketMaker <==> *final(self) is MarketMaker,
            !snap_ok(*snapshot) ==> *final(self) == *old(self)
                && *final(position) == *old(position),
            spec_updates(*final(self)) == spec_updates(*old(self))
                + if snap_ok(*snapshot) { 1int } else { 0int },
            snap_ok(*snapshot) ==> (*old(self) matches Strategy::MarketMaker(m0)
                ==> *final(self) matches Strategy::MarketMaker(m1) && {
                let out = spec_mm_step(m0.config, m0.active_bid, m0.active_ask, m0.last_mid2,
                    *snapshot, old(position).quantity as int);
                &&& m1.config == m0.config
                &&& m1.active_bid == out.active_bid
                &&& m1.active_ask == out.active_ask
                &&& m1.updates_processed == m0.updates_processed + 1
                &&& m1.trades_generated == m0.trades_generated + out.trades.len()
                &&& out.trades.len() <= 5
                &&& m1.quotes_placed == m0.quotes_placed
                    + (if out.placed_bid { 1int } else { 0int })
                    + (if out.placed_ask { 1int } else { 0int })
                &&& final(position).log() == old(position).log() + filter_valid(out.trades)
            }),
            snap_ok(*snapshot) ==> (*old(self) matches Strategy::Momentum(m0)
                ==> *final(self) matches Strategy::Momentum(m1) && {
                let sig = spec_momentum_signal(m0.config, m1.price_history@,
                    old(position).quantity as int, *snapshot);
                &&& m1.config == m0.config
                &&& m1.price_history@ == spec_next_history(m0.price_history@,
                    (snapshot.spec_mid2()) as i64, m0.config.lookback as int)
                &&& m1.updates_processed == m0.updates_processed + 1
                &&& sig is Some ==> final(position).log()
                    == old(position).log() + filter_valid(seq![sig->0])
                    && m1.trades_generated == m0.trades_generated + 1
                    && m1.signals_generated == m0.signals_generated + 1
                &&& sig is None ==> final(position).log() == old(position).log()
                    && m1.trades_generated == m0.trades_generated
                    && m1.signals_generated == m0.signals_generated
            }),
            old(position).log().len() <= final(position).log().len(),
            final(position).log().len() <= old(position).log().len() + 5,
            final(position).log().take(old(position).log().len() as int)
                == old(position).log(),
            forall|k: int| old(position).log().len() <= k < final(position).log().len()
                ==> (#[trigger] final(position).log()[k]).valid(),
            (final(self).model(), final(position).log())
                == model_step(old(self).model(), *snapshot, old(position).log()),
    {
        let ghost pre_model = self.model();
        let ghost pre_log = position.log();

        if !snapshot.check_shape() {
            return;
        }
        if !snapshot.is_valid() {
            return;
        }

        let trades = self.on_market_data(snapshot, position);
        let ghost emitted = trades@;
        let ghost log_snap = position.log();
        proof {
            lemma_filter_valid_props(emitted);
            assert(emitted.take(0) =~= Seq::<Trade>::empty());
            assert(position.log() =~= log_snap + filter_valid(emitted.take(0)));
        }

        let mut j: usize = 0;
        while j < trades.len()
            invariant
                position.wf(),
                j <= emitted.len(),
                emitted.len() <= 5,
                emitted == trades@,
                log_snap.len() + 5 <= MAX_TRADES,
                position.log() == log_snap + filter_valid(emitted.take(j as int)),
            decreases emitted.len() - j,
        {
            let t = trades[j];
            proof {
                assert(emitted.take(j + 1 as int).drop_last() =~= emitted.take(j as int));
                assert(emitted.take(j + 1 as int).last() == emitted[j as int]);
                lemma_filter_valid_props(emitted.take(j as int));
            }
            if t.price >= 1 && t.price <= MAX_PRICE
                && t.quantity >= 1 && t.quantity <= MAX_QTY {
                position.execute_trade(t);
                proof {
                    assert(position.log()
                        =~= log_snap + filter_valid(emitted.take(j + 1 as int)));
                }
            }
            j = j + 1;
        }
        proof {
            assert(emitted.take(emitted.len() as int) =~= emitted);
            lemma_filter_valid_props(emitted);
            let l = position.log();
            assert(l.take(log_snap.len() as int) =~= log_snap);
            assert(forall|k: int| log_snap.len() <= k < l.len()
                ==> (#[trigger] l[k]).valid());
            let step = model_step(pre_model, *snapshot, pre_log);
            assert(self.model() == step.0);
            assert(position.log() == step.1);
        }
    }

    /// Replay a whole sequence of snapshots through `process_snapshot`:
    /// malformed or invalid snapshots are skipped, and each usable one
    /// advances the engine and the ledger exactly as its step
    /// specification says. The ledger's earlier history is untouched,
    /// everything appended is a trade it accepts, and the engine has
    /// processed exactly the usable snapshots.
    pub fn run_backtest(&mut self, snapshots: &Vec<L2Snapshot>, position: &mut Position)
        requires
            old(self).wf(),
            old(position).wf(),
            old(position).log().len() + snapshots@.len() * 5 <= MAX_TRADES,
            spec_headroom(*old(self), snapshots@.len() as int),
        ensures
            final(self).wf(),
            final(position).wf(),
            *old(self) is MarketMaker <==> *final(self) is MarketMaker,
            spec_updates(*final(self)) == spec_updates(*old(self)) + count_ok(snapshots@),
            old(position).log().len() <= final(position).log().len(),
            final(position).log().len() <= old(position).log().len() + snapshots@.len() * 5,
            final(position).log().take(old(position).log().len() as int) == old(position).log(),
            forall|k: int| old(position).log().len() <= k < final(position).log().len()
                ==> (#[trigger] final(position).log()[k]).valid(),
            (final(self).model(), final(position).log())
                == run_model(old(self).model(), snapshots@, old(position).log()),
    {
        let ghost model0 = self.model();
        let ghost log0 = position.log();
        let n = snapshots.len();
        let mut i: usize = 0;

        proof {
            assert(snapshots@.take(0) =~= Seq::<L2Snapshot>::empty());
        }
        while i < n
            invariant
                self.wf(),
                position.wf(),
                n == snapshots@.len(),
                i <= n,
                *old(self) is MarketMaker <==> *self is MarketMaker,
                spec_headroom(*self, (n - i) as int),
                spec_updates(*self) == spec_updates(*old(self))
                    + count_ok(snapshots@.take(i as int)),
                model0 == old(self).model(),
                (self.model(), position.log())
                    == run_model(model0, snapshots@.take(i as int), log0),
                log0.len() <= position.log().len(),
                position.log().len() <= log0.len() + i * 5,
                log0.len() + snapshots@.len() * 5 <= MAX_TRADES,
                position.log().take(log0.len() as int) == log0,
                forall|k: int| log0.len() <= k < position.log().len()
                    ==> (#[trigger] position.log()[k]).valid(),
            decreases n - i,
        {
            let snap = &snapshots[i];
            let ghost log_before = position.log();
            self.process_snapshot(snap, position);
            proof {
                assert(snapshots@.take(i + 1 as int).drop_last() =~= snapshots@.take(i as int));
                assert(snapshots@.take(i + 1 as int).last() == snapshots@[i as int]);
                assert(position.log().take(log0.len() as int)
                    =~= position.log().take(log_before.len() as int).take(log0.len() as int));
                assert(forall|k: int| log0.len() <= k < position.log().len()
                    ==> (#[trigger] position.log()[k]).valid());
            }
            i = i + 1;
        }
        proof {
            assert(snapshots@.take(n as int) =~= snapshots@);
        }
    }
}

/// The market maker's state as mathematical data: its quotes and
/// unbounded counters.
pub struct MmModel {
    pub config: crate::market_maker::MarketMakerConfig,
    pub active_bid: Option<crate::market_maker::LimitOrder>,
    pub active_ask: Option<crate::market_maker::LimitOrder>,
    pub last_mid2: Option<i64>,
    pub updates_processed: int,
    pub trades_generated: int,
    pub quotes_placed: int,
}

/// The momentum strategy's state as mathematical data: its history as a
/// sequence and unbounded counters.
pub struct MomentumModel {
    pub config: crate::momentum::MomentumConfig,
    pub price_history: Seq<i64>,
    pub updates_processed: int,
    pub trades_generated: int,
    pub signals_generated: int,
}

/// A strategy's state as mathematical data.
pub enum StrategyModel {
    MarketMaker(MmModel),
    Momentum(MomentumModel),
}

impl Strategy {
    /// The mathematical state this value holds.
    pub open spec fn model(&self) -> StrategyModel {
        match self {
            Strategy::MarketMaker(m) => StrategyModel::MarketMaker(MmModel {
                config: m.config,
                active_bid: m.active_bid,
                active_ask: m.active_ask,
                last_mid2: m.last_mid2,
                updates_processed: m.updates_processed as int,
                trades_generated: m.trades_generated as int,
                quotes_placed: m.quotes_placed as int,
            }),
            Strategy::Momentum(m) => StrategyModel::Momentum(MomentumModel {
                config: m.config,
                price_history: m.price_history@,
                updates_processed: m.updates_processed as int,
                trades_generated: m.trades_generated as int,
                signals_generated: m.signals_generated as int,
            }),
        }
    }
}

/// One driver step over mathematical state: skip an unusable snapshot,
/// otherwise advance the engine by its own step specification and append
/// the acceptable emitted trades to the ledger history. The engine sees
/// the net position that the history determines.
pub open spec fn model_step(s: StrategyModel, snap: L2Snapshot, log: Seq<Trade>)
    -> (StrategyModel, Seq<Trade>) {
    if !snap_ok(snap) {
        (s, log)
    } else {
        let pos = crate::position::ledger_of(log).position;
        match s {
            StrategyModel::MarketMaker(m) => {
                let out = spec_mm_step(m.config, m.active_bid, m.active_ask, m.last_mid2,
                    snap, pos);
                (
                    StrategyModel::MarketMaker(MmModel {
                        config: m.config,
                        active_bid: out.active_bid,
                        active_ask: out.active_ask,
                        last_mid2: Some((snap.spec_mid2()) as i64),
                        updates_processed: m.updates_processed + 1,
                        trades_generated: m.trades_generated + out.trades.len(),
                        quotes_placed: m.quotes_placed
                            + (if out.placed_bid { 1int } else { 0int })
                            + (if out.placed_ask { 1int } else { 0int }),
                    }),
                    log + filter_valid(out.trades),
                )
            },
            StrategyModel::Momentum(m) => {
                let h1 = spec_next_history(m.price_history, (snap.spec_mid2()) as i64,
                    m.config.lookback as int);
                let sig = spec_momentum_signal(m.config, h1, pos, snap);
                let emitted: Seq<Trade> = match sig {
                    Some(t) => seq![t],
                    None => seq![],
                };
                (
                    StrategyModel::Momentum(MomentumModel {
                        config: m.config,
                        price_history: h1,
                        updates_processed: m.updates_processed + 1,
                        trades_generated: m.trades_generated + emitted.len(),
                        signals_generated: m.signals_generated + emitted.len(),
                    }),
                    log + filter_valid(emitted),
                )
            },
        }
    }
}

/// A whole replay over mathematical state: `model_step` folded over the
/// snapshots in order.
pub open spec fn run_model(s: StrategyModel, snaps: Seq<L2Snapshot>, log: Seq<Trade>)
    -> (StrategyModel, Seq<Trade>)
    decreases snaps.len(),
{
    if snaps.len() == 0 {
        (s, log)
    } else {
        let prev = run_model(s, snaps.drop_last(), log);
        model_step(prev.0, snaps.last(), prev.1)
    }
}

/// A usable snapshot: well-formed and valid.
pub open spec fn snap_ok(s: L2Snapshot) -> bool {
    s.wf() && s.valid()
}

/// How many of the snapshots are usable.
pub open spec fn count_ok(ss: Seq<L2Snapshot>) -> int
    decreases ss.len(),
{
    if ss.len() == 0 {
        0
    } else {
        count_ok(ss.drop_last()) + if snap_ok(ss.last()) { 1int } else { 0int }
    }
}

/// Snapshots processed so far, whichever engine is wrapped.
pub open spec fn spec_updates(s: Strategy) -> int {
    match s {
        Strategy::MarketMaker(m) => m.updates_processed as int,
        Strategy::Momentum(m) => m.updates_processed as int,
    }
}

/// The trades of the sequence that the ledger accepts, in order.
pub open spec fn filter_valid(ts: Seq<Trade>) -> Seq<Trade>
    decreases ts.len(),
{
    if ts.len() == 0 {
        Seq::empty()
    } else {
        let rest = filter_valid(ts.drop_last());
        if ts.last().valid() {
            rest.push(ts.last())
        } else {
            rest
        }
    }
}

/// Filtering never lengthens a sequence, and keeps only acceptable
/// trades.
pub proof fn lemma_filter_valid_props(ts: Seq<Trade>)
    ensures
        filter_valid(ts).len() <= ts.len(),
        forall|k: int| 0 <= k < filter_valid(ts).len()
            ==> (#[trigger] filter_valid(ts)[k]).valid(),
    decreases ts.len(),
{
    if ts.len() > 0 {
        lemma_filter_valid_props(ts.drop_last());
    }
}

} // verus!
