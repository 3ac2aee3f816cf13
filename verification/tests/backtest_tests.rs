//! The driver: a strategy replayed over a snapshot sequence, with every
//! emitted trade applied to the ledger and invalid snapshots skipped.

use rusthft::{
    L2Snapshot, MarketMaker, MarketMakerConfig, MomentumConfig, MomentumStrategy, Position,
    PriceLevel, Strategy,
};

fn level_book(bid: i64, ask: i64) -> L2Snapshot {
    let mut bids = Vec::new();
    let mut asks = Vec::new();
    for i in 0..10i64 {
        bids.push(PriceLevel::new(bid - 1000 * i, 1000));
        asks.push(PriceLevel::new(ask + 1000 * i, 1000));
    }
    L2Snapshot {
        row_index: 0,
        timestamp_us: 0,
        datetime: "2023-01-01".to_string(),
        bids,
        asks,
    }
}

#[test]
fn test_momentum_backtest_applies_trades() {
    let config = MomentumConfig {
        trigger_threshold: 0,
        trade_size: 100,
        max_position: 2000,
        lookback: 2,
    };
    let mut strategy = Strategy::Momentum(MomentumStrategy::new(config));
    let mut position = Position::new();

    let snapshots = vec![
        level_book(100000, 100100),
        level_book(101000, 101100),
        level_book(102000, 102100),
    ];
    strategy.run_backtest(&snapshots, &mut position);

    // The second and third snapshots each show positive momentum: two
    // buys of 100 at the prevailing ask.
    assert_eq!(position.quantity, 200);
    assert_eq!(position.trade_count, 2);
    assert_eq!(position.trades()[0].price, 101100);
    assert_eq!(position.trades()[1].price, 102100);
    let stats = strategy.stats();
    assert_eq!(stats.updates_processed, 3);
    assert_eq!(stats.trades_generated, 2);
}

#[test]
fn test_backtest_skips_invalid_snapshots() {
    let config = MomentumConfig {
        trigger_threshold: 0,
        trade_size: 100,
        max_position: 2000,
        lookback: 2,
    };
    let mut strategy = Strategy::Momentum(MomentumStrategy::new(config));
    let mut position = Position::new();

    // The middle snapshot is crossed (zero spread) and must be skipped.
    let mut crossed = level_book(101000, 101100);
    crossed.asks[0] = PriceLevel::new(101000, 1000);
    let snapshots = vec![
        level_book(100000, 100100),
        crossed,
        level_book(102000, 102100),
    ];
    strategy.run_backtest(&snapshots, &mut position);

    let stats = strategy.stats();
    assert_eq!(stats.updates_processed, 2);
    assert_eq!(position.trade_count, 1);
    assert_eq!(position.trades()[0].price, 102100);
}

#[test]
fn test_market_maker_backtest_round_trip() {
    let config = MarketMakerConfig {
        spread_offset: 100,
        quote_size: 500,
        tick_size: 100,
        inventory_skew_offset: 0,
        trend_filter_offset: 0,
        ..Default::default()
    };
    let mut strategy = Strategy::MarketMaker(MarketMaker::new(config));
    let mut position = Position::new();

    // Quote at 99900/100200; the market drops through the bid (buy 500
    // at 99900), the ask is re-placed at 99200, and the recovery runs
    // through it (sell 500 at 99200): a full round trip, 700 of adverse
    // selection per unit.
    let snapshots = vec![
        level_book(100000, 100100),
        level_book(99000, 99100),
        level_book(100500, 100600),
    ];
    strategy.run_backtest(&snapshots, &mut position);

    assert_eq!(strategy.name(), "Market Maker");
    assert_eq!(position.trade_count, 2);
    assert_eq!(position.trades()[0].side, rusthft::Side::Bid);
    assert_eq!(position.trades()[0].price, 99900);
    assert_eq!(position.trades()[1].side, rusthft::Side::Ask);
    assert_eq!(position.trades()[1].price, 99200);
    assert_eq!(position.quantity, 0);
    assert_eq!(position.realized_pnl, -700 * 500);
}
