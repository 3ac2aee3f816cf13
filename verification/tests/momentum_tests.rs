//! The momentum strategy, in thousandths: lookback discipline, the
//! trigger threshold, and the position cap.

use rusthft::{L2Snapshot, MomentumConfig, MomentumStrategy, Position, PriceLevel, Side};

fn book_at(bid: i64, ask: i64) -> L2Snapshot {
    let mut bids = Vec::new();
    let mut asks = Vec::new();
    for i in 0..10i64 {
        bids.push(PriceLevel::new(bid - 1000 * i, 1000));
        asks.push(PriceLevel::new(ask + 1000 * i, 1000));
    }
    L2Snapshot {
        row_index: 0,
        timestamp_us: 0,
        datetime: "2023-01-01".to_string(),
        bids,
        asks,
    }
}

fn three_lookback_config() -> MomentumConfig {
    MomentumConfig {
        trigger_threshold: 5000,
        trade_size: 100,
        max_position: 2000,
        lookback: 3,
    }
}

#[test]
fn test_no_trade_before_lookback() {
    let mut momo = MomentumStrategy::new(three_lookback_config());
    let position = Position::new();

    assert!(momo.on_market_data(&book_at(100000, 100100), &position).is_empty());
    assert!(momo.on_market_data(&book_at(110000, 110100), &position).is_empty());
    assert_eq!(momo.updates_processed, 2);
    assert_eq!(momo.trades_generated, 0);
}

#[test]
fn test_buy_signal_on_upward_momentum() {
    let mut momo = MomentumStrategy::new(three_lookback_config());
    let position = Position::new();

    let _ = momo.on_market_data(&book_at(100000, 100100), &position);
    let _ = momo.on_market_data(&book_at(100000, 100100), &position);
    // Mid has risen 10.0 over the window, past the 5.0 trigger: exactly
    // one aggressive buy at the ask.
    let trades = momo.on_market_data(&book_at(110000, 110100), &position);

    assert_eq!(trades.len(), 1);
    assert_eq!(trades[0].side, Side::Bid);
    assert_eq!(trades[0].price, 110100);
    assert_eq!(trades[0].quantity, 100);
    assert_eq!(momo.trades_generated, 1);
    assert_eq!(momo.signals_generated, 1);
}

#[test]
fn test_sell_signal_on_downward_momentum() {
    let mut momo = MomentumStrategy::new(three_lookback_config());
    let position = Position::new();

    let _ = momo.on_market_data(&book_at(110000, 110100), &position);
    let _ = momo.on_market_data(&book_at(110000, 110100), &position);
    let trades = momo.on_market_data(&book_at(100000, 100100), &position);

    assert_eq!(trades.len(), 1);
    assert_eq!(trades[0].side, Side::Ask);
    assert_eq!(trades[0].price, 100000);
    assert_eq!(trades[0].quantity, 100);
}

#[test]
fn test_no_trade_at_or_below_threshold() {
    let mut momo = MomentumStrategy::new(three_lookback_config());
    let position = Position::new();

    let _ = momo.on_market_data(&book_at(100000, 100100), &position);
    let _ = momo.on_market_data(&book_at(100000, 100100), &position);
    // A move of exactly the 5.0 trigger does not cross it.
    let trades = momo.on_market_data(&book_at(105000, 105100), &position);
    assert!(trades.is_empty());
    assert_eq!(momo.signals_generated, 0);
}

#[test]
fn test_position_cap_blocks_signal() {
    let mut momo = MomentumStrategy::new(three_lookback_config());
    let mut position = Position::new();
    position.quantity = 2000;

    let _ = momo.on_market_data(&book_at(100000, 100100), &position);
    let _ = momo.on_market_data(&book_at(100000, 100100), &position);
    let trades = momo.on_market_data(&book_at(110000, 110100), &position);
    assert!(trades.is_empty());
}

#[test]
fn test_history_eviction_keeps_window_bounded() {
    let config = MomentumConfig {
        trigger_threshold: 5000,
        trade_size: 100,
        max_position: 2000,
        lookback: 1,
    };
    let mut momo = MomentumStrategy::new(config);
    let position = Position::new();
    // With a lookback of 1 the momentum is always zero, so no trades;
    // the history must stay capped at lookback + 100 entries.
    for i in 0..150i64 {
        let trades = momo.on_market_data(&book_at(100000 + i, 100100 + i), &position);
        assert!(trades.is_empty());
    }
    assert_eq!(momo.price_history.len(), 101);
    assert_eq!(momo.updates_processed, 150);
}

#[test]
fn test_momentum_name_and_stats() {
    let mut momo = MomentumStrategy::new(three_lookback_config());
    let position = Position::new();
    assert_eq!(momo.name(), "Momentum Strategy");
    let _ = momo.on_market_data(&book_at(100000, 100100), &position);
    let stats = momo.stats();
    assert_eq!(stats.name, "Momentum Strategy");
    assert_eq!(stats.updates_processed, 1);
    assert_eq!(stats.trades_generated, 0);
    assert_eq!(stats.quotes_placed, 0);
}
