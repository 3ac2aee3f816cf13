//! The quoting engine, in thousandths (100.0 is stored as 100000):
//! fills, hedging, gates and the re-quote throttle.

use rusthft::{L2Snapshot, MarketMaker, MarketMakerConfig, Position, PriceLevel, Side};

/// A ten-level book around the given touch, one price unit (1.0 scaled)
/// between levels, one unit of quantity resting on each.
fn touch_snapshot(bid: i64, ask: i64) -> L2Snapshot {
    let mut bids = Vec::new();
    let mut asks = Vec::new();
    for i in 0..10i64 {
        bids.push(PriceLevel::new(bid - 1000 * i, 1000));
        asks.push(PriceLevel::new(ask + 1000 * i, 1000));
    }
    L2Snapshot {
        row_index: 0,
        timestamp_us: 0,
        datetime: "2023-01-01".to_string(),
        bids,
        asks,
    }
}

/// The tuning the fill tests use: quotes one 0.1 tick beyond the touch.
fn fill_test_config(quote_size: i64) -> MarketMakerConfig {
    MarketMakerConfig {
        spread_offset: 100,
        quote_size,
        tick_size: 100,
        inventory_skew_offset: 50,
        trend_filter_offset: 50,
        ..Default::default()
    }
}

#[test]
fn test_market_maker_creates() {
    let config = MarketMakerConfig::default();
    let mm = MarketMaker::new(config);
    assert_eq!(mm.name(), "Market Maker");
}

#[test]
fn test_position_limits() {
    let config = MarketMakerConfig {
        max_position: 1000,
        inventory_threshold_pct: 50,
        ..Default::default()
    };
    let mm = MarketMaker::new(config);

    assert!(mm.should_quote_bid(400));
    assert!(!mm.should_quote_bid(600));
    assert!(mm.should_quote_ask(-400));
    assert!(!mm.should_quote_ask(-600));
}

#[test]
fn test_passive_bid_fill_when_market_moves_down() {
    let mut mm = MarketMaker::new(fill_test_config(500));
    let position = Position::new();

    assert!(mm.on_market_data(&touch_snapshot(100000, 100100), &position).is_empty());
    let trades = mm.on_market_data(&touch_snapshot(99500, 99800), &position);

    assert_eq!(trades.len(), 1);
    assert_eq!(trades[0].side, Side::Bid);
    assert_eq!(trades[0].price, 99900);
    assert_eq!(trades[0].quantity, 500);
}

#[test]
fn test_passive_ask_fill_when_market_moves_up() {
    let mut mm = MarketMaker::new(fill_test_config(250));
    let position = Position::new();

    assert!(mm.on_market_data(&touch_snapshot(100000, 100100), &position).is_empty());
    let trades = mm.on_market_data(&touch_snapshot(100500, 100800), &position);

    assert_eq!(trades.len(), 1);
    assert_eq!(trades[0].side, Side::Ask);
    assert_eq!(trades[0].price, 100200);
    assert_eq!(trades[0].quantity, 250);
}

#[test]
fn test_hedge_inventory_reduces_long() {
    let config = MarketMakerConfig {
        max_position: 1000,
        quote_size: 200,
        hedge_inventory_pct: 50,
        ..Default::default()
    };
    let mut mm = MarketMaker::new(config);
    let mut position = Position::new();
    position.quantity = 800;

    let _ = mm.on_market_data(&touch_snapshot(100000, 100100), &position);

    let mut trades = Vec::new();
    mm.hedge_inventory(&touch_snapshot(100000, 100100), position.quantity, &mut trades);

    assert_eq!(trades.len(), 1);
    assert_eq!(trades[0].side, Side::Ask);
    assert_eq!(trades[0].price, 100000);
    assert_eq!(trades[0].quantity, 200);
}

#[test]
fn test_hedge_inventory_reduces_short() {
    let config = MarketMakerConfig {
        max_position: 1000,
        quote_size: 200,
        hedge_inventory_pct: 50,
        ..Default::default()
    };
    let mut mm = MarketMaker::new(config);
    let mut position = Position::new();
    position.quantity = -700;

    let mut trades = Vec::new();
    mm.hedge_inventory(&touch_snapshot(100000, 100100), position.quantity, &mut trades);

    assert_eq!(trades.len(), 1);
    assert_eq!(trades[0].side, Side::Bid);
    assert_eq!(trades[0].price, 100100);
    assert_eq!(trades[0].quantity, 200);
}

#[test]
fn test_no_bid_quote_at_position_cap() {
    // At the position cap the bid side must never quote; the hedge
    // threshold is set so high that it cannot interfere.
    let config = MarketMakerConfig {
        max_position: 1000,
        hedge_inventory_pct: 100,
        ..Default::default()
    };
    let mut mm = MarketMaker::new(config);
    let mut position = Position::new();
    position.quantity = 1000;

    let trades = mm.on_market_data(&touch_snapshot(100000, 100100), &position);

    assert!(trades.is_empty());
    assert!(mm.active_bid.is_none());
    assert!(mm.active_ask.is_some());
    assert_eq!(mm.quotes_placed, 1);
}

#[test]
fn test_no_ask_quote_at_short_cap() {
    let config = MarketMakerConfig {
        max_position: 1000,
        hedge_inventory_pct: 100,
        ..Default::default()
    };
    let mut mm = MarketMaker::new(config);
    let mut position = Position::new();
    position.quantity = -1000;

    let trades = mm.on_market_data(&touch_snapshot(100000, 100100), &position);

    assert!(trades.is_empty());
    assert!(mm.active_ask.is_none());
    assert!(mm.active_bid.is_some());
    assert_eq!(mm.quotes_placed, 1);
}

#[test]
fn test_requote_throttle_keeps_same_price() {
    // The same snapshot twice: the desired prices do not move, so the
    // resting orders stay and no new quote is counted.
    let mut mm = MarketMaker::new(MarketMakerConfig::default());
    let position = Position::new();
    let snap = touch_snapshot(100000, 100100);

    let first = mm.on_market_data(&snap, &position);
    assert!(first.is_empty());
    assert_eq!(mm.quotes_placed, 2);
    let bid_before = mm.active_bid;
    let ask_before = mm.active_ask;

    let second = mm.on_market_data(&snap, &position);
    assert!(second.is_empty());
    assert_eq!(mm.quotes_placed, 2);
    assert_eq!(mm.active_bid, bid_before);
    assert_eq!(mm.active_ask, ask_before);
}

#[test]
fn test_requote_after_half_tick_move() {
    // A move of a full tick forces both quotes to be replaced.
    let mut mm = MarketMaker::new(MarketMakerConfig {
        trend_filter_offset: 0,
        ..Default::default()
    });
    let position = Position::new();

    let _ = mm.on_market_data(&touch_snapshot(100000, 100100), &position);
    assert_eq!(mm.quotes_placed, 2);
    let _ = mm.on_market_data(&touch_snapshot(100050, 100150), &position);
    assert_eq!(mm.quotes_placed, 4);
    assert_eq!(mm.active_bid.unwrap().price, 100050 - 25);
    assert_eq!(mm.active_ask.unwrap().price, 100150 + 25);
}

#[test]
fn test_inventory_skew_shifts_both_quotes() {
    // A long position leans both desired prices down by the skew.
    let config = MarketMakerConfig {
        max_position: 1000,
        inventory_skew_offset: 40,
        trend_filter_offset: 0,
        hedge_inventory_pct: 100,
        ..Default::default()
    };
    let mut mm = MarketMaker::new(config);
    let mut position = Position::new();
    position.quantity = 500;

    let _ = mm.on_market_data(&touch_snapshot(100000, 100100), &position);
    // Skew = 500/1000 of 40 = 20, subtracted from both sides.
    assert_eq!(mm.active_bid.unwrap().price, 100000 - 25 - 20);
    assert_eq!(mm.active_ask.unwrap().price, 100100 + 25 - 20);
}
