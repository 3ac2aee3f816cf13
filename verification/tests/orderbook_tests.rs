//! The order-book view and its two depth walks, quoted in thousandths
//! (100.0 is stored as 100000, 10.0 of quantity as 10000).

use rusthft::{L2Snapshot, OrderBook, PriceLevel, Side};

fn ladder_snapshot() -> L2Snapshot {
    // Bids 100, 99, ... with 10, 20, ... resting; asks 101, 102, ...
    let mut bids = Vec::new();
    let mut asks = Vec::new();
    for i in 0..10i64 {
        bids.push(PriceLevel::new((100 - i) * 1000, (10 + 10 * i) * 1000));
        asks.push(PriceLevel::new((101 + i) * 1000, (10 + 10 * i) * 1000));
    }
    L2Snapshot {
        row_index: 0,
        timestamp_us: 1673302660926,
        datetime: "2023-01-09 22:17:40".to_string(),
        bids,
        asks,
    }
}

#[test]
fn test_new_orderbook() {
    let book = OrderBook::new();
    assert!(book.is_empty());
    assert_eq!(book.update_count(), 0);
}

#[test]
fn test_update() {
    let mut book = OrderBook::new();
    let snapshot = ladder_snapshot();

    book.update(snapshot);

    assert!(!book.is_empty());
    assert_eq!(book.update_count(), 1);
    assert_eq!(book.best_bid(), Some(100000));
    assert_eq!(book.best_ask(), Some(101000));
}

#[test]
fn test_calculate_slippage() {
    let mut book = OrderBook::new();
    book.update(ladder_snapshot());

    // Buying 15 units walks 10 @ 101 and 5 @ 102:
    // average (10*101 + 5*102) / 15 = 101.333...
    let result = book.calculate_slippage(Side::Ask, 15000);
    assert!(result.is_some());

    let (avg_price, slippage_bps, levels) = result.unwrap();
    assert_eq!(avg_price, 101333);
    assert!(slippage_bps > 30 && slippage_bps < 35);
    assert_eq!(levels, 2);
}

#[test]
fn test_slippage_insufficient_liquidity() {
    let mut book = OrderBook::new();
    book.update(ladder_snapshot());
    // The whole ask side holds 10+20+...+100 = 550 units.
    assert!(book.calculate_slippage(Side::Ask, 550000).is_some());
    assert_eq!(book.calculate_slippage(Side::Ask, 550001), None);
}

#[test]
fn test_slippage_empty_book() {
    let book = OrderBook::new();
    assert_eq!(book.calculate_slippage(Side::Bid, 1000), None);
}

#[test]
fn test_slippage_single_level() {
    let mut book = OrderBook::new();
    book.update(ladder_snapshot());
    // Fully inside the top level: the average is the best price and the
    // slippage zero.
    let (avg, bps, levels) = book.calculate_slippage(Side::Bid, 10000).unwrap();
    assert_eq!(avg, 100000);
    assert_eq!(bps, 0);
    assert_eq!(levels, 1);
}

#[test]
fn test_liquidity_for_notional() {
    let mut book = OrderBook::new();
    book.update(ladder_snapshot());

    // A budget of exactly the top ask level: 101 * 10 = 1010 (in scaled
    // units 101000 * 10000). The empty remainder still touches the next
    // level for a prorated fill of zero.
    let (qty, avg, levels) = book.liquidity_for_notional(Side::Ask, 101000 * 10000);
    assert_eq!(qty, 10000);
    assert_eq!(avg, 101000);
    assert_eq!(levels, 2);

    // Half the second level on top of the first.
    let budget: i128 = 101000 * 10000 + 102000 * 10000;
    let (qty2, _avg2, levels2) = book.liquidity_for_notional(Side::Ask, budget);
    assert_eq!(qty2, 20000);
    assert_eq!(levels2, 2);

    // An empty book gives nothing.
    let empty = OrderBook::new();
    assert_eq!(empty.liquidity_for_notional(Side::Bid, 1000), (0, 0, 0));
}

#[test]
fn test_book_accessors() {
    let mut book = OrderBook::new();
    assert!(book.snapshot().is_none());
    assert_eq!(book.spread(), None);
    book.update(ladder_snapshot());
    assert!(book.snapshot().is_some());
    assert_eq!(book.spread(), Some(1000));
    assert_eq!(book.mid_price(), Some(100500));
    assert_eq!(book.bids().len(), 10);
    assert_eq!(book.asks()[1].price, 102000);
    let book2 = OrderBook::default();
    assert!(book2.is_empty());
}
