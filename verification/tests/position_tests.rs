//! Ledger accounting: opening, closing, averaging, flips, and the
//! worked profit-and-loss examples.

use rusthft::{Position, Side, Trade};

#[test]
fn test_new_position() {
    let pos = Position::new();
    assert!(pos.is_flat());
    assert_eq!(pos.realized_pnl, 0);
    assert_eq!(pos.trade_count, 0);
}

#[test]
fn test_buy_opens_long() {
    let mut pos = Position::new();
    let trade = Trade::new(Side::Bid, 100, 1, 0);

    pos.execute_trade(trade);

    assert!(pos.is_long());
    assert_eq!(pos.quantity, 1);
    assert_eq!(pos.avg_entry_price, 100);
    assert_eq!(pos.realized_pnl, 0);
}

#[test]
fn test_sell_closes_long() {
    let mut pos = Position::new();

    pos.execute_trade(Trade::new(Side::Bid, 100, 1, 0));
    pos.execute_trade(Trade::new(Side::Ask, 110, 1, 1));

    assert!(pos.is_flat());
    assert_eq!(pos.realized_pnl, 10);
}

#[test]
fn test_partial_close() {
    let mut pos = Position::new();

    pos.execute_trade(Trade::new(Side::Bid, 100, 2, 0));
    assert_eq!(pos.quantity, 2);

    pos.execute_trade(Trade::new(Side::Ask, 110, 1, 1));

    assert!(pos.is_long());
    assert_eq!(pos.quantity, 1);
    assert_eq!(pos.avg_entry_price, 100);
    assert_eq!(pos.realized_pnl, 10);
}

#[test]
fn test_average_entry_price() {
    let mut pos = Position::new();

    pos.execute_trade(Trade::new(Side::Bid, 100, 1, 0));
    assert_eq!(pos.avg_entry_price, 100);

    pos.execute_trade(Trade::new(Side::Bid, 110, 1, 1));

    assert_eq!(pos.quantity, 2);
    assert_eq!(pos.avg_entry_price, 105);
}

#[test]
fn test_position_flip() {
    let mut pos = Position::new();

    pos.execute_trade(Trade::new(Side::Bid, 100, 1, 0));
    pos.execute_trade(Trade::new(Side::Ask, 110, 2, 1));

    assert!(pos.is_short());
    assert_eq!(pos.quantity, -1);
    assert_eq!(pos.avg_entry_price, 110);
    assert_eq!(pos.realized_pnl, 10);
}

#[test]
fn test_unrealized_pnl() {
    let mut pos = Position::new();

    pos.execute_trade(Trade::new(Side::Bid, 100, 1, 0));

    let unrealized = pos.unrealized_pnl(110);
    assert_eq!(unrealized, 10);

    let unrealized = pos.unrealized_pnl(90);
    assert_eq!(unrealized, -10);
}

#[test]
fn test_short_position_pnl() {
    let mut pos = Position::new();

    pos.execute_trade(Trade::new(Side::Ask, 100, 1, 0));
    assert!(pos.is_short());
    assert_eq!(pos.quantity, -1);

    pos.execute_trade(Trade::new(Side::Bid, 90, 1, 1));

    assert!(pos.is_flat());
    assert_eq!(pos.realized_pnl, 10);
}

#[test]
fn test_round_trip_example() {
    // Buy 1 @ 100 then sell 1 @ 110: flat, 10 realized, average reset.
    let mut pos = Position::new();
    pos.execute_trade(Trade::new(Side::Bid, 100, 1, 0));
    pos.execute_trade(Trade::new(Side::Ask, 110, 1, 1));
    assert_eq!(pos.quantity, 0);
    assert_eq!(pos.realized_pnl, 10);
    assert_eq!(pos.avg_entry_price, 0);
}

#[test]
fn test_blended_average_round_trip_example() {
    // Buy 2 @ 100, buy 1 @ 130 (average 110), sell 3 @ 110: nothing
    // realized, flat.
    let mut pos = Position::new();
    pos.execute_trade(Trade::new(Side::Bid, 100, 2, 0));
    assert_eq!(pos.avg_entry_price, 100);
    pos.execute_trade(Trade::new(Side::Bid, 130, 1, 1));
    assert_eq!(pos.avg_entry_price, 110);
    pos.execute_trade(Trade::new(Side::Ask, 110, 3, 2));
    assert_eq!(pos.realized_pnl, 0);
    assert_eq!(pos.quantity, 0);
}

#[test]
fn test_flip_example() {
    // Buy 1 @ 100, sell 2 @ 110: only the closed unit is realized, the
    // fresh short opens at 110.
    let mut pos = Position::new();
    pos.execute_trade(Trade::new(Side::Bid, 100, 1, 0));
    pos.execute_trade(Trade::new(Side::Ask, 110, 2, 1));
    assert_eq!(pos.quantity, -1);
    assert_eq!(pos.avg_entry_price, 110);
    assert_eq!(pos.realized_pnl, 10);
}

#[test]
fn test_quantity_is_signed_sum() {
    // The net position tracks the signed sum of all traded quantities.
    let mut pos = Position::new();
    pos.execute_trade(Trade::new(Side::Bid, 100, 7, 0));
    pos.execute_trade(Trade::new(Side::Ask, 101, 3, 1));
    pos.execute_trade(Trade::new(Side::Bid, 99, 4, 2));
    pos.execute_trade(Trade::new(Side::Ask, 105, 10, 3));
    assert_eq!(pos.quantity, 7 - 3 + 4 - 10);
    assert_eq!(pos.total_bought, 11);
    assert_eq!(pos.total_sold, 13);
    assert_eq!(pos.trade_count, 4);
    assert_eq!(pos.trades().len(), 4);
}

#[test]
fn test_reset_returns_to_flat() {
    let mut pos = Position::new();
    pos.execute_trade(Trade::new(Side::Bid, 100, 1, 0));
    pos.reset();
    assert!(pos.is_flat());
    assert_eq!(pos.avg_entry_price, 0);
    assert_eq!(pos.realized_pnl, 0);
    assert_eq!(pos.trade_count, 0);
    assert_eq!(pos.total_bought, 0);
    assert_eq!(pos.total_sold, 0);
    assert_eq!(pos.trades().len(), 0);
}

#[test]
fn test_stats_snapshot() {
    let mut pos = Position::new();
    pos.execute_trade(Trade::new(Side::Bid, 100, 2, 0));
    pos.execute_trade(Trade::new(Side::Ask, 110, 1, 1));
    let stats = pos.stats(120);
    assert_eq!(stats.position_qty, 1);
    assert_eq!(stats.avg_entry_price, 100);
    assert_eq!(stats.current_price, 120);
    assert_eq!(stats.realized_pnl, 10);
    assert_eq!(stats.unrealized_pnl, 20);
    assert_eq!(stats.total_pnl, 30);
    assert_eq!(stats.trade_count, 2);
    assert_eq!(stats.total_bought, 2);
    assert_eq!(stats.total_sold, 1);
    assert_eq!(stats.winning_trades, 1);
    assert_eq!(stats.losing_trades, 0);
}

#[test]
fn test_total_pnl_combines_both_legs() {
    let mut pos = Position::new();
    pos.execute_trade(Trade::new(Side::Ask, 200, 5, 0));
    // Short 5 @ 200, marked at 180: 5 * 20 unrealized, nothing realized.
    assert_eq!(pos.total_pnl(180), 100);
    pos.execute_trade(Trade::new(Side::Bid, 180, 2, 1));
    // Two units bought back at 180 lock in 40.
    assert_eq!(pos.realized_pnl, 40);
    assert_eq!(pos.total_pnl(180), 40 + 60);
}

#[test]
fn test_trade_accessors() {
    let t = Trade::new(Side::Bid, 100, 3, 7);
    assert!(t.is_buy());
    assert!(!t.is_sell());
    assert_eq!(t.notional(), 300);
    assert_eq!(t.timestamp_us, 7);
    let u = Trade::new(Side::Ask, 50, 2, 8);
    assert!(u.is_sell());
    assert_eq!(u.side.opposite(), Side::Bid);
    assert_eq!(Side::Bid.opposite(), Side::Ask);
}
