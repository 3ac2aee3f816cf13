//! Depth-snapshot basics, on a real-shaped book quoted in tenths
//! (17181.6 is stored as 171816) with quantities in thousandths.

use rusthft::{L2Snapshot, PriceLevel};

fn sample_snapshot() -> L2Snapshot {
    L2Snapshot {
        row_index: 0,
        timestamp_us: 1673302660926,
        datetime: "2023-01-09 22:17:40".to_string(),
        bids: vec![
            PriceLevel::new(171816, 23371),
            PriceLevel::new(171815, 746),
            PriceLevel::new(171814, 5428),
            PriceLevel::new(171812, 890),
            PriceLevel::new(171811, 3787),
            PriceLevel::new(171810, 908),
            PriceLevel::new(171809, 1628),
            PriceLevel::new(171808, 7),
            PriceLevel::new(171807, 876),
            PriceLevel::new(171806, 2854),
        ],
        asks: vec![
            PriceLevel::new(171817, 7474),
            PriceLevel::new(171818, 3442),
            PriceLevel::new(171819, 1946),
            PriceLevel::new(171820, 601),
            PriceLevel::new(171821, 1877),
            PriceLevel::new(171822, 5168),
            PriceLevel::new(171823, 20),
            PriceLevel::new(171824, 6692),
            PriceLevel::new(171825, 1904),
            PriceLevel::new(171826, 2546),
        ],
    }
}

#[test]
fn test_best_bid_ask() {
    let snap = sample_snapshot();
    assert_eq!(snap.best_bid(), 171816);
    assert_eq!(snap.best_ask(), 171817);
}

#[test]
fn test_spread() {
    let snap = sample_snapshot();
    assert_eq!(snap.spread(), 1);
}

#[test]
fn test_mid_price() {
    let snap = sample_snapshot();
    // (171816 + 171817) / 2, rounded down to a whole price unit.
    assert_eq!(snap.mid_price(), 171816);
}

#[test]
fn test_bids_vector() {
    let snap = sample_snapshot();
    let bids = snap.bids();
    assert_eq!(bids.len(), 10);
    assert_eq!(bids[0].price, 171816);
    assert_eq!(bids[0].quantity, 23371);
}

#[test]
fn test_is_valid() {
    let snap = sample_snapshot();
    assert!(snap.check_shape());
    assert!(snap.is_valid());
}

#[test]
fn test_imbalance() {
    let snap = sample_snapshot();
    let imbalance = snap.imbalance().unwrap();
    assert!(imbalance >= -10000 && imbalance <= 10000);
}

#[test]
fn test_imbalance_exact_and_empty() {
    let mut snap = sample_snapshot();
    // Book with 30 resting to buy and 10 to sell: (30-10)/(30+10) = 0.5.
    for i in 0..10 {
        snap.bids[i] = PriceLevel::new(1000 - i as i64, if i == 0 { 30 } else { 0 });
        snap.asks[i] = PriceLevel::new(1001 + i as i64, if i == 0 { 10 } else { 0 });
    }
    assert_eq!(snap.imbalance(), Some(5000));
    // A book with nothing resting has no defined imbalance.
    for i in 0..10 {
        snap.bids[i] = PriceLevel::new(1000 - i as i64, 0);
        snap.asks[i] = PriceLevel::new(1001 + i as i64, 0);
    }
    assert_eq!(snap.imbalance(), None);
}

#[test]
fn test_crossed_book_is_invalid() {
    let mut snap = sample_snapshot();
    // Ask at or below the bid: zero spread must be rejected.
    snap.asks[0] = PriceLevel::new(171816, 7474);
    assert!(!snap.is_valid());
    // Mis-sorted bids must be rejected too.
    let mut snap2 = sample_snapshot();
    snap2.bids[3] = PriceLevel::new(171820, 1);
    assert!(!snap2.is_valid());
    // A negative quantity must be rejected.
    let mut snap3 = sample_snapshot();
    snap3.asks[9] = PriceLevel::new(171826, -5);
    assert!(!snap3.is_valid());
}

#[test]
fn test_check_shape_rejects_bad_books() {
    // Too few levels.
    let mut snap = sample_snapshot();
    snap.bids.pop();
    assert!(!snap.check_shape());
    // An out-of-range quantity.
    let mut snap2 = sample_snapshot();
    snap2.asks[0] = PriceLevel::new(171817, -1);
    assert!(!snap2.check_shape());
}

#[test]
fn test_totals_and_notional() {
    let snap = sample_snapshot();
    let bid_qty: i64 = 23371 + 746 + 5428 + 890 + 3787 + 908 + 1628 + 7 + 876 + 2854;
    assert_eq!(snap.total_bid_qty(), bid_qty);
    let ask_qty: i64 = 7474 + 3442 + 1946 + 601 + 1877 + 5168 + 20 + 6692 + 1904 + 2546;
    assert_eq!(snap.total_ask_qty(), ask_qty);
    assert_eq!(
        snap.total_bid_notional(),
        171816i128 * 23371 + 171815i128 * 746 + 171814i128 * 5428 + 171812i128 * 890
            + 171811i128 * 3787 + 171810i128 * 908 + 171809i128 * 1628 + 171808i128 * 7
            + 171807i128 * 876 + 171806i128 * 2854
    );
    let level = PriceLevel::new(100, 3);
    assert_eq!(level.notional(), 300);
}
