//! The snapshot CSV column layout.

use rusthft::generate_headers;

#[test]
fn test_generate_headers() {
    let headers = generate_headers();

    assert_eq!(headers.len(), 43);

    assert_eq!(headers[0], "row_index");
    assert_eq!(headers[1], "timestamp_us");
    assert_eq!(headers[2], "datetime");

    assert_eq!(headers[3], "bid_price_1");
    assert_eq!(headers[4], "bid_qty_1");

    assert_eq!(headers[23], "ask_price_1");
    assert_eq!(headers[24], "ask_qty_1");
}

#[test]
fn test_header_tail() {
    let headers = generate_headers();
    assert_eq!(headers[21], "bid_price_10");
    assert_eq!(headers[22], "bid_qty_10");
    assert_eq!(headers[41], "ask_price_10");
    assert_eq!(headers[42], "ask_qty_10");
}
