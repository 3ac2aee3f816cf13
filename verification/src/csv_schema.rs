//! The column layout of the depth-snapshot CSV files: a row index, a
//! timestamp, a formatted datetime, then ten bid and ten ask levels as
//! alternating price and quantity columns.

use vstd::prelude::*;
use vstd::string::StringExecFns;

verus! {

/// The 43 column names, in file order.
pub fn generate_headers() -> (r: Vec<String>)
    ensures
        r@.len() == 43,
            r@[0]@ == "row_index"@,
            r@[1]@ == "timestamp_us"@,
            r@[2]@ == "datetime"@,
            r@[3]@ == "bid_price_1"@,
            r@[4]@ == "bid_qty_1"@,
            r@[5]@ == "bid_price_2"@,
            r@[6]@ == "bid_qty_2"@,
            r@[7]@ == "bid_price_3"@,
            r@[8]@ == "bid_qty_3"@,
            r@[9]@ == "bid_price_4"@,
            r@[10]@ == "bid_qty_4"@,
            r@[11]@ == "bid_price_5"@,
            r@[12]@ == "bid_qty_5"@,
            r@[13]@ == "bid_price_6"@,
            r@[14]@ == "bid_qty_6"@,
            r@[15]@ == "bid_price_7"@,
            r@[16]@ == "bid_qty_7"@,
            r@[17]@ == "bid_price_8"@,
            r@[18]@ == "bid_qty_8"@,
            r@[19]@ == "bid_price_9"@,
            r@[20]@ == "bid_qty_9"@,
            r@[21]@ == "bid_price_10"@,
            r@[22]@ == "bid_qty_10"@,
            r@[23]@ == "ask_price_1"@,
            r@[24]@ == "ask_qty_1"@,
            r@[25]@ == "ask_price_2"@,
            r@[26]@ == "ask_qty_2"@,
            r@[27]@ == "ask_price_3"@,
            r@[28]@ == "ask_qty_3"@,
            r@[29]@ == "ask_price_4"@,
            r@[30]@ == "ask_qty_4"@,
            r@[31]@ == "ask_price_5"@,
            r@[32]@ == "ask_qty_5"@,
            r@[33]@ == "ask_price_6"@,
            r@[34]@ == "ask_qty_6"@,
            r@[35]@ == "ask_price_7"@,
            r@[36]@ == "ask_qty_7"@,
            r@[37]@ == "ask_price_8"@,
            r@[38]@ == "ask_qty_8"@,
            r@[39]@ == "ask_price_9"@,
            r@[40]@ == "ask_qty_9"@,
            r@[41]@ == "ask_price_10"@,
            r@[42]@ == "ask_qty_10"@,
{
    let mut headers: Vec<String> = Vec::new();
        headers.push(String::from_str("row_index"));
        headers.push(String::from_str("timestamp_us"));
        headers.push(String::from_str("datetime"));
        headers.push(String::from_str("bid_price_1"));
        headers.push(String::from_str("bid_qty_1"));
        headers.push(String::from_str("bid_price_2"));
        headers.push(String::from_str("bid_qty_2"));
        headers.push(String::from_str("bid_price_3"));
        headers.push(String::from_str("bid_qty_3"));
        headers.push(String::from_str("bid_price_4"));
        headers.push(String::from_str("bid_qty_4"));
        headers.push(String::from_str("bid_price_5"));
        headers.push(String::from_str("bid_qty_5"));
        headers.push(String::from_str("bid_price_6"));
        headers.push(String::from_str("bid_qty_6"));
        headers.push(String::from_str("bid_price_7"));
        headers.push(String::from_str("bid_qty_7"));
        headers.push(String::from_str("bid_price_8"));
        headers.push(String::from_str("bid_qty_8"));
        headers.push(String::from_str("bid_price_9"));
        headers.push(String::from_str("bid_qty_9"));
        headers.push(String::from_str("bid_price_10"));
        headers.push(String::from_str("bid_qty_10"));
        headers.push(String::from_str("ask_price_1"));
        headers.push(String::from_str("ask_qty_1"));
        headers.push(String::from_str("ask_price_2"));
        headers.push(String::from_str("ask_qty_2"));
        headers.push(String::from_str("ask_price_3"));
        headers.push(String::from_str("ask_qty_3"));
        headers.push(String::from_str("ask_price_4"));
        headers.push(String::from_str("ask_qty_4"));
        headers.push(String::from_str("ask_price_5"));
        headers.push(String::from_str("ask_qty_5"));
        headers.push(String::from_str("ask_price_6"));
        headers.push(String::from_str("ask_qty_6"));
        headers.push(String::from_str("ask_price_7"));
        headers.push(String::from_str("ask_qty_7"));
        headers.push(String::from_str("ask_price_8"));
        headers.push(String::from_str("ask_qty_8"));
        headers.push(String::from_str("ask_price_9"));
        headers.push(String::from_str("ask_qty_9"));
        headers.push(String::from_str("ask_price_10"));
        headers.push(String::from_str("ask_qty_10"));
    headers
}

} // verus!
