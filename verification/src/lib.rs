//! Replay engine for order-book depth snapshots: a position-accounting
//! ledger, a depth-aware order-book view, and two trading strategies
//! (market maker and momentum), all over fixed-point integer prices.

pub mod csv_schema;
pub mod market_maker;
pub mod momentum;
pub mod orderbook;
pub mod position;
pub mod strategy;
pub mod types;

pub use csv_schema::generate_headers;
pub use market_maker::{MarketMaker, MarketMakerConfig};
pub use momentum::{MomentumStrategy, MomentumConfig};
pub use orderbook::OrderBook;
pub use position::{Position, PositionStats, MAX_TRADES};
pub use strategy::{Strategy, StrategyStats};
pub use types::{L2Snapshot, PriceLevel, Side, Trade};
pub use types::{MAX_PRICE, MAX_QTY};
