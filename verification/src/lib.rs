//! Verified protocol layer for centralized crypto-exchange WebSocket feeds.
//!
//! The library decides, for each exchange, which channel a stream
//! subscription maps to, which JSON frame subscribes to it, how incoming
//! frames are classified (data, pong, acknowledgement) and which registry
//! entries route a data frame back to a stream kind.

pub mod common;
pub mod deribit;
pub mod gateio;
pub mod htx;
pub mod hyperliquid;
pub mod kraken;
pub mod kucoin;
pub mod okx;
