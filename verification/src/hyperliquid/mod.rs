//! Hyperliquid (perpetuals DEX): one channel namespace for every account type.

pub mod protocol;
