//! KuCoin: kline interval lengths.

pub mod connector;
