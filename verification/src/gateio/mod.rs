//! Gate.io (per-product-line endpoints and channel prefixes).

pub mod protocol;
pub mod connector;
