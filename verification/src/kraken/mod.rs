//! Kraken: asset and pair naming in Kraken's ISO-style codes.

pub mod connector;
