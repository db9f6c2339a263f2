//! HTX (Huobi): gzip-compressed frames, server-initiated heartbeats.

pub mod protocol;
pub mod auth;
pub mod websocket;
