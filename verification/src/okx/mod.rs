//! OKX: one channel namespace shared by the public and business endpoints.

pub mod protocol;
pub mod websocket;
