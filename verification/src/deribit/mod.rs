//! Deribit (JSON-RPC 2.0 over WebSocket).

pub mod protocol;
pub mod connector;
pub mod websocket;
