use cex_ws::common::json::Json;
use cex_ws::common::types::{AccountType, KlineInterval, Message, StreamKind, StreamSpec, Symbol, WebSocketError};
use cex_ws::hyperliquid::protocol::HyperliquidProtocol;

fn hl_json(v: &serde_json::Value) -> Json {
    match v {
        serde_json::Value::Null => Json::Null,
        serde_json::Value::Bool(b) => Json::Bool(*b),
        serde_json::Value::Number(n) => Json::Number(n.to_string()),
        serde_json::Value::String(s) => Json::Str(s.clone()),
        serde_json::Value::Array(a) => Json::Array(a.iter().map(hl_json).collect()),
        serde_json::Value::Object(m) => Json::Object(m.iter().map(|(k, x)| (k.clone(), hl_json(x))).collect()),
    }
}

fn hl_frame(text: &str) -> Json {
    hl_json(&serde_json::from_str(text).expect("valid JSON"))
}

fn hl_futures_spec(kind: StreamKind) -> StreamSpec {
    StreamSpec { kind, symbol: Symbol::raw("BTC"), account_type: AccountType::FuturesCross, depth: None, speed_ms: None }
}

fn hl_text(m: Message) -> String {
    match m {
        Message::Text(t) => t,
        _ => panic!("expected text frame"),
    }
}

#[test]
fn hyperliquid_test_topic_registry_non_empty() {
    let proto = HyperliquidProtocol::new(false);
    let reg = proto.topic_registry(AccountType::FuturesCross);
    let keys = reg.native_pairs();
    assert!(!keys.is_empty(), "registry must have entries");
    assert!(reg.supports(&StreamKind::Trade, AccountType::FuturesCross));
    assert!(reg.supports(&StreamKind::Orderbook, AccountType::FuturesCross));
    assert!(reg.supports(&StreamKind::Ticker, AccountType::FuturesCross));
    assert!(reg.supports(&StreamKind::FundingRate, AccountType::FuturesCross));
    assert!(reg.supports(&StreamKind::Liquidation, AccountType::FuturesCross));
}

#[test]
fn test_subscribe_frame_trades_uses_coin() {
    let proto = HyperliquidProtocol::new(false);
    let spec = hl_futures_spec(StreamKind::Trade);
    let msg = proto.subscribe_frame(&spec).expect("subscribe_frame must succeed");
    let text = hl_text(msg);
    let v: serde_json::Value = serde_json::from_str(&text).expect("valid JSON");
    assert_eq!(v["method"], "subscribe");
    let sub = &v["subscription"];
    assert_eq!(sub["type"], "trades");
    assert_eq!(sub["coin"], "BTC");
}

#[test]
fn protocol_test_extract_topic_trades_frame() {
    let proto = HyperliquidProtocol::new(false);
    let frame = hl_frame(r#"{"channel":"trades","data":[{"coin":"BTC","side":"B","px":"50000","sz":"0.1","time":1000,"tid":1}]}"#);
    let topic = proto.extract_topic(&frame).expect("should extract topic");
    assert_eq!(topic.as_str(), "trades");
}

#[test]
fn protocol_test_extract_topic_pong_returns_none() {
    let proto = HyperliquidProtocol::new(false);
    let frame = hl_frame(r#"{"channel":"pong"}"#);
    assert!(proto.extract_topic(&frame).is_none());
}

#[test]
fn protocol_test_extract_topic_subscribe_ack_returns_none() {
    let proto = HyperliquidProtocol::new(false);
    let frame = hl_frame(r#"{"channel":"subscriptionResponse","data":{"method":"subscribe"}}"#);
    assert!(proto.extract_topic(&frame).is_none());
}

#[test]
fn hyperliquid_frames_exact() {
    let proto = HyperliquidProtocol::new(true);
    let book = hl_text(proto.subscribe_frame(&hl_futures_spec(StreamKind::Orderbook)).expect("book"));
    assert_eq!(
        book,
        r#"{"method":"subscribe","subscription":{"type":"l2Book","coin":"BTC","nSigFigs":null,"mantissa":null}}"#
    );
    let candle = hl_text(
        proto.unsubscribe_frame(&hl_futures_spec(StreamKind::Kline { interval: KlineInterval::new("15m") })).expect("candle"),
    );
    assert_eq!(candle, r#"{"method":"unsubscribe","subscription":{"type":"candle","coin":"BTC","interval":"15m"}}"#);
    assert_eq!(hl_text(proto.ping_frame().expect("ping")), r#"{"method":"ping"}"#);
    assert_eq!(proto.endpoint(AccountType::FuturesCross, true), "wss://api.hyperliquid-testnet.xyz/ws");
}

#[test]
fn hyperliquid_unsupported_kind() {
    let proto = HyperliquidProtocol::new(false);
    assert!(matches!(
        proto.subscribe_frame(&hl_futures_spec(StreamKind::VolatilityIndex)),
        Err(WebSocketError::UnsupportedOperation(_))
    ));
}

#[test]
fn hyperliquid_control_frames() {
    let proto = HyperliquidProtocol::new(false);
    assert!(proto.is_pong(&hl_frame(r#"{"channel":"pong"}"#)));
    assert!(proto.is_subscribe_ack(&hl_frame(r#"{"channel":"subscriptionResponse","data":{}}"#)));
    assert!(!proto.is_subscribe_ack(&hl_frame(r#"{"channel":"trades","data":[]}"#)));
    assert_eq!(proto.requires_auth_kinds(AccountType::FuturesCross).len(), 3);
}
