use cex_ws::common::json::Json;
use cex_ws::common::types::{AccountType, KlineInterval, Message, StreamKind, StreamSpec, Symbol, WebSocketError};
use cex_ws::gateio::protocol::{channel_and_payload, format_gateio_symbol, GateIoCategory, GateIoProtocol};

fn gate_json(v: &serde_json::Value) -> Json {
    match v {
        serde_json::Value::Null => Json::Null,
        serde_json::Value::Bool(b) => Json::Bool(*b),
        serde_json::Value::Number(n) => Json::Number(n.to_string()),
        serde_json::Value::String(s) => Json::Str(s.clone()),
        serde_json::Value::Array(a) => Json::Array(a.iter().map(gate_json).collect()),
        serde_json::Value::Object(m) => Json::Object(m.iter().map(|(k, x)| (k.clone(), gate_json(x))).collect()),
    }
}

fn gate_frame(text: &str) -> Json {
    gate_json(&serde_json::from_str(text).expect("valid JSON"))
}

fn spot_spec(kind: StreamKind) -> StreamSpec {
    StreamSpec { kind, symbol: Symbol::new("BTC", "USDT"), account_type: AccountType::Spot, depth: None, speed_ms: None }
}

fn gate_text(m: Message) -> String {
    match m {
        Message::Text(t) => t,
        _ => panic!("expected text frame"),
    }
}

#[test]
fn protocol_test_topic_registry_non_empty() {
    let proto = GateIoProtocol::new(AccountType::Spot, false);
    let reg = proto.topic_registry(AccountType::Spot);
    let keys = reg.native_pairs();
    assert!(!keys.is_empty(), "spot registry must have entries");
    assert!(reg.supports(&StreamKind::Ticker, AccountType::Spot));
    assert!(reg.supports(&StreamKind::Trade, AccountType::Spot));
    assert!(reg.supports(&StreamKind::Kline { interval: KlineInterval::new("1m") }, AccountType::Spot));
}

#[test]
fn test_subscribe_frame_spot_trades() {
    let proto = GateIoProtocol::new(AccountType::Spot, false);
    let spec = spot_spec(StreamKind::Trade);
    let msg = proto.subscribe_frame(&spec).expect("subscribe_frame must succeed");
    let text = gate_text(msg);
    let v: serde_json::Value = serde_json::from_str(&text).expect("valid JSON");
    assert_eq!(v["event"], "subscribe");
    assert_eq!(v["channel"], "spot.trades");
    let payload = v["payload"].as_array().expect("payload array");
    assert_eq!(payload[0], "BTC_USDT");
}

#[test]
fn test_extract_topic_trades_frame() {
    let proto = GateIoProtocol::new(AccountType::Spot, false);
    let frame = gate_frame(
        r#"{"time":1234567890,"channel":"spot.trades","event":"update","result":{"id":1,"create_time":1234}}"#,
    );
    let topic = proto.extract_topic(&frame).expect("should extract topic");
    assert_eq!(topic.as_str(), "spot.trades");
}

#[test]
fn test_extract_topic_subscribe_ack_returns_none() {
    let proto = GateIoProtocol::new(AccountType::Spot, false);
    let frame = gate_frame(r#"{"time":1234,"channel":"spot.trades","event":"subscribe","result":{"status":"success"}}"#);
    assert!(proto.extract_topic(&frame).is_none());
}

#[test]
fn test_extract_topic_pong_returns_none() {
    let proto = GateIoProtocol::new(AccountType::Spot, false);
    let frame = gate_frame(r#"{"channel":"spot.pong"}"#);
    assert!(proto.extract_topic(&frame).is_none());
}

#[test]
fn test_symbol_format_underscore() {
    let sym = format_gateio_symbol("BTC", "USDT");
    assert_eq!(sym, "BTC_USDT");
    assert!(!sym.contains('-'));
    assert!(!sym.contains("BTCUSDT"));
}

#[test]
fn test_ping_frame_contains_channel() {
    let proto = GateIoProtocol::new(AccountType::Spot, false);
    let frame = proto.ping_frame().expect("ping frame must exist");
    let text = gate_text(frame);
    let v: serde_json::Value = serde_json::from_str(&text).expect("valid JSON");
    assert_eq!(v["channel"], "spot.ping");
}

#[test]
fn test_futures_registry_has_liquidation() {
    let proto = GateIoProtocol::new(AccountType::FuturesCross, false);
    let reg = proto.topic_registry(AccountType::FuturesCross);
    assert!(reg.supports(&StreamKind::Liquidation, AccountType::Spot));
    assert!(reg.supports(&StreamKind::FundingRate, AccountType::Spot));
    assert!(reg.supports(&StreamKind::MarkPrice, AccountType::Spot));
}

#[test]
fn gate_symbol_is_upper_cased() {
    assert_eq!(format_gateio_symbol("eth", "usdt"), "ETH_USDT");
}

#[test]
fn gate_categories() {
    assert!(matches!(GateIoCategory::from_account_type(AccountType::Spot), GateIoCategory::Spot));
    assert!(matches!(GateIoCategory::from_account_type(AccountType::Margin), GateIoCategory::Spot));
    assert_eq!(GateIoCategory::from_account_type(AccountType::FuturesCross).channel_prefix(), "futures");
    assert_eq!(GateIoCategory::from_account_type(AccountType::Options).channel_prefix(), "options");
    assert_eq!(GateIoCategory::Spot.ping_channel(), "spot.ping");
    assert_eq!(GateIoCategory::Spot.ws_url(false), "wss://api.gateio.ws/ws/v4/");
}

#[test]
fn gate_order_book_payload_defaults() {
    let spec = spot_spec(StreamKind::Orderbook);
    let (channel, payload) = channel_and_payload("spot", &spec).expect("order book");
    assert_eq!(channel, "spot.order_book");
    assert_eq!(payload, vec!["BTC_USDT".to_string(), "20".to_string(), "1000ms".to_string()]);
    let mut deep = spot_spec(StreamKind::OrderbookDelta);
    deep.depth = Some(50);
    deep.speed_ms = Some(100);
    let (channel, payload) = channel_and_payload("spot", &deep).expect("order book delta");
    assert_eq!(channel, "spot.order_book_update");
    assert_eq!(payload, vec!["BTC_USDT".to_string(), "50".to_string(), "100ms".to_string()]);
}

#[test]
fn gate_kline_payloads() {
    let spec = spot_spec(StreamKind::Kline { interval: KlineInterval::new("5m") });
    let (channel, payload) = channel_and_payload("spot", &spec).expect("kline");
    assert_eq!(channel, "spot.candlesticks");
    assert_eq!(payload, vec!["5m".to_string(), "BTC_USDT".to_string()]);
    let mark = spot_spec(StreamKind::MarkPriceKline { interval: KlineInterval::new("1h") });
    let (_, payload) = channel_and_payload("futures", &mark).expect("mark kline");
    assert_eq!(payload, vec!["1h".to_string(), "mark_BTC_USDT".to_string()]);
    let balances = spot_spec(StreamKind::BalanceUpdate);
    let (channel, payload) = channel_and_payload("spot", &balances).expect("balances");
    assert_eq!(channel, "spot.balances");
    assert!(payload.is_empty());
}

#[test]
fn gate_unsupported_kind_is_an_error() {
    let spec = spot_spec(StreamKind::VolatilityIndex);
    match channel_and_payload("spot", &spec) {
        Err(WebSocketError::UnsupportedOperation(msg)) => assert_eq!(msg, "gateio: unsupported stream kind VolatilityIndex"),
        other => panic!("unexpected {:?}", other),
    }
}

#[test]
fn gate_frame_at_fixed_time() {
    let spec = spot_spec(StreamKind::Ticker);
    let text = gate_text(GateIoProtocol::build_frame_at(false, &spec, 1700000000).expect("frame"));
    assert_eq!(text, r#"{"time":1700000000,"channel":"spot.tickers","event":"unsubscribe","payload":["BTC_USDT"]}"#);
}

#[test]
fn gate_control_frames() {
    let proto = GateIoProtocol::new(AccountType::Spot, false);
    assert!(proto.is_pong(&gate_frame(r#"{"channel":"spot.pong"}"#)));
    assert!(!proto.is_pong(&gate_frame(r#"{"channel":"spot.trades"}"#)));
    assert!(proto.is_subscribe_ack(&gate_frame(r#"{"channel":"spot.trades","event":"subscribe"}"#)));
    assert_eq!(proto.ping_interval(), 20);
    assert!(proto.auth_frame(&cex_ws::common::types::Credentials::new("k", "s")).is_none());
}
