use hmac::Mac;
use std::io::Write;

use cex_ws::common::json::Json;
use cex_ws::common::types::{AccountType, Credentials, KlineInterval, Message, StreamKind, StreamSpec, Symbol, WebSocketError};
use cex_ws::htx::auth::{utc_text_of_millis, HtxAuth};
use cex_ws::htx::protocol::{htx_kline_wire, HtxProtocol};
use cex_ws::htx::websocket::HtxWebSocket;

fn htx_json(v: &serde_json::Value) -> Json {
    match v {
        serde_json::Value::Null => Json::Null,
        serde_json::Value::Bool(b) => Json::Bool(*b),
        serde_json::Value::Number(n) => Json::Number(n.to_string()),
        serde_json::Value::String(s) => Json::Str(s.clone()),
        serde_json::Value::Array(a) => Json::Array(a.iter().map(htx_json).collect()),
        serde_json::Value::Object(m) => Json::Object(m.iter().map(|(k, x)| (k.clone(), htx_json(x))).collect()),
    }
}

fn htx_frame(text: &str) -> Json {
    htx_json(&serde_json::from_str(text).expect("valid JSON"))
}

fn htx_spot_spec(kind: StreamKind) -> StreamSpec {
    StreamSpec { kind, symbol: Symbol::raw("btcusdt"), account_type: AccountType::Spot, depth: None, speed_ms: None }
}

fn htx_text(m: Message) -> String {
    match m {
        Message::Text(t) => t,
        _ => panic!("expected text frame"),
    }
}

fn one_param(name: &str, value: &str) -> Vec<(String, String)> {
    vec![(name.to_string(), value.to_string())]
}

#[test]
fn htx_test_topic_registry_non_empty() {
    let proto = HtxProtocol::new(AccountType::Spot, false);
    let reg = proto.topic_registry(AccountType::Spot);
    let keys = reg.native_pairs();
    assert!(!keys.is_empty(), "spot registry must have entries");
    assert!(reg.supports(&StreamKind::Ticker, AccountType::Spot));
    assert!(reg.supports(&StreamKind::Trade, AccountType::Spot));
    assert!(reg.supports(&StreamKind::Orderbook, AccountType::Spot));
    assert!(reg.supports(&StreamKind::FundingRate, AccountType::Spot));
    assert!(reg.supports(&StreamKind::Liquidation, AccountType::Spot));
    assert!(reg.supports(&StreamKind::Kline { interval: KlineInterval::new("1m") }, AccountType::Spot));
}

#[test]
fn test_subscribe_frame_kline() {
    let mut proto = HtxProtocol::new(AccountType::Spot, false);
    let spec = htx_spot_spec(StreamKind::Kline { interval: KlineInterval::new("1m") });
    let msg = proto.subscribe_frame(&spec).expect("subscribe_frame must succeed");
    let text = htx_text(msg);
    let v: serde_json::Value = serde_json::from_str(&text).expect("valid JSON");
    assert_eq!(v["sub"], "market.btcusdt.kline.1min");
    assert!(v["id"].as_str().is_some());
}

#[test]
fn test_extract_topic_kline_frame() {
    let proto = HtxProtocol::new(AccountType::Spot, false);
    let frame = htx_frame(
        r#"{"ch":"market.btcusdt.kline.1min","ts":1629384000000,"tick":{"id":1629384000,"open":48000.0,"close":49500.0,"low":47500.0,"high":50000.0,"amount":18344.5,"vol":896748251.0,"count":89472}}"#,
    );
    let topic = proto.extract_topic(&frame).expect("should extract topic");
    assert_eq!(topic.as_str(), "market.btcusdt.kline.1min");
}

#[test]
fn test_extract_topic_ping_returns_none() {
    let proto = HtxProtocol::new(AccountType::Spot, false);
    let frame = htx_frame(r#"{"ping":1629384000000}"#);
    assert!(proto.extract_topic(&frame).is_none());
}

#[test]
fn test_gzip_decode() {
    let json_str = r#"{"ping":1629384000000}"#;
    let mut encoder = flate2::write::GzEncoder::new(Vec::new(), flate2::Compression::default());
    encoder.write_all(json_str.as_bytes()).unwrap();
    let compressed = encoder.finish().unwrap();

    let proto = HtxProtocol::new(AccountType::Spot, false);
    let text = proto.decode_binary(&compressed).expect("gzip decode must succeed");
    let val: serde_json::Value = serde_json::from_str(&text).expect("valid JSON");
    assert_eq!(val["ping"], 1629384000000i64);
}

#[test]
fn htx_gzip_garbage_is_a_parse_error() {
    let proto = HtxProtocol::new(AccountType::Spot, false);
    assert!(matches!(proto.decode_binary(b"not gzip"), Err(WebSocketError::Parse(_))));
}

#[test]
fn htx_ids_count_up() {
    let mut proto = HtxProtocol::new(AccountType::Spot, false);
    let spec = htx_spot_spec(StreamKind::Trade);
    let first = htx_text(proto.subscribe_frame(&spec).expect("trade"));
    let second = htx_text(proto.unsubscribe_frame(&spec).expect("trade"));
    assert_eq!(first, r#"{"sub":"market.btcusdt.trade.detail","id":"id1"}"#);
    assert_eq!(second, r#"{"unsub":"market.btcusdt.trade.detail","id":"id2"}"#);
}

#[test]
fn htx_topics() {
    let futures = StreamSpec {
        kind: StreamKind::Ticker,
        symbol: Symbol::raw("BTC-USDT"),
        account_type: AccountType::FuturesCross,
        depth: None,
        speed_ms: None,
    };
    assert_eq!(HtxProtocol::topic_for(&futures).unwrap(), "market.BTC-USDT.bbo");
    assert_eq!(HtxProtocol::topic_for(&htx_spot_spec(StreamKind::Ticker)).unwrap(), "market.btcusdt.detail");
    assert_eq!(HtxProtocol::topic_for(&htx_spot_spec(StreamKind::OrderbookDelta)).unwrap(), "market.btcusdt.mbp.150");
    assert!(matches!(HtxProtocol::topic_for(&htx_spot_spec(StreamKind::MarkPrice)), Err(WebSocketError::NotSupported(_))));
    assert!(matches!(
        HtxProtocol::topic_for(&htx_spot_spec(StreamKind::VolatilityIndex)),
        Err(WebSocketError::UnsupportedOperation(_))
    ));
    assert_eq!(htx_kline_wire(&KlineInterval::new("1h")), "60min");
    assert_eq!(htx_kline_wire(&KlineInterval::new("1d")), "1day");
}

#[test]
fn htx_control_frames() {
    let proto = HtxProtocol::new(AccountType::Spot, false);
    assert!(proto.is_pong(&htx_frame(r#"{"pong":1629384000000}"#)));
    assert!(!proto.is_pong(&htx_frame(r#"{"ping":1629384000000}"#)));
    assert!(proto.is_subscribe_ack(&htx_frame(r#"{"id":"id1","status":"ok","subbed":"market.btcusdt.trade.detail"}"#)));
    assert!(proto.ping_frame().is_none());
}

#[test]
fn test_build_signed_query() {
    let credentials = Credentials::new("test_key", "test_secret");
    let auth = HtxAuth::new(&credentials);
    let params = one_param("symbol", "btcusdt");
    let query = auth.build_signed_query("GET", "api.huobi.pro", "/v1/order/openOrders", &params);

    assert!(query.contains("AccessKeyId=test_key"));
    assert!(query.contains("SignatureMethod=HmacSHA256"));
    assert!(query.contains("SignatureVersion=2"));
    assert!(query.contains("Timestamp="));
    assert!(query.contains("symbol=btcusdt"));
    assert!(query.contains("Signature="));

    let access_pos = query.find("AccessKeyId").unwrap();
    let symbol_pos = query.find("symbol").unwrap();
    assert!(access_pos < symbol_pos, "Parameters should be sorted in ASCII order");
}

#[test]
fn test_build_signed_query_post() {
    let credentials = Credentials::new("test_key", "test_secret");
    let auth = HtxAuth::new(&credentials);
    let params: Vec<(String, String)> = Vec::new();
    let query = auth.build_signed_query("POST", "api.huobi.pro", "/v1/order/orders/place", &params);

    assert!(query.contains("AccessKeyId=test_key"));
    assert!(query.contains("SignatureMethod=HmacSHA256"));
    assert!(query.contains("SignatureVersion=2"));
    assert!(query.contains("Timestamp="));
    assert!(query.contains("Signature="));
}

#[test]
fn test_sign_websocket_auth() {
    let credentials = Credentials::new("test_key", "test_secret");
    let auth = HtxAuth::new(&credentials);

    let (api_key, timestamp, method, version, signature) = auth.sign_websocket_auth("api.huobi.pro");

    assert_eq!(api_key, "test_key");
    assert!(!timestamp.is_empty());
    assert_eq!(method, "HmacSHA256");
    assert_eq!(version, "2.1");
    assert!(!signature.is_empty());

    assert!(timestamp.contains('T'));
    assert_eq!(timestamp.len(), 19);
}

#[test]
fn test_timestamp_format() {
    let credentials = Credentials::new("test_key", "test_secret");
    let auth = HtxAuth::new(&credentials);

    let timestamp = auth.get_timestamp();

    assert_eq!(timestamp.len(), 19);
    assert!(timestamp.contains('T'));

    let parts: Vec<&str> = timestamp.split('T').collect();
    assert_eq!(parts.len(), 2);

    let date_parts: Vec<&str> = parts[0].split('-').collect();
    assert_eq!(date_parts.len(), 3);

    let time_parts: Vec<&str> = parts[1].split(':').collect();
    assert_eq!(time_parts.len(), 3);
}

#[test]
fn htx_signed_query_exact() {
    let auth = HtxAuth::new(&Credentials::new("test_key", "test_secret"));
    let params = one_param("symbol", "btcusdt");
    let query = auth.build_signed_query_at("get", "api.huobi.pro", "/v1/order/openOrders", &params, "2021-08-19T14:40:00");
    assert_eq!(
        query,
        "AccessKeyId=test_key&SignatureMethod=HmacSHA256&SignatureVersion=2&Timestamp=2021-08-19T14%3A40%3A00&symbol=btcusdt&Signature=08nyHj%2FSmIMF0wtEfvRPQh%2FcLRZgMnzMqzZKvxFMA3Y%3D"
    );
}

#[test]
fn htx_auth_params_override_and_encoding() {
    let auth = HtxAuth::new(&Credentials::new("k", "s"));
    let params = vec![
        ("note".to_string(), "a b/c".to_string()),
        ("Timestamp".to_string(), "stale".to_string()),
        ("AccessKeyId".to_string(), "other".to_string()),
    ];
    let query = auth.build_signed_query_at("POST", "h", "/p", &params, "t");
    let head = query.split("&Signature=").next().unwrap();
    assert_eq!(head, "AccessKeyId=k&SignatureMethod=HmacSHA256&SignatureVersion=2&Timestamp=t&note=a+b%2Fc");
}

#[test]
fn htx_signature_matches_reference_hmac() {
    let auth = HtxAuth::new(&Credentials::new("key", "secret"));
    let (_, ts, _, _, signature) = auth.sign_websocket_auth_at("api.huobi.pro", "2024-01-02T03:04:05");
    assert_eq!(ts, "2024-01-02T03:04:05");
    let pre = "GET\napi.huobi.pro\n/ws/v2\nAccessKeyId=key&SignatureMethod=HmacSHA256&SignatureVersion=2.1&Timestamp=2024-01-02T03%3A04%3A05";
    let mut mac = <hmac::Hmac<sha2::Sha256> as hmac::KeyInit>::new_from_slice(b"secret").unwrap();
    mac.update(pre.as_bytes());
    let expected = base64::Engine::encode(&base64::engine::general_purpose::STANDARD, mac.finalize().into_bytes());
    assert_eq!(signature, expected);
}

#[test]
fn htx_sync_time_keeps_key() {
    let mut auth = HtxAuth::new(&Credentials::new("key", "secret"));
    auth.sync_time_at(2_000, 500);
    auth.sync_time(1_700_000_000_000);
    assert_eq!(auth.api_key(), "key");
    assert_eq!(auth.get_timestamp().len(), 19);
}

#[test]
fn htx_utc_text_of_millis() {
    assert_eq!(utc_text_of_millis(0).unwrap(), "1970-01-01T00:00:00");
    assert_eq!(utc_text_of_millis(1629384000123).unwrap(), "2021-08-19T14:40:00");
    assert_eq!(utc_text_of_millis(-5000).unwrap(), "1969-12-31T23:59:55");
    assert!(utc_text_of_millis(-1).is_none());
}

#[test]
fn htx_websocket_refuses_unoffered_streams() {
    let ws = HtxWebSocket::new(None, false, AccountType::Spot).expect("new");
    assert!(matches!(ws.subscribe_check(&htx_spot_spec(StreamKind::MarkPrice)), Err(WebSocketError::NotSupported(_))));
    assert!(ws.subscribe_check(&htx_spot_spec(StreamKind::Trade)).is_ok());
    assert!(ws.subscribe_check(&htx_spot_spec(StreamKind::VolatilityIndex)).is_ok());
    assert!(!ws.is_testnet());
    assert!(matches!(ws.account_type(), AccountType::Spot));
}

#[test]
fn htx_signed_query_ignores_parameter_order() {
    let auth = HtxAuth::new(&Credentials::new("k", "s"));
    let a = vec![("b".to_string(), "2".to_string()), ("a".to_string(), "1".to_string())];
    let b = vec![("a".to_string(), "1".to_string()), ("b".to_string(), "2".to_string())];
    let qa = auth.build_signed_query_at("GET", "h", "/p", &a, "t");
    let qb = auth.build_signed_query_at("GET", "h", "/p", &b, "t");
    assert_eq!(qa, qb);
}

#[test]
fn htx_timestamp_applies_the_offset() {
    let mut auth = HtxAuth::new(&Credentials::new("key", "secret"));
    assert_eq!(auth.timestamp_at(0).unwrap(), "1970-01-01T00:00:00");
    auth.sync_time_at(2_000, 500);
    assert_eq!(auth.timestamp_at(0).unwrap(), "1970-01-01T00:00:01");
    assert_eq!(auth.timestamp_at(1_629_383_998_500).unwrap(), "2021-08-19T14:40:00");
    assert!(auth.timestamp_at(i64::MAX).is_none());
    assert_eq!(auth.api_key(), "key");
}

#[test]
fn htx_websocket_signature_is_base64_of_32_bytes() {
    let auth = HtxAuth::new(&Credentials::new("k", "s"));
    let (_, _, _, _, signature) = auth.sign_websocket_auth_at("h", "t");
    assert_eq!(signature.len(), 44);
    assert!(signature.ends_with('='));
}
