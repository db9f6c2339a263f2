use hmac::Mac;
use cex_ws::common::json::Json;
use cex_ws::common::types::{AccountType, Credentials, KlineInterval, Message, StreamKind, StreamSpec, Symbol, WebSocketError};
use cex_ws::okx::protocol::OkxProtocol;

fn okx_json(v: &serde_json::Value) -> Json {
    match v {
        serde_json::Value::Null => Json::Null,
        serde_json::Value::Bool(b) => Json::Bool(*b),
        serde_json::Value::Number(n) => Json::Number(n.to_string()),
        serde_json::Value::String(s) => Json::Str(s.clone()),
        serde_json::Value::Array(a) => Json::Array(a.iter().map(okx_json).collect()),
        serde_json::Value::Object(m) => Json::Object(m.iter().map(|(k, x)| (k.clone(), okx_json(x))).collect()),
    }
}

fn okx_frame(text: &str) -> Json {
    okx_json(&serde_json::from_str(text).expect("valid JSON"))
}

fn okx_spot_spec(kind: StreamKind) -> StreamSpec {
    StreamSpec { kind, symbol: Symbol::raw("BTC-USDT"), account_type: AccountType::Spot, depth: None, speed_ms: None }
}

fn okx_text(m: Message) -> String {
    match m {
        Message::Text(t) => t,
        _ => panic!("expected text frame"),
    }
}

#[test]
fn okx_test_topic_registry_non_empty() {
    let proto = OkxProtocol::new(AccountType::Spot, false);
    let reg = proto.topic_registry(AccountType::Spot);
    let keys = reg.native_pairs();
    assert!(!keys.is_empty(), "registry must have entries");
    assert!(reg.supports(&StreamKind::Ticker, AccountType::Spot));
    assert!(reg.supports(&StreamKind::Trade, AccountType::Spot));
    assert!(reg.supports(&StreamKind::Orderbook, AccountType::Spot));
    assert!(reg.supports(&StreamKind::FundingRate, AccountType::Spot));
    assert!(reg.supports(&StreamKind::MarkPrice, AccountType::Spot));
    assert!(reg.supports(&StreamKind::Kline { interval: KlineInterval::new("1h") }, AccountType::Spot));
}

#[test]
fn test_subscribe_frame_trades() {
    let proto = OkxProtocol::new(AccountType::Spot, false);
    let spec = okx_spot_spec(StreamKind::Trade);
    let msg = proto.subscribe_frame(&spec).expect("subscribe_frame ok");
    let text = okx_text(msg);
    let v: serde_json::Value = serde_json::from_str(&text).expect("valid JSON");
    assert_eq!(v["op"], "subscribe");
    let arg = &v["args"][0];
    assert_eq!(arg["channel"], "trades");
    assert_eq!(arg["instId"], "BTC-USDT");
}

#[test]
fn okx_test_extract_topic_trades_frame() {
    let proto = OkxProtocol::new(AccountType::Spot, false);
    let frame = okx_frame(r#"{"arg":{"channel":"trades","instId":"BTC-USDT"},"data":[]}"#);
    let topic = proto.extract_topic(&frame).expect("should extract topic");
    assert_eq!(topic.as_str(), "trades");
}

#[test]
fn protocol_test_extract_topic_ping_returns_none() {
    let proto = OkxProtocol::new(AccountType::Spot, false);
    let frame = Json::Str("pong".to_string());
    assert!(proto.extract_topic(&frame).is_none());
}

#[test]
fn okx_test_extract_topic_subscribe_ack_returns_none() {
    let proto = OkxProtocol::new(AccountType::Spot, false);
    let frame = okx_frame(r#"{"event":"subscribe","arg":{"channel":"trades","instId":"BTC-USDT"}}"#);
    assert!(proto.extract_topic(&frame).is_none());
}

#[test]
fn okx_intervals_and_families() {
    assert_eq!(OkxProtocol::okx_interval(&KlineInterval::new("1h")), "1H");
    assert_eq!(OkxProtocol::okx_interval(&KlineInterval::new("1m")), "1m");
    assert_eq!(OkxProtocol::okx_interval(&KlineInterval::new("1d")), "1D");
    assert_eq!(OkxProtocol::okx_interval(&KlineInterval::new("7x")), "7x");
    assert_eq!(OkxProtocol::okx_inst_family("BTC-USDT-SWAP"), "BTC-USDT");
    assert_eq!(OkxProtocol::channel_name(&StreamKind::Ticker).unwrap(), "tickers");
    assert_eq!(OkxProtocol::channel_name(&StreamKind::Kline { interval: KlineInterval::new("4h") }).unwrap(), "candle4H");
}

#[test]
fn okx_frames_exact() {
    let proto = OkxProtocol::new(AccountType::Spot, false);
    let text = okx_text(proto.unsubscribe_frame(&okx_spot_spec(StreamKind::Orderbook)).expect("books"));
    assert_eq!(text, r#"{"op":"unsubscribe","args":[{"channel":"books","instId":"BTC-USDT"}]}"#);
    assert_eq!(okx_text(proto.ping_frame().expect("ping")), "ping");
    assert!(matches!(
        proto.subscribe_frame(&okx_spot_spec(StreamKind::AggTrade)),
        Err(WebSocketError::UnsupportedOperation(_))
    ));
}

#[test]
fn okx_endpoints() {
    let public = OkxProtocol::new(AccountType::Spot, false);
    let business = OkxProtocol::new_business(AccountType::Spot, true);
    assert_eq!(public.endpoint(AccountType::Spot, false), "wss://ws.okx.com:8443/ws/v5/public");
    assert_eq!(business.endpoint(AccountType::Spot, true), "wss://wspap.okx.com:8443/ws/v5/business");
}

#[test]
fn okx_login_needs_passphrase() {
    let proto = OkxProtocol::new(AccountType::Spot, false);
    assert!(proto.auth_frame(&Credentials::new("k", "s")).is_none());
    let creds = Credentials { api_key: "k".to_string(), api_secret: "s".to_string(), passphrase: Some("p".to_string()) };
    let text = okx_text(proto.auth_frame(&creds).expect("login").expect("login ok"));
    let v: serde_json::Value = serde_json::from_str(&text).expect("valid JSON");
    assert_eq!(v["op"], "login");
    assert_eq!(v["args"][0]["apiKey"], "k");
    assert_eq!(v["args"][0]["passphrase"], "p");
}

#[test]
fn okx_login_signature_exact() {
    let proto = OkxProtocol::new(AccountType::Spot, false);
    let creds = Credentials {
        api_key: "key".to_string(),
        api_secret: "secret".to_string(),
        passphrase: Some("pass".to_string()),
    };
    let text = okx_text(proto.auth_frame_at(&creds, "1538054050").expect("login").expect("login ok"));
    let mut mac = <hmac::Hmac<sha2::Sha256> as hmac::KeyInit>::new_from_slice(b"secret").unwrap();
    mac.update(b"1538054050GET/users/self/verify");
    let sign = base64::Engine::encode(&base64::engine::general_purpose::STANDARD, mac.finalize().into_bytes());
    assert_eq!(
        text,
        format!(
            r#"{{"op":"login","args":[{{"apiKey":"key","passphrase":"pass","timestamp":"1538054050","sign":"{}"}}]}}"#,
            sign
        )
    );
}

#[test]
fn okx_control_frames() {
    let proto = OkxProtocol::new(AccountType::Spot, false);
    assert!(proto.is_pong(&Json::Str("pong".to_string())));
    assert!(proto.is_auth_ack(&okx_frame(r#"{"event":"login","code":"0"}"#)));
    assert!(proto.is_subscribe_ack(&okx_frame(r#"{"event":"unsubscribe"}"#)));
    assert!(!proto.is_subscribe_ack(&okx_frame(r#"{"event":"error"}"#)));
}

#[test]
fn okx_websocket_endpoints() {
    let ws = cex_ws::okx::websocket::OkxWebSocket::new(None, false, AccountType::FuturesCross).unwrap();
    assert!(!ws.protocol().is_business);
    assert_eq!(ws.account_type(), AccountType::FuturesCross);
    let ws = cex_ws::okx::websocket::OkxWebSocket::new_business(None, true, AccountType::Spot).unwrap();
    assert!(ws.protocol().is_business);
    assert_eq!(ws.account_type(), AccountType::Spot);
}
