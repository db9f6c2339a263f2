use cex_ws::common::encoding::hmac_base64;
use cex_ws::common::json::{to_text, Json};
use cex_ws::common::params::{put_sorted, sorted_merge, text_lt};
use cex_ws::common::registry::{topic_matches, TopicRegistry};
use cex_ws::common::types::{AccountType, KlineInterval, StreamKind, Symbol, TopicKey};

fn pair(a: &str, b: &str) -> (String, String) {
    (a.to_string(), b.to_string())
}

#[test]
fn glob_matching() {
    assert!(topic_matches("trades.*", "trades.BTC-PERPETUAL.raw"));
    assert!(topic_matches("book.*.*", "book.BTC-PERPETUAL.100ms"));
    assert!(topic_matches("spot.trades", "spot.trades"));
    assert!(!topic_matches("spot.trades", "spot.tickers"));
    assert!(topic_matches("*", ""));
    assert!(!topic_matches("a*b", "ac"));
}

#[test]
fn registry_builder() {
    let reg = TopicRegistry::builder()
        .register(StreamKind::Trade, AccountType::Spot, "spot.trades")
        .register(StreamKind::Kline { interval: KlineInterval::new("1m") }, AccountType::Spot, "candle.*")
        .build();
    assert_eq!(reg.len(), 2);
    assert!(reg.supports(&StreamKind::Trade, AccountType::Spot));
    assert!(!reg.supports(&StreamKind::Trade, AccountType::FuturesCross));
    assert!(reg.supports(&StreamKind::Kline { interval: KlineInterval::new("1m") }, AccountType::Spot));
    assert!(!reg.supports(&StreamKind::Kline { interval: KlineInterval::new("5m") }, AccountType::Spot));
    assert!(reg.routes_topic("candle.BTC"));
    assert!(!reg.routes_topic("spot.tickers"));
    assert_eq!(reg.native_pairs().len(), 2);
}

#[test]
fn json_text_escapes() {
    let members = vec![
        ("a".to_string(), Json::Str("x\"y\\z\n".to_string())),
        ("b".to_string(), Json::Array(vec![Json::Null, Json::Bool(true), Json::Number("12".to_string())])),
        ("c".to_string(), Json::Str("\u{1}".to_string())),
    ];
    assert_eq!(to_text(&Json::Object(members)), r#"{"a":"x\"y\\z\n","b":[null,true,12],"c":"\u0001"}"#);
}

#[test]
fn json_lookup() {
    let j = Json::Object(vec![("k".to_string(), Json::Str("v".to_string())), ("k".to_string(), Json::Null)]);
    assert_eq!(j.get_str("k"), Some("v"));
    assert!(j.get("missing").is_none());
    assert!(Json::Str("s".to_string()).is_string());
}

#[test]
fn symbols_and_kinds() {
    let s = Symbol::new("BTC", "USDT");
    assert_eq!(s.base(), "BTC");
    assert_eq!(s.quote(), "USDT");
    let r = Symbol::raw("btcusdt");
    assert_eq!(r.as_str(), "btcusdt");
    assert_eq!(r.quote(), "");
    assert_eq!(StreamKind::Kline { interval: KlineInterval::new("1m") }.label(), "Kline");
    assert!(StreamKind::OrderUpdate.is_private());
    assert!(!StreamKind::Trade.is_private());
    assert_eq!(TopicKey::new("x").as_str(), "x");
}

#[test]
fn text_order() {
    assert!(text_lt("AccessKeyId", "symbol"));
    assert!(text_lt("Signature", "SignatureMethod"));
    assert!(!text_lt("b", "a"));
    assert!(!text_lt("same", "same"));
}

#[test]
fn sorted_parameters() {
    let params = vec![pair("z", "1"), pair("a", "2"), pair("m", "3")];
    let extra = vec![pair("a", "9"), pair("B", "0")];
    let merged = sorted_merge(&params, &extra);
    assert_eq!(merged, vec![pair("B", "0"), pair("a", "9"), pair("m", "3"), pair("z", "1")]);
    let mut list = merged;
    put_sorted(&mut list, "n", "4");
    put_sorted(&mut list, "z", "5");
    assert_eq!(list, vec![pair("B", "0"), pair("a", "9"), pair("m", "3"), pair("n", "4"), pair("z", "5")]);
}

#[test]
fn hmac_base64_reference_vector() {
    assert_eq!(hmac_base64("Jefe", "what do ya want for nothing?"), "W9zBRr9gdU5qBCQmCJV1x1oAPwidJzmDnexYuWTsOEM=");
}

#[test]
fn base64_matches_the_standard_engine() {
    let data: Vec<u8> = (0u8..=255).collect();
    for n in 0..40 {
        let chunk = &data[n * 3 % 200..n * 3 % 200 + n % 9];
        assert_eq!(
            cex_ws::common::encoding::base64_encode(chunk),
            base64::Engine::encode(&base64::engine::general_purpose::STANDARD, chunk)
        );
    }
    assert_eq!(cex_ws::common::encoding::base64_encode(b"Man"), "TWFu");
    assert_eq!(cex_ws::common::encoding::base64_encode(b"Ma"), "TWE=");
    assert_eq!(cex_ws::common::encoding::base64_encode(b"M"), "TQ==");
}
