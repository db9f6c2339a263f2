use cex_ws::common::json::Json;
use cex_ws::common::types::{
    AccountType, Credentials, KlineInterval, LedgerEntryType, Message, StreamKind, StreamSpec, Symbol,
};
use cex_ws::deribit::connector::{classify_deribit_entry_type, DeribitConnector};
use cex_ws::deribit::protocol::{
    deribit_instrument, deribit_kline_resolution, internal_kline_interval, DeribitProtocol,
};

fn deribit_json(v: &serde_json::Value) -> Json {
    match v {
        serde_json::Value::Null => Json::Null,
        serde_json::Value::Bool(b) => Json::Bool(*b),
        serde_json::Value::Number(n) => Json::Number(n.to_string()),
        serde_json::Value::String(s) => Json::Str(s.clone()),
        serde_json::Value::Array(a) => Json::Array(a.iter().map(deribit_json).collect()),
        serde_json::Value::Object(m) => {
            Json::Object(m.iter().map(|(k, x)| (k.clone(), deribit_json(x))).collect())
        }
    }
}

fn deribit_frame(text: &str) -> Json {
    deribit_json(&serde_json::from_str(text).expect("valid JSON"))
}

fn futures_spec(kind: StreamKind) -> StreamSpec {
    StreamSpec {
        kind,
        symbol: Symbol::new("BTC", "USD"),
        account_type: AccountType::FuturesCross,
        depth: None,
        speed_ms: None,
    }
}

fn frame_text(m: Message) -> String {
    match m {
        Message::Text(t) => t,
        _ => panic!("expected text frame"),
    }
}

#[test]
fn test_topic_registry_non_empty() {
    let proto = DeribitProtocol::new(AccountType::FuturesCross, false);
    let reg = proto.topic_registry(AccountType::FuturesCross);
    let keys = reg.native_pairs();
    assert!(!keys.is_empty(), "registry must have entries");
    assert!(reg.supports(&StreamKind::Trade, AccountType::FuturesCross));
    assert!(reg.supports(&StreamKind::Ticker, AccountType::FuturesCross));
    assert!(reg.supports(&StreamKind::Orderbook, AccountType::FuturesCross));
    assert!(reg.supports(&StreamKind::FundingRate, AccountType::FuturesCross));
    assert!(reg.supports(&StreamKind::MarkPrice, AccountType::FuturesCross));
    assert!(reg.supports(&StreamKind::IndexPrice, AccountType::FuturesCross));
    assert!(reg.supports(&StreamKind::VolatilityIndex, AccountType::FuturesCross));
}

#[test]
fn test_subscribe_frame_book_jsonrpc() {
    let mut proto = DeribitProtocol::new(AccountType::FuturesCross, false);
    let spec = futures_spec(StreamKind::Orderbook);
    let msg = proto.subscribe_frame(&spec).expect("must succeed");
    let text = frame_text(msg);
    let v: serde_json::Value = serde_json::from_str(&text).expect("valid JSON");
    assert_eq!(v["jsonrpc"], "2.0");
    assert_eq!(v["method"], "public/subscribe");
    let channels = v["params"]["channels"].as_array().expect("channels array");
    assert!(!channels.is_empty());
    let ch = channels[0].as_str().expect("channel string");
    assert!(ch.starts_with("book.BTC-PERPETUAL."), "channel={}", ch);
}

#[test]
fn test_extract_topic_subscription_frame() {
    let proto = DeribitProtocol::new(AccountType::FuturesCross, false);
    let frame = deribit_frame(
        r#"{"jsonrpc":"2.0","method":"subscription","params":{"channel":"book.BTC-PERPETUAL.100ms","data":{}}}"#,
    );
    let topic = proto.extract_topic(&frame).expect("must extract topic");
    assert_eq!(topic.as_str(), "book.BTC-PERPETUAL.100ms");
}

#[test]
fn test_extract_topic_subscribe_response_returns_none() {
    let proto = DeribitProtocol::new(AccountType::FuturesCross, false);
    let frame = deribit_frame(r#"{"jsonrpc":"2.0","id":1,"result":["book.BTC-PERPETUAL.100ms"]}"#);
    assert!(proto.extract_topic(&frame).is_none());
}

#[test]
fn test_extract_topic_ping_response_returns_none() {
    let proto = DeribitProtocol::new(AccountType::FuturesCross, false);
    let frame = deribit_frame(r#"{"jsonrpc":"2.0","id":5,"result":{"version":"1.2.26"}}"#);
    assert!(proto.extract_topic(&frame).is_none());
}

#[test]
fn test_jsonrpc_id_counter_monotonic() {
    let mut proto = DeribitProtocol::new(AccountType::FuturesCross, false);
    let id1 = proto.next_id();
    let id2 = proto.next_id();
    let id3 = proto.next_id();
    assert!(id1 < id2);
    assert!(id2 < id3);
}

#[test]
fn test_deribit_instrument_perpetual() {
    assert_eq!(deribit_instrument("BTC", "USD"), "BTC-PERPETUAL");
    assert_eq!(deribit_instrument("ETH", ""), "ETH-PERPETUAL");
}

#[test]
fn test_deribit_instrument_usdc_linear() {
    assert_eq!(deribit_instrument("SOL", "USDC"), "SOL_USDC-PERPETUAL");
}

#[test]
fn test_deribit_instrument_option_passthrough() {
    assert_eq!(deribit_instrument("BTC-30MAY26-50000-C", ""), "BTC-30MAY26-50000-C");
}

#[test]
fn deribit_instrument_lowercase_and_usdt() {
    assert_eq!(deribit_instrument("btc", "usd"), "BTC-PERPETUAL");
    assert_eq!(deribit_instrument("XRP", "USDT"), "XRP_USDT-PERPETUAL");
}

#[test]
fn deribit_kline_resolution_round_trip() {
    assert_eq!(deribit_kline_resolution(&KlineInterval::new("1m")), "1");
    assert_eq!(deribit_kline_resolution(&KlineInterval::new("1h")), "60");
    assert_eq!(deribit_kline_resolution(&KlineInterval::new("1d")), "1D");
    assert_eq!(internal_kline_interval("60"), "1h");
    assert_eq!(internal_kline_interval("1D"), "1d");
    assert_eq!(internal_kline_interval(deribit_kline_resolution(&KlineInterval::new("15m"))), "15m");
}

#[test]
fn deribit_ids_are_consumed_by_frames() {
    let mut proto = DeribitProtocol::new(AccountType::FuturesCross, false);
    let first = proto.next_id();
    let spec = futures_spec(StreamKind::Trade);
    let text = frame_text(proto.subscribe_frame(&spec).expect("trade subscribe"));
    let v: serde_json::Value = serde_json::from_str(&text).expect("valid JSON");
    assert_eq!(v["id"], first + 1);
    assert_eq!(proto.next_id(), first + 2);
}

#[test]
fn deribit_unsubscribe_uses_unsubscribe_method() {
    let mut proto = DeribitProtocol::new(AccountType::FuturesCross, false);
    let spec = futures_spec(StreamKind::Ticker);
    let text = frame_text(proto.unsubscribe_frame(&spec).expect("ticker unsubscribe"));
    let v: serde_json::Value = serde_json::from_str(&text).expect("valid JSON");
    assert_eq!(v["method"], "public/unsubscribe");
}

#[test]
fn deribit_auth_frame_carries_credentials() {
    let mut proto = DeribitProtocol::new(AccountType::FuturesCross, false);
    let creds = Credentials::new("key1", "secret1");
    let text = frame_text(proto.auth_frame(&creds).expect("auth frame").expect("auth ok"));
    let v: serde_json::Value = serde_json::from_str(&text).expect("valid JSON");
    assert_eq!(v["method"], "public/auth");
    assert_eq!(v["params"]["grant_type"], "client_credentials");
    assert_eq!(v["params"]["client_id"], "key1");
    assert_eq!(v["params"]["client_secret"], "secret1");
}

#[test]
fn deribit_control_frames() {
    let proto = DeribitProtocol::new(AccountType::FuturesCross, false);
    let ack = deribit_frame(r#"{"jsonrpc":"2.0","id":1,"result":["book.BTC-PERPETUAL.100ms"]}"#);
    assert!(proto.is_subscribe_ack(&ack));
    let data = deribit_frame(r#"{"jsonrpc":"2.0","method":"subscription","params":{"channel":"trades.BTC-PERPETUAL.raw","data":[]}}"#);
    assert!(!proto.is_subscribe_ack(&data));
    assert_eq!(proto.name(), "deribit");
}

#[test]
fn deribit_connector_ids_count_up_from_one() {
    let mut c = DeribitConnector::new(true);
    assert!(c.is_testnet());
    assert_eq!(c.next_id(), 1);
    assert_eq!(c.next_id(), 2);
    assert_eq!(c.next_id(), 3);
}

#[test]
fn deribit_currency_is_upper_base() {
    assert_eq!(DeribitConnector::_currency_from_symbol(&Symbol::new("btc", "usd")), "BTC");
    assert_eq!(DeribitConnector::_currency_from_symbol(&Symbol::new("Eth", "USDC")), "ETH");
}

#[test]
fn deribit_ledger_types() {
    assert!(matches!(classify_deribit_entry_type("trade"), LedgerEntryType::Trade));
    assert!(matches!(classify_deribit_entry_type("deposit"), LedgerEntryType::Deposit));
    assert!(matches!(classify_deribit_entry_type("withdrawal"), LedgerEntryType::Withdrawal));
    assert!(matches!(classify_deribit_entry_type("funding"), LedgerEntryType::Funding));
    assert!(matches!(classify_deribit_entry_type("fee"), LedgerEntryType::Fee));
    assert!(matches!(classify_deribit_entry_type("rebate"), LedgerEntryType::Rebate));
    assert!(matches!(classify_deribit_entry_type("transfer"), LedgerEntryType::Transfer));
    assert!(matches!(classify_deribit_entry_type("liquidation"), LedgerEntryType::Liquidation));
    assert!(matches!(classify_deribit_entry_type("settlement"), LedgerEntryType::Settlement));
    assert!(matches!(classify_deribit_entry_type("delivery"), LedgerEntryType::Settlement));
    match classify_deribit_entry_type("options_settlement_summary") {
        LedgerEntryType::Other(s) => assert_eq!(s, "options_settlement_summary"),
        other => panic!("unexpected {:?}", other),
    }
    assert!(matches!(classify_deribit_entry_type("Trade"), LedgerEntryType::Other(_)));
}

#[test]
fn deribit_index_channel_uses_lower_base() {
    let mut proto = DeribitProtocol::new(AccountType::FuturesCross, false);
    let text = frame_text(proto.subscribe_frame(&futures_spec(StreamKind::IndexPrice)).expect("index"));
    let v: serde_json::Value = serde_json::from_str(&text).expect("valid JSON");
    assert_eq!(v["params"]["channels"][0], "deribit_price_index.btc_usd");
}

#[test]
fn deribit_balance_channels_split_and_trimmed() {
    let mut proto = DeribitProtocol::new(AccountType::FuturesCross, false);
    let text = frame_text(proto.subscribe_frame(&futures_spec(StreamKind::BalanceUpdate)).expect("balances"));
    let v: serde_json::Value = serde_json::from_str(&text).expect("valid JSON");
    assert_eq!(v["method"], "private/subscribe");
    let channels = v["params"]["channels"].as_array().expect("channels");
    assert_eq!(channels.len(), 5);
    assert_eq!(channels[0], "user.portfolio.BTC");
    assert_eq!(channels[4], "user.portfolio.SOL");

    let odd = StreamSpec {
        kind: StreamKind::Ticker,
        symbol: Symbol::new("btc,  eth", ""),
        account_type: AccountType::FuturesCross,
        depth: None,
        speed_ms: None,
    };
    let text = frame_text(proto.subscribe_frame(&odd).expect("ticker"));
    let v: serde_json::Value = serde_json::from_str(&text).expect("valid JSON");
    let channels = v["params"]["channels"].as_array().expect("channels");
    assert_eq!(channels.len(), 2);
    assert_eq!(channels[0], "ticker.BTC");
    assert_eq!(channels[1], "ETH-PERPETUAL.100ms");
}

#[test]
fn deribit_instrument_keeps_dashed_names_verbatim() {
    assert_eq!(deribit_instrument("btc-30may26-50000-c", "usd"), "btc-30may26-50000-c");
}

#[test]
fn deribit_websocket_holds_its_account() {
    let ws = cex_ws::deribit::websocket::DeribitWebSocket::new(None, true, AccountType::Options).unwrap();
    assert_eq!(ws.account_type(), AccountType::Options);
}
