use cex_ws::common::orders::UserTradeFilter;
use cex_ws::kraken::connector::KrakenTradePaging;
use cex_ws::common::orders::{AmendInput, AmendQuantity};
use cex_ws::gateio::connector::{gateio_amend_request, GateioAmendEndpoint};
use cex_ws::kucoin::connector::kucoin_amend_request;
use cex_ws::kraken::connector::{kraken_amend_request, KrakenAmendEndpoint};
use cex_ws::deribit::connector::deribit_amend_params;
use cex_ws::common::orders::{OrderStatus, PlacedOrder};
use cex_ws::kraken::connector::{kraken_cancel_summary, kraken_placed_order};
use cex_ws::kucoin::connector::{kucoin_cancel_summary, kucoin_placed_order};
use cex_ws::kraken::connector::{kraken_batch_request, kraken_position_request, KrakenPositionEndpoint};
use cex_ws::gateio::connector::{gateio_batch_request, GateioBatchEndpoint};
use cex_ws::kucoin::connector::{kucoin_batch_request, KuCoinBatchEndpoint};
use cex_ws::gateio::connector::{gateio_cancel_request, GateioCancelEndpoint, GateioCancelPlan};
use cex_ws::kucoin::connector::{kucoin_cancel_request, KuCoinCancelEndpoint, KuCoinCancelPlan};
use cex_ws::common::json::{to_text, Json};
use cex_ws::common::orders::{
    CancelInput, CancelScope, ExchangeError, MarginType, OrderInput, OrderKind, OrderSide, PositionChange,
    PositionInput, TimeInForce,
};
use cex_ws::common::types::AccountType;
use cex_ws::deribit::connector::{deribit_order_params, DeribitOrderMethod};
use cex_ws::gateio::connector::{gateio_order_request, gateio_position_request, GateioEndpoint, GateioPositionEndpoint};
use cex_ws::kraken::connector::{kraken_cancel_request, kraken_order_params, KrakenCancelEndpoint, KrakenEndpoint};
use cex_ws::kucoin::connector::{kucoin_order_request, kucoin_position_request, KuCoinEndpoint, KuCoinPositionEndpoint};

fn order(symbol: &str, side: OrderSide, kind: OrderKind, account_type: AccountType) -> OrderInput {
    OrderInput {
        symbol: symbol.to_string(),
        side,
        kind,
        amount: "0.5".to_string(),
        contracts: 3,
        time_in_force: TimeInForce::Gtc,
        client_order_id: None,
        account_type,
        reduce_only: false,
    }
}

fn position(account_type: AccountType, change: PositionChange) -> PositionInput {
    PositionInput { symbol: "BTC_USDT".to_string(), account_type, change }
}

fn unsupported_message(e: ExchangeError) -> String {
    match e {
        ExchangeError::UnsupportedOperation(m) => m,
        other => panic!("unexpected error: {:?}", other),
    }
}

fn invalid_message(e: ExchangeError) -> String {
    match e {
        ExchangeError::InvalidRequest(m) => m,
        other => panic!("unexpected error: {:?}", other),
    }
}

fn pairs(v: &[(String, String)]) -> Vec<(&str, &str)> {
    v.iter().map(|(k, x)| (k.as_str(), x.as_str())).collect()
}

fn body(j: &Json) -> String {
    to_text(j)
}

#[test]
fn gateio_spot_limit_order() {
    let mut req = order("BTC_USDT", OrderSide::Buy, OrderKind::Limit { price: "50000".to_string() }, AccountType::Spot);
    req.time_in_force = TimeInForce::Ioc;
    let (ep, j) = gateio_order_request(&req, "t-123").unwrap();
    assert_eq!(ep, GateioEndpoint::SpotCreateOrder);
    assert_eq!(
        body(&j),
        r#"{"currency_pair":"BTC_USDT","side":"buy","amount":"0.5","price":"50000","type":"limit","time_in_force":"ioc","text":"t-123"}"#
    );
}

#[test]
fn gateio_futures_sell_has_negative_size() {
    let mut req = order("BTC_USDT", OrderSide::Sell, OrderKind::Market, AccountType::FuturesCross);
    req.client_order_id = Some("t-mine".to_string());
    let (ep, j) = gateio_order_request(&req, "t-123").unwrap();
    assert_eq!(ep, GateioEndpoint::FuturesCreateOrder);
    assert_eq!(body(&j), r#"{"contract":"BTC_USDT","size":-3,"price":"0","tif":"ioc","text":"t-mine"}"#);
}

#[test]
fn gateio_spot_stop_market_is_a_price_order() {
    let req = order("ETH_USDT", OrderSide::Sell, OrderKind::StopMarket { stop_price: "1800".to_string() }, AccountType::Spot);
    let (ep, j) = gateio_order_request(&req, "t-1").unwrap();
    assert_eq!(ep, GateioEndpoint::SpotPriceOrders);
    assert_eq!(
        body(&j),
        r#"{"trigger":{"price":"1800","rule":"<=","expiration":86400},"put":{"type":"market","side":"sell","amount":"0.5","account":"spot"},"market":"ETH_USDT","text":"t-1"}"#
    );
}

#[test]
fn gateio_refusals() {
    let req = order("BTC_USDT", OrderSide::Buy, OrderKind::ReduceOnly { price: None }, AccountType::Spot);
    let e = gateio_order_request(&req, "t").unwrap_err();
    assert_eq!(unsupported_message(e), "ReduceOnly not supported for Spot on Gate.io");
    let req = order("BTC_USDT", OrderSide::Buy, OrderKind::Unsupported { name: "Twap".to_string() }, AccountType::Spot);
    let e = gateio_order_request(&req, "t").unwrap_err();
    assert_eq!(unsupported_message(e), "Twap order type not supported on Gateio");
}

#[test]
fn gateio_remove_margin_flips_the_sign() {
    let req = position(AccountType::FuturesCross, PositionChange::RemoveMargin { amount: "12.5".to_string() });
    let (ep, j) = gateio_position_request(&req, "1700000000000").unwrap();
    assert_eq!(ep, GateioPositionEndpoint::Margin);
    assert_eq!(body(&j), r#"{"change":"-12.5"}"#);
    let req = position(AccountType::FuturesCross, PositionChange::RemoveMargin { amount: "-2".to_string() });
    let (_, j) = gateio_position_request(&req, "1").unwrap();
    assert_eq!(body(&j), r#"{"change":"2"}"#);
}

#[test]
fn gateio_close_and_spot_refusal() {
    let req = position(AccountType::FuturesIsolated, PositionChange::ClosePosition);
    let (ep, j) = gateio_position_request(&req, "1700000000000").unwrap();
    assert_eq!(ep, GateioPositionEndpoint::CreateOrder);
    assert_eq!(
        body(&j),
        r#"{"contract":"BTC_USDT","size":0,"price":"0","tif":"ioc","close":true,"text":"cc_1700000000000"}"#
    );
    let req = position(AccountType::Spot, PositionChange::SetLeverage { leverage: 5 });
    let e = gateio_position_request(&req, "1").unwrap_err();
    assert_eq!(unsupported_message(e), "Leverage not supported for Spot/Margin");
    let req = position(AccountType::FuturesCross, PositionChange::SetMarginMode { margin_type: MarginType::Isolated });
    let (ep, j) = gateio_position_request(&req, "1").unwrap();
    assert_eq!(ep, GateioPositionEndpoint::Leverage);
    assert_eq!(body(&j), r#"{"leverage":"10"}"#);
}

#[test]
fn kraken_spot_limit_params_are_sorted() {
    let req = order("XBTUSD", OrderSide::Buy, OrderKind::Limit { price: "30000".to_string() }, AccountType::Spot);
    let (ep, v) = kraken_order_params(&req).unwrap();
    assert_eq!(ep, KrakenEndpoint::SpotAddOrder);
    assert_eq!(
        pairs(&v),
        vec![("ordertype", "limit"), ("pair", "XBTUSD"), ("price", "30000"), ("type", "buy"), ("volume", "0.5")]
    );
}

#[test]
fn kraken_futures_names_and_client_id() {
    let mut req = order("PF_XBTUSD", OrderSide::Sell, OrderKind::StopMarket { stop_price: "29000".to_string() }, AccountType::FuturesCross);
    req.client_order_id = Some("my-1".to_string());
    let (ep, v) = kraken_order_params(&req).unwrap();
    assert_eq!(ep, KrakenEndpoint::FuturesSendOrder);
    assert_eq!(
        pairs(&v),
        vec![
            ("cl_ord_id", "my-1"),
            ("limitPrice", "29000"),
            ("orderType", "stp"),
            ("side", "sell"),
            ("size", "0.5"),
            ("symbol", "PF_XBTUSD"),
        ]
    );
    let req = order("XBTUSD", OrderSide::Buy, OrderKind::Gtd { price: "1".to_string(), expire_time: 1_700_000_000_999 }, AccountType::Spot);
    let (_, v) = kraken_order_params(&req).unwrap();
    assert!(pairs(&v).contains(&("expiretm", "1700000000")));
    assert!(pairs(&v).contains(&("timeinforce", "GTD")));
}

#[test]
fn kraken_order_refusals() {
    let req = order("XBTUSD", OrderSide::Buy, OrderKind::ReduceOnly { price: None }, AccountType::Margin);
    let e = kraken_order_params(&req).unwrap_err();
    assert_eq!(unsupported_message(e), "ReduceOnly not supported for spot on Kraken");
}

#[test]
fn kraken_cancel_requests() {
    let req = CancelInput {
        symbol: Some("XBTUSD".to_string()),
        account_type: AccountType::Spot,
        scope: CancelScope::Single { order_id: "OABC-1".to_string() },
    };
    let (ep, v) = kraken_cancel_request(&req).unwrap();
    assert_eq!(ep, KrakenCancelEndpoint::SpotCancelOrder);
    assert_eq!(pairs(&v), vec![("txid", "OABC-1")]);

    let req = CancelInput { symbol: None, account_type: AccountType::Spot, scope: CancelScope::Single { order_id: "O".to_string() } };
    assert_eq!(invalid_message(kraken_cancel_request(&req).unwrap_err()), "Symbol required for cancel");

    let req = CancelInput {
        symbol: None,
        account_type: AccountType::FuturesCross,
        scope: CancelScope::BySymbol { symbol: "PF_XBTUSD".to_string() },
    };
    let (ep, v) = kraken_cancel_request(&req).unwrap();
    assert_eq!(ep, KrakenCancelEndpoint::FuturesCancelOrder);
    assert_eq!(pairs(&v), vec![("symbol", "PF_XBTUSD")]);

    let req = CancelInput {
        symbol: Some("XBTUSD".to_string()),
        account_type: AccountType::Spot,
        scope: CancelScope::Batch { order_ids: vec!["a".to_string()] },
    };
    assert_eq!(
        unsupported_message(kraken_cancel_request(&req).unwrap_err()),
        "Kraken Spot does not support batch cancel. Cancel orders individually."
    );
    let req = CancelInput { symbol: None, account_type: AccountType::Spot, scope: CancelScope::Batch { order_ids: vec![] } };
    assert_eq!(invalid_message(kraken_cancel_request(&req).unwrap_err()), "Symbol required for batch cancel");
}

#[test]
fn kucoin_limit_post_only_flag() {
    let mut req = order("BTC-USDT", OrderSide::Buy, OrderKind::Limit { price: "100".to_string() }, AccountType::Spot);
    req.time_in_force = TimeInForce::PostOnly;
    let (ep, j) = kucoin_order_request(&req, "oid-1").unwrap();
    assert_eq!(ep, KuCoinEndpoint::SpotCreateOrder);
    assert_eq!(
        body(&j),
        r#"{"clientOid":"oid-1","symbol":"BTC-USDT","side":"buy","type":"limit","size":"0.5","price":"100","timeInForce":"limit","postOnly":true}"#
    );
}

#[test]
fn kucoin_oco_is_spot_only() {
    let kind = OrderKind::Oco { price: "110".to_string(), stop_price: "90".to_string(), stop_limit_price: None };
    let req = order("BTC-USDT", OrderSide::Sell, kind, AccountType::Spot);
    let (ep, j) = kucoin_order_request(&req, "oid-2").unwrap();
    assert_eq!(ep, KuCoinEndpoint::SpotOcoOrder);
    assert_eq!(
        body(&j),
        r#"{"clientOid":"oid-2","symbol":"BTC-USDT","side":"sell","price":"110","size":"0.5","stopPrice":"90","limitPrice":"90","tradeType":"TRADE"}"#
    );
    let kind = OrderKind::Oco { price: "110".to_string(), stop_price: "90".to_string(), stop_limit_price: None };
    let req = order("XBTUSDTM", OrderSide::Sell, kind, AccountType::FuturesCross);
    assert_eq!(unsupported_message(kucoin_order_request(&req, "x").unwrap_err()), "OCO orders are only supported for Spot on KuCoin");
    let req = order("BTC-USDT", OrderSide::Sell, OrderKind::Unsupported { name: "Scaled".to_string() }, AccountType::Spot);
    assert_eq!(unsupported_message(kucoin_order_request(&req, "x").unwrap_err()), "Order type not supported on KuCoin");
}

#[test]
fn kucoin_tp_sl_makes_two_orders() {
    let req = PositionInput {
        symbol: "XBTUSDTM".to_string(),
        account_type: AccountType::FuturesCross,
        change: PositionChange::SetTpSl { take_profit: Some("70000".to_string()), stop_loss: Some("60000".to_string()) },
    };
    let v = kucoin_position_request(&req, "42").unwrap();
    assert_eq!(v.len(), 2);
    assert_eq!(v[0].0, KuCoinPositionEndpoint::FuturesCreateOrder);
    assert_eq!(
        body(&v[0].1),
        r#"{"clientOid":"tp_42","symbol":"XBTUSDTM","side":"sell","type":"market","size":0,"closeOrder":true,"stop":"up","stopPrice":"70000","stopPriceType":"TP"}"#
    );
    assert_eq!(
        body(&v[1].1),
        r#"{"clientOid":"sl_42","symbol":"XBTUSDTM","side":"sell","type":"market","size":0,"closeOrder":true,"stop":"down","stopPrice":"60000","stopPriceType":"TP"}"#
    );
    let req = PositionInput {
        symbol: "XBTUSDTM".to_string(),
        account_type: AccountType::FuturesCross,
        change: PositionChange::RemoveMargin { amount: "1".to_string() },
    };
    assert_eq!(
        unsupported_message(kucoin_position_request(&req, "42").unwrap_err()),
        "KuCoin does not support RemoveMargin on futures positions"
    );
}

#[test]
fn deribit_bracket_legs() {
    let kind = OrderKind::Bracket { price: Some("50000".to_string()), take_profit: "55000".to_string(), stop_loss: "48000".to_string() };
    let req = order("BTC-PERPETUAL", OrderSide::Buy, kind, AccountType::FuturesCross);
    let (m, j) = deribit_order_params(&req).unwrap();
    assert_eq!(m, DeribitOrderMethod::Buy);
    assert_eq!(
        body(&j),
        r#"{"instrument_name":"BTC-PERPETUAL","amount":0.5,"type":"limit","linked_order_type":"one_triggers_one_cancels_other","otoco_config":[{"order_type":"limit","limit_price":55000,"amount":0.5,"reduce_only":true},{"order_type":"stop_market","trigger_price":48000,"amount":0.5,"reduce_only":true}],"price":50000}"#
    );
}

#[test]
fn deribit_ioc_without_price_and_refusal() {
    let req = order("ETH-PERPETUAL", OrderSide::Sell, OrderKind::Ioc { price: None }, AccountType::FuturesCross);
    let (m, j) = deribit_order_params(&req).unwrap();
    assert_eq!(m, DeribitOrderMethod::Sell);
    assert_eq!(
        body(&j),
        r#"{"instrument_name":"ETH-PERPETUAL","amount":0.5,"type":"limit","price":null,"time_in_force":"immediate_or_cancel"}"#
    );
    let kind = OrderKind::Oco { price: "1".to_string(), stop_price: "2".to_string(), stop_limit_price: None };
    let req = order("ETH-PERPETUAL", OrderSide::Sell, kind, AccountType::FuturesCross);
    assert_eq!(unsupported_message(deribit_order_params(&req).unwrap_err()), "Oco order type not supported on Deribit");
}

#[test]
fn gateio_cancel_plans() {
    let req = CancelInput {
        symbol: Some("BTC_USDT".to_string()),
        account_type: AccountType::FuturesCross,
        scope: CancelScope::Single { order_id: "42".to_string() },
    };
    match gateio_cancel_request(&req).unwrap() {
        GateioCancelPlan::One { endpoint, order_id, market } => {
            assert_eq!(endpoint, GateioCancelEndpoint::FuturesCancelOrder);
            assert_eq!(order_id, "42");
            assert_eq!(market, ("contract".to_string(), "BTC_USDT".to_string()));
        },
        other => panic!("expected one order, got {:?}", other),
    }
    let req = CancelInput { symbol: None, account_type: AccountType::Spot, scope: CancelScope::BySymbol { symbol: "ETH_USDT".to_string() } };
    match gateio_cancel_request(&req).unwrap() {
        GateioCancelPlan::All { symbol } => assert_eq!(symbol.as_deref(), Some("ETH_USDT")),
        other => panic!("expected all orders, got {:?}", other),
    }
    let req = CancelInput { symbol: None, account_type: AccountType::Spot, scope: CancelScope::Single { order_id: "1".to_string() } };
    assert_eq!(invalid_message(gateio_cancel_request(&req).unwrap_err()), "Symbol required for cancel");
    let req = CancelInput { symbol: None, account_type: AccountType::Spot, scope: CancelScope::Other };
    assert_eq!(unsupported_message(gateio_cancel_request(&req).unwrap_err()), "Gate.io does not support this cancel scope");
}

#[test]
fn kucoin_cancel_plans() {
    let req = CancelInput {
        symbol: Some("BTC-USDT".to_string()),
        account_type: AccountType::Margin,
        scope: CancelScope::Single { order_id: "abc".to_string() },
    };
    match kucoin_cancel_request(&req).unwrap() {
        KuCoinCancelPlan::One { endpoint, order_id } => {
            assert_eq!(endpoint, KuCoinCancelEndpoint::SpotCancelOrder);
            assert_eq!(order_id, "abc");
        },
        other => panic!("expected one order, got {:?}", other),
    }
    let req = CancelInput { symbol: None, account_type: AccountType::FuturesCross, scope: CancelScope::All { symbol: None } };
    match kucoin_cancel_request(&req).unwrap() {
        KuCoinCancelPlan::All { symbol } => assert_eq!(symbol, None),
        other => panic!("expected all orders, got {:?}", other),
    }
    let req = CancelInput { symbol: Some("X".to_string()), account_type: AccountType::Spot, scope: CancelScope::Batch { order_ids: vec![] } };
    assert_eq!(
        unsupported_message(kucoin_cancel_request(&req).unwrap_err()),
        "KuCoin does not support batch cancel. Cancel orders individually."
    );
}

#[test]
fn gateio_batches() {
    assert!(gateio_batch_request(&vec![]).unwrap().is_none());
    let mut a = order("BTC_USDT", OrderSide::Buy, OrderKind::Limit { price: "100".to_string() }, AccountType::Spot);
    a.client_order_id = Some("x".to_string());
    let b = order("BTC_USDT", OrderSide::Sell, OrderKind::Market, AccountType::Spot);
    let (ep, j) = gateio_batch_request(&vec![a, b]).unwrap().unwrap();
    assert_eq!(ep, GateioBatchEndpoint::SpotBatchOrders);
    assert_eq!(
        body(&j),
        r#"[{"currency_pair":"BTC_USDT","type":"limit","side":"buy","amount":"0.5","price":"100","text":"t-x"},{"currency_pair":"BTC_USDT","type":"market","side":"sell","amount":"0.5"}]"#
    );
    let mut c = order("BTC_USDT", OrderSide::Sell, OrderKind::Market, AccountType::FuturesCross);
    c.reduce_only = true;
    let (ep, j) = gateio_batch_request(&vec![c]).unwrap().unwrap();
    assert_eq!(ep, GateioBatchEndpoint::FuturesBatchOrders);
    assert_eq!(body(&j), r#"[{"contract":"BTC_USDT","size":3,"tif":"ioc","price":"0","close":true}]"#);
    let many: Vec<OrderInput> = (0..11).map(|_| order("BTC_USDT", OrderSide::Buy, OrderKind::Market, AccountType::Spot)).collect();
    assert_eq!(invalid_message(gateio_batch_request(&many).unwrap_err()), "Batch size 11 exceeds Gate.io Spot limit of 10");
}

#[test]
fn kucoin_batches() {
    let mut a = order("BTC-USDT", OrderSide::Buy, OrderKind::Limit { price: "100".to_string() }, AccountType::Spot);
    a.time_in_force = TimeInForce::Fok;
    let (ep, j) = kucoin_batch_request(&vec![a], "77").unwrap().unwrap();
    assert_eq!(ep, KuCoinBatchEndpoint::SpotBatchOrders);
    assert_eq!(
        body(&j),
        r#"[{"clientOid":"cc_77","symbol":"BTC-USDT","side":"buy","type":"limit","timeInForce":"FOK","size":"0.5","price":"100"}]"#
    );
    let mut f = order("XBTUSDTM", OrderSide::Sell, OrderKind::StopMarket { stop_price: "1".to_string() }, AccountType::FuturesIsolated);
    f.reduce_only = true;
    f.client_order_id = Some("mine".to_string());
    let (ep, j) = kucoin_batch_request(&vec![f], "77").unwrap().unwrap();
    assert_eq!(ep, KuCoinBatchEndpoint::FuturesBatchOrders);
    assert_eq!(
        body(&j),
        r#"[{"clientOid":"mine","symbol":"XBTUSDTM","side":"sell","size":"0.5","type":"market","reduceOnly":true}]"#
    );
    let many: Vec<OrderInput> = (0..6).map(|_| order("X", OrderSide::Buy, OrderKind::Market, AccountType::Spot)).collect();
    assert_eq!(invalid_message(kucoin_batch_request(&many, "1").unwrap_err()), "Batch size 6 exceeds KuCoin limit of 5");
    let opt = order("X", OrderSide::Buy, OrderKind::Market, AccountType::Options);
    assert_eq!(
        unsupported_message(kucoin_batch_request(&vec![opt], "1").unwrap_err()),
        "This account type is not supported for batch orders on KuCoin"
    );
}

#[test]
fn kraken_position_changes() {
    let req = PositionInput { symbol: "PF_XBTUSD".to_string(), account_type: AccountType::FuturesCross, change: PositionChange::SetLeverage { leverage: 20 } };
    let (ep, v) = kraken_position_request(&req).unwrap();
    assert_eq!(ep, KrakenPositionEndpoint::FuturesSetLeverage);
    assert_eq!(pairs(&v), vec![("symbol", "PF_XBTUSD"), ("maxLeverage", "20")]);
    let req = PositionInput { symbol: "PF_XBTUSD".to_string(), account_type: AccountType::FuturesCross, change: PositionChange::ClosePosition };
    let (ep, v) = kraken_position_request(&req).unwrap();
    assert_eq!(ep, KrakenPositionEndpoint::FuturesSendOrder);
    assert_eq!(pairs(&v), vec![("symbol", "PF_XBTUSD"), ("orderType", "mkt"), ("reduceOnly", "true"), ("side", "buy"), ("size", "0")]);
    let req = PositionInput { symbol: "XBTUSD".to_string(), account_type: AccountType::Spot, change: PositionChange::ClosePosition };
    assert_eq!(unsupported_message(kraken_position_request(&req).unwrap_err()), "ClosePosition only supported for futures on Kraken");
    let req = PositionInput { symbol: "PF_XBTUSD".to_string(), account_type: AccountType::FuturesCross, change: PositionChange::MovePositions };
    assert_eq!(unsupported_message(kraken_position_request(&req).unwrap_err()), "This position modification is not supported on Kraken");
}

#[test]
fn kraken_batches() {
    let mut a = order("PF_XBTUSD", OrderSide::Buy, OrderKind::Limit { price: "30000".to_string() }, AccountType::FuturesCross);
    a.client_order_id = Some("c1".to_string());
    a.reduce_only = true;
    let b = order("PF_XBTUSD", OrderSide::Sell, OrderKind::Market, AccountType::FuturesCross);
    let j = kraken_batch_request(&vec![a, b]).unwrap().unwrap();
    assert_eq!(
        body(&j),
        r#"[{"order":"send","symbol":"PF_XBTUSD","side":"buy","size":3,"orderType":"lmt","limitPrice":"30000","reduceOnly":true,"cl_ord_id":"c1"},{"order":"send","symbol":"PF_XBTUSD","side":"sell","size":3,"orderType":"mkt"}]"#
    );
    let s = order("XBTUSD", OrderSide::Buy, OrderKind::Market, AccountType::Spot);
    assert_eq!(unsupported_message(kraken_batch_request(&vec![s]).unwrap_err()), "Batch orders not supported on Kraken Spot (futures only)");
    let many: Vec<OrderInput> = (0..11).map(|_| order("PF_XBTUSD", OrderSide::Buy, OrderKind::Market, AccountType::FuturesCross)).collect();
    assert_eq!(invalid_message(kraken_batch_request(&many).unwrap_err()), "Batch size 11 exceeds Kraken Futures limit of 10");
    assert!(kraken_batch_request(&vec![]).unwrap().is_none());
}

#[test]
fn gateio_futures_stop_rule_follows_side() {
    let req = order("BTC_USDT", OrderSide::Sell, OrderKind::StopMarket { stop_price: "29000".to_string() }, AccountType::FuturesCross);
    let (ep, j) = gateio_order_request(&req, "t-1").unwrap();
    assert_eq!(ep, GateioEndpoint::FuturesPriceOrders);
    assert_eq!(
        body(&j),
        r#"{"trigger":{"strategy_type":0,"price_type":0,"price":"29000","rule":2,"expiration":86400},"initial":{"contract":"BTC_USDT","size":-3,"price":"0","tif":"ioc","text":"t-1"}}"#
    );
    let kind = OrderKind::StopLimit { stop_price: "31000".to_string(), limit_price: "31100".to_string() };
    let req = order("BTC_USDT", OrderSide::Buy, kind, AccountType::FuturesIsolated);
    let (_, j) = gateio_order_request(&req, "t-2").unwrap();
    assert_eq!(
        body(&j),
        r#"{"trigger":{"strategy_type":0,"price_type":0,"price":"31000","rule":1,"expiration":86400},"initial":{"contract":"BTC_USDT","size":3,"price":"31100","tif":"gtc","text":"t-2"}}"#
    );
}

#[test]
fn kucoin_futures_batches_hold_twenty() {
    let twenty: Vec<OrderInput> = (0..20).map(|_| order("XBTUSDTM", OrderSide::Buy, OrderKind::Market, AccountType::FuturesCross)).collect();
    let (ep, _) = kucoin_batch_request(&twenty, "1").unwrap().unwrap();
    assert_eq!(ep, KuCoinBatchEndpoint::FuturesBatchOrders);
    let many: Vec<OrderInput> = (0..21).map(|_| order("XBTUSDTM", OrderSide::Buy, OrderKind::Market, AccountType::FuturesIsolated)).collect();
    assert_eq!(invalid_message(kucoin_batch_request(&many, "1").unwrap_err()), "Batch size 21 exceeds KuCoin limit of 20");
}

#[test]
fn kraken_reports_a_placed_fok() {
    let req = order("XBTUSD", OrderSide::Buy, OrderKind::Fok { price: "30000".to_string() }, AccountType::Spot);
    let o: PlacedOrder = kraken_placed_order(req, "OABC".to_string());
    assert_eq!(o.id, "OABC");
    assert_eq!(o.client_order_id, None);
    assert!(matches!(&o.kind, OrderKind::Fok { price } if price == "30000"));
    assert_eq!(o.status, OrderStatus::New);
    assert_eq!(o.price.as_deref(), Some("30000"));
    assert_eq!(o.stop_price, None);
    assert_eq!(o.time_in_force, TimeInForce::Fok);
    assert_eq!(o.amount, "0.5");
}

#[test]
fn kucoin_reports_a_placed_stop() {
    let kind = OrderKind::StopLimit { stop_price: "90".to_string(), limit_price: "89".to_string() };
    let req = order("BTC-USDT", OrderSide::Sell, kind, AccountType::Spot);
    let o = kucoin_placed_order(req, "k-1".to_string(), "cc_5");
    assert_eq!(o.client_order_id.as_deref(), Some("cc_5"));
    assert_eq!(o.price.as_deref(), Some("89"));
    assert_eq!(o.stop_price.as_deref(), Some("90"));
    assert_eq!(o.time_in_force, TimeInForce::Gtc);
    assert_eq!(o.side, OrderSide::Sell);
}

#[test]
fn cancel_reports() {
    let req = CancelInput {
        symbol: Some("XBTUSD".to_string()),
        account_type: AccountType::Spot,
        scope: CancelScope::Single { order_id: "O-1".to_string() },
    };
    let o = kraken_cancel_summary(&req, "123").unwrap();
    assert_eq!(o.id, "O-1");
    assert_eq!(o.symbol, "XBTUSD");
    assert_eq!(o.status, OrderStatus::Canceled);
    assert!(matches!(&o.kind, OrderKind::Limit { price } if price == "0"));
    let req = CancelInput { symbol: None, account_type: AccountType::Spot, scope: CancelScope::All { symbol: None } };
    let o = kucoin_cancel_summary(&req, "123", 4).unwrap();
    assert_eq!(o.id, "batch_cancel_123");
    assert_eq!(o.symbol, "");
    assert_eq!(o.amount, "4");
    assert!(matches!(o.kind, OrderKind::Market));
    let req = CancelInput { symbol: None, account_type: AccountType::Spot, scope: CancelScope::Other };
    assert!(kraken_cancel_summary(&req, "1").is_none());
}

fn amend(account_type: AccountType, price: Option<&str>, qty: Option<(&str, i64)>) -> AmendInput {
    AmendInput {
        order_id: "o-1".to_string(),
        symbol: "SYM".to_string(),
        account_type,
        price: price.map(|p| p.to_string()),
        quantity: qty.map(|(a, c)| AmendQuantity { amount: a.to_string(), contracts: c }),
        trigger_price: None,
    }
}

#[test]
fn amend_requests() {
    let (ep, j) = gateio_amend_request(&amend(AccountType::Spot, Some("10"), Some(("0.5", 5)))).unwrap();
    assert_eq!(ep, GateioAmendEndpoint::SpotOrder);
    assert_eq!(body(&j), r#"{"currency_pair":"SYM","price":"10","amount":"0.5"}"#);
    let (ep, j) = gateio_amend_request(&amend(AccountType::FuturesCross, None, Some(("0.5", 5)))).unwrap();
    assert_eq!(ep, GateioAmendEndpoint::FuturesOrder);
    assert_eq!(body(&j), r#"{"size":5}"#);
    assert_eq!(
        invalid_message(gateio_amend_request(&amend(AccountType::Spot, None, None)).unwrap_err()),
        "At least one of price or quantity must be provided for amend"
    );

    assert_eq!(
        unsupported_message(kucoin_amend_request(&amend(AccountType::Margin, Some("1"), None)).unwrap_err()),
        "Amend order is not supported for Spot/Margin on KuCoin (futures only)"
    );
    let j = kucoin_amend_request(&amend(AccountType::FuturesIsolated, Some("101"), Some(("2", 2)))).unwrap();
    assert_eq!(body(&j), r#"{"price":"101","size":2}"#);

    let (ep, v) = kraken_amend_request(&amend(AccountType::Spot, Some("30000"), None)).unwrap();
    assert_eq!(ep, KrakenAmendEndpoint::SpotEditOrder);
    assert_eq!(pairs(&v), vec![("txid", "o-1"), ("pair", "SYM"), ("price", "30000")]);
    let (ep, v) = kraken_amend_request(&amend(AccountType::FuturesCross, None, Some(("3", 3)))).unwrap();
    assert_eq!(ep, KrakenAmendEndpoint::FuturesEditOrder);
    assert_eq!(pairs(&v), vec![("orderId", "o-1"), ("symbol", "SYM"), ("size", "3")]);

    let mut a = amend(AccountType::Options, Some("0.05"), Some(("1", 1)));
    a.trigger_price = Some("0.04".to_string());
    assert_eq!(
        body(&deribit_amend_params(&a)),
        r#"{"order_id":"o-1","amount":1,"price":0.05,"trigger_price":0.04}"#
    );
}

fn trade(order_id: &str, pair: &str) -> (String, String) {
    (order_id.to_string(), pair.to_string())
}

#[test]
fn kraken_trade_paging() {
    let f = UserTradeFilter { symbol: Some("xbt".to_string()), order_id: None, start_time: Some(5_000), end_time: None, limit: Some(3) };
    assert!(KrakenTradePaging::start(&f, AccountType::FuturesCross).is_err());
    let mut p = KrakenTradePaging::start(&f, AccountType::Spot).unwrap();
    assert_eq!(pairs(&p.page_params(&f)), vec![("start", "5")]);
    let mut page: Vec<(String, String)> = (0..50).map(|i| trade(&format!("o{}", i), "ETHUSD")).collect();
    page[3] = trade("a", "XXBTZUSD");
    page[7] = trade("b", "xbtusd");
    let (kept, done) = p.take_page(&page, &f);
    assert_eq!(kept, vec![3, 7]);
    assert!(!done);
    assert_eq!(pairs(&p.page_params(&f)), vec![("start", "5"), ("ofs", "50")]);
    let page2 = vec![trade("c", "XBTEUR"), trade("d", "XBTGBP")];
    let (kept, done) = p.take_page(&page2, &f);
    assert_eq!(kept, vec![0]);
    assert!(done);

    let g = UserTradeFilter { symbol: None, order_id: Some("x".to_string()), start_time: None, end_time: None, limit: None };
    let mut q = KrakenTradePaging::start(&g, AccountType::Margin).unwrap();
    let (kept, done) = q.take_page(&vec![trade("y", "A"), trade("x", "B")], &g);
    assert_eq!(kept, vec![1]);
    assert!(done);
}
