use cex_ws::deribit::connector::{deribit_funding_params, deribit_funding_payments, FundingFilter};
use cex_ws::gateio::connector::gateio_batch_amend_request;
use cex_ws::deribit::connector::deribit_funds_history;
use cex_ws::deribit::connector::{deribit_ledger_entries, deribit_ledger_params, LedgerFilter};
use cex_ws::common::types::LedgerEntryType;
use cex_ws::common::funds::TransferFilter;
use cex_ws::gateio::connector::{gateio_transfer_query, gateio_transfer_records};
use cex_ws::kucoin::connector::{kucoin_transfer_query, kucoin_transfer_records};
use cex_ws::deribit::connector::deribit_funds_records;
use cex_ws::deribit::connector::deribit_funds_params;
use cex_ws::common::funds::{FundsFilter, FundsRecord, FundsRecordType};
use cex_ws::common::json::{to_text, Json};
use cex_ws::common::orders::SubAccountOperation;
use cex_ws::gateio::connector::{
    gateio_funds_query, gateio_funds_records, gateio_sub_account_request, gateio_sub_account_result, GateioFundsEndpoint,
    GateioSubEndpoint,
};
use cex_ws::kraken::connector::KrakenConnector;
use cex_ws::kucoin::connector::{
    kucoin_funds_query, kucoin_funds_records, kucoin_sub_account_request, kucoin_sub_account_result,
    KuCoinFundsEndpoint, KuCoinSubEndpoint,
};

fn s(v: &str) -> Json {
    Json::Str(v.to_string())
}

fn n(v: &str) -> Json {
    Json::Number(v.to_string())
}

fn obj(members: Vec<(&str, Json)>) -> Json {
    Json::Object(members.into_iter().map(|(k, v)| (k.to_string(), v)).collect())
}

fn filter(record_type: FundsRecordType) -> FundsFilter {
    FundsFilter { record_type, asset: None, start_time: None, end_time: None, limit: None }
}

#[test]
fn gateio_funds_query_in_seconds_and_capped() {
    let f = FundsFilter {
        record_type: FundsRecordType::Withdrawal,
        asset: Some("USDT".to_string()),
        start_time: Some(1_700_000_000_999),
        end_time: Some(1_700_000_100_000),
        limit: Some(5000),
    };
    let (ep, q) = gateio_funds_query(&f);
    assert_eq!(ep, GateioFundsEndpoint::WithdrawalHistory);
    assert_eq!(q, "currency=USDT&from=1700000000&to=1700000100&limit=1000");
    let (ep, q) = gateio_funds_query(&filter(FundsRecordType::Both));
    assert_eq!(ep, GateioFundsEndpoint::DepositHistory);
    assert_eq!(q, "");
}

#[test]
fn kucoin_funds_query_in_milliseconds() {
    let mut f = filter(FundsRecordType::Deposit);
    f.start_time = Some(1_700_000_000_999);
    f.limit = Some(20);
    let (ep, q) = kucoin_funds_query(&f);
    assert_eq!(ep, KuCoinFundsEndpoint::DepositHistory);
    assert_eq!(q, "?startAt=1700000000999&pageSize=20");
    f.limit = Some(900);
    assert_eq!(kucoin_funds_query(&f).1, "?startAt=1700000000999&pageSize=500");
    assert_eq!(kucoin_funds_query(&filter(FundsRecordType::Withdrawal)), (KuCoinFundsEndpoint::WithdrawalHistory, String::new()));
}

#[test]
fn gateio_funds_records_read_items() {
    let reply = Json::Array(vec![
        obj(vec![
            ("id", s("d1")),
            ("currency", s("BTC")),
            ("amount", s("0.25")),
            ("status", s("DONE")),
            ("timestamp", n("1700000000")),
            ("txid", s("")),
            ("chain", s("BTC")),
        ]),
        obj(vec![("id", s("d2"))]),
    ]);
    let records = gateio_funds_records(&reply, FundsRecordType::Both);
    assert_eq!(records.len(), 2);
    match &records[0] {
        FundsRecord::Deposit { id, asset, amount, tx_hash, network, status, timestamp } => {
            assert_eq!(id, "d1");
            assert_eq!(asset, "BTC");
            assert_eq!(amount.as_deref(), Some("0.25"));
            assert_eq!(tx_hash, &None);
            assert_eq!(network.as_deref(), Some("BTC"));
            assert_eq!(status, "DONE");
            assert_eq!(*timestamp, 1_700_000_000_000);
        },
        other => panic!("expected a deposit, got {:?}", other),
    }
    match &records[1] {
        FundsRecord::Deposit { id, asset, amount, status, timestamp, .. } => {
            assert_eq!(id, "d2");
            assert_eq!(asset, "");
            assert_eq!(amount, &None);
            assert_eq!(status, "UNKNOWN");
            assert_eq!(*timestamp, 0);
        },
        other => panic!("expected a deposit, got {:?}", other),
    }
    assert!(gateio_funds_records(&obj(vec![("label", s("ERR"))]), FundsRecordType::Deposit).is_empty());
}

#[test]
fn gateio_withdrawal_address_prefers_withdraw_address() {
    let reply = Json::Array(vec![
        obj(vec![("withdraw_address", s("addr-1")), ("address", s("addr-2")), ("memo", s("")), ("fee", s("0.1"))]),
        obj(vec![("address", s("addr-3")), ("memo", s("42"))]),
    ]);
    let records = gateio_funds_records(&reply, FundsRecordType::Withdrawal);
    match &records[0] {
        FundsRecord::Withdrawal { address, tag, fee, .. } => {
            assert_eq!(address, "addr-1");
            assert_eq!(tag, &None);
            assert_eq!(fee.as_deref(), Some("0.1"));
        },
        other => panic!("expected a withdrawal, got {:?}", other),
    }
    match &records[1] {
        FundsRecord::Withdrawal { address, tag, .. } => {
            assert_eq!(address, "addr-3");
            assert_eq!(tag.as_deref(), Some("42"));
        },
        other => panic!("expected a withdrawal, got {:?}", other),
    }
}

#[test]
fn kucoin_funds_records_read_data_items() {
    let data = obj(vec![(
        "items",
        Json::Array(vec![obj(vec![
            ("currency", s("USDT")),
            ("amount", s("10")),
            ("createdAt", n("1700000000123")),
            ("txId", s("0xabc")),
            ("address", s("T-addr")),
        ])]),
    )]);
    let records = kucoin_funds_records(&data, FundsRecordType::Withdrawal);
    assert_eq!(records.len(), 1);
    match &records[0] {
        FundsRecord::Withdrawal { asset, tx_hash, address, timestamp, status, .. } => {
            assert_eq!(asset, "USDT");
            assert_eq!(tx_hash.as_deref(), Some("0xabc"));
            assert_eq!(address, "T-addr");
            assert_eq!(*timestamp, 1_700_000_000_123);
            assert_eq!(status, "UNKNOWN");
        },
        other => panic!("expected a withdrawal, got {:?}", other),
    }
    let fractional = obj(vec![("items", Json::Array(vec![obj(vec![("createdAt", n("1.5"))])]))]);
    match &kucoin_funds_records(&fractional, FundsRecordType::Deposit)[0] {
        FundsRecord::Deposit { timestamp, .. } => assert_eq!(*timestamp, 0),
        other => panic!("expected a deposit, got {:?}", other),
    }
    assert!(kucoin_funds_records(&obj(vec![]), FundsRecordType::Deposit).is_empty());
}

#[test]
fn json_integers() {
    assert_eq!(n("-42").as_i64(), Some(-42));
    assert_eq!(n("9223372036854775807").as_i64(), Some(i64::MAX));
    assert_eq!(n("-9223372036854775808").as_i64(), Some(i64::MIN));
    assert_eq!(n("9223372036854775808").as_i64(), None);
    assert_eq!(n("1e3").as_i64(), None);
    assert_eq!(n("-").as_i64(), None);
    assert_eq!(s("5").as_i64(), None);
}

#[test]
fn kucoin_sub_account_requests() {
    let op = SubAccountOperation::Transfer {
        sub_account_id: "sub-9".to_string(),
        asset: "USDT".to_string(),
        amount: "12.5".to_string(),
        to_sub: true,
    };
    let (ep, arg, body) = kucoin_sub_account_request(&op, "1700000000000");
    assert_eq!(ep, KuCoinSubEndpoint::SubAccountTransfer);
    assert_eq!(arg, None);
    assert_eq!(
        to_text(&body.unwrap()),
        r#"{"clientOid":"cc_1700000000000","currency":"USDT","amount":"12.5","direction":"OUT","subUserId":"sub-9","accountType":"MAIN"}"#
    );
    let result = kucoin_sub_account_result(&op, &obj(vec![]), "1700000000000");
    assert_eq!(result.id.as_deref(), Some("sub-9"));
    assert_eq!(result.transaction_id.as_deref(), Some("cc_1700000000000"));

    let op = SubAccountOperation::Create { label: "bot".to_string() };
    let (ep, _, body) = kucoin_sub_account_request(&op, "1");
    assert_eq!(ep, KuCoinSubEndpoint::SubAccountCreate);
    assert_eq!(to_text(&body.unwrap()), r#"{"subName":"bot","access":"All"}"#);
    let result = kucoin_sub_account_result(&op, &obj(vec![("userId", s("u-7"))]), "1");
    assert_eq!(result.id.as_deref(), Some("u-7"));
    assert_eq!(result.name.as_deref(), Some("bot"));

    let op = SubAccountOperation::GetBalance { sub_account_id: "u-7".to_string() };
    let (ep, arg, body) = kucoin_sub_account_request(&op, "1");
    assert_eq!(ep, KuCoinSubEndpoint::SubAccountBalance);
    assert_eq!(arg.as_deref(), Some("u-7"));
    assert!(body.is_none());

    let op = SubAccountOperation::List;
    let listing = Json::Array(vec![obj(vec![("userId", s("u-1")), ("subName", s("a"))])]);
    let result = kucoin_sub_account_result(&op, &listing, "1");
    assert_eq!(result.accounts.len(), 1);
    assert_eq!(result.accounts[0].id, "u-1");
    assert_eq!(result.accounts[0].name, "a");
    assert_eq!(result.accounts[0].status, "Normal");
}

#[test]
fn kraken_full_format_twice_is_once() {
    for name in ["XBTUSD", "ETHEUR", "LTCUSD", "XXBTZUSD", "USD", "EUR", "XBT", "SOLUSD", "ETH"] {
        let once = KrakenConnector::to_full_format(name);
        assert_eq!(KrakenConnector::to_full_format(&once), once);
    }
}

#[test]
fn gateio_sub_account_requests() {
    let op = SubAccountOperation::Transfer {
        sub_account_id: "1234".to_string(),
        asset: "BTC".to_string(),
        amount: "0.01".to_string(),
        to_sub: false,
    };
    let (ep, arg, body) = gateio_sub_account_request(&op);
    assert_eq!(ep, GateioSubEndpoint::SubAccountTransfer);
    assert_eq!(arg, None);
    assert_eq!(
        to_text(&body.unwrap()),
        r#"{"currency":"BTC","sub_account":"1234","direction":"from","amount":"0.01","sub_account_type":"spot"}"#
    );
    let result = gateio_sub_account_result(&op, &Json::Null, "99");
    assert_eq!(result.transaction_id.as_deref(), Some("sub_tx_99"));
    assert_eq!(result.id.as_deref(), Some("1234"));

    let op = SubAccountOperation::Create { label: "desk".to_string() };
    let (ep, _, body) = gateio_sub_account_request(&op);
    assert_eq!(ep, GateioSubEndpoint::SubAccountCreate);
    assert_eq!(to_text(&body.unwrap()), r#"{"login_name":"desk"}"#);
    let result = gateio_sub_account_result(&op, &obj(vec![("user_id", n("777"))]), "1");
    assert_eq!(result.id.as_deref(), Some("777"));
    assert_eq!(result.name.as_deref(), Some("desk"));
    let result = gateio_sub_account_result(&op, &obj(vec![("user_id", s("777"))]), "1");
    assert_eq!(result.id.as_deref(), Some(""));

    let listing = Json::Array(vec![
        obj(vec![("user_id", n("1")), ("login_name", s("a")), ("state", n("1"))]),
        obj(vec![("user_id", n("2")), ("state", n("2"))]),
    ]);
    let result = gateio_sub_account_result(&SubAccountOperation::List, &listing, "1");
    assert_eq!(result.accounts.len(), 2);
    assert_eq!(result.accounts[0].status, "Normal");
    assert_eq!(result.accounts[1].id, "2");
    assert_eq!(result.accounts[1].name, "");
    assert_eq!(result.accounts[1].status, "Locked");
}

#[test]
fn deribit_funds_params_default_to_btc() {
    let (params, deposits, withdrawals) = deribit_funds_params(&filter(FundsRecordType::Both));
    assert_eq!(to_text(&params), r#"{"currency":"BTC","count":50,"offset":0}"#);
    assert!(deposits && withdrawals);
    let mut f = filter(FundsRecordType::Withdrawal);
    f.asset = Some("eth".to_string());
    f.limit = Some(5000);
    let (params, deposits, withdrawals) = deribit_funds_params(&f);
    assert_eq!(to_text(&params), r#"{"currency":"ETH","count":1000,"offset":0}"#);
    assert!(!deposits && withdrawals);
}

#[test]
fn deribit_funds_records_read_result_data() {
    let reply = obj(vec![(
        "result",
        obj(vec![(
            "data",
            Json::Array(vec![obj(vec![
                ("id", n("18446744073709551615")),
                ("amount", n("0.5")),
                ("transaction_id", s("tx1")),
                ("state", s("completed")),
                ("received_timestamp", n("1700000000000")),
            ])]),
        )]),
    )]);
    let records = deribit_funds_records(&reply, "BTC", true);
    assert_eq!(records.len(), 1);
    match &records[0] {
        FundsRecord::Deposit { id, asset, amount, tx_hash, network, status, timestamp } => {
            assert_eq!(id, "18446744073709551615");
            assert_eq!(asset, "BTC");
            assert_eq!(amount.as_deref(), Some("0.5"));
            assert_eq!(tx_hash.as_deref(), Some("tx1"));
            assert_eq!(network, &None);
            assert_eq!(status, "completed");
            assert_eq!(*timestamp, 1_700_000_000_000);
        },
        other => panic!("expected a deposit, got {:?}", other),
    }
    let bare = Json::Array(vec![obj(vec![("address", s("a")), ("received_timestamp", n("5"))])]);
    match &deribit_funds_records(&bare, "ETH", false)[0] {
        FundsRecord::Withdrawal { id, address, status, timestamp, fee, .. } => {
            assert_eq!(id, "");
            assert_eq!(address, "a");
            assert_eq!(status, "unknown");
            assert_eq!(*timestamp, 0);
            assert_eq!(fee, &None);
        },
        other => panic!("expected a withdrawal, got {:?}", other),
    }
    assert_eq!(n("18446744073709551616").as_u64(), None);
}

#[test]
fn transfer_histories() {
    let f = TransferFilter { start_time: Some(5_000), end_time: None, limit: Some(2000) };
    assert_eq!(gateio_transfer_query(&f), "from=5&limit=1000");
    assert_eq!(kucoin_transfer_query(&f), "?startAt=5000&pageSize=500");
    let none = TransferFilter { start_time: None, end_time: None, limit: None };
    assert_eq!(kucoin_transfer_query(&none), "");

    let reply = Json::Array(vec![obj(vec![("id", n("12")), ("currency", s("USDT")), ("amount", s("3")), ("timestamp", n("7"))])]);
    let t = gateio_transfer_records(&reply);
    assert_eq!(t.len(), 1);
    assert_eq!(t[0].transfer_id, "12");
    assert_eq!(t[0].status, "Successful");
    assert_eq!(t[0].asset, "USDT");
    assert_eq!(t[0].amount.as_deref(), Some("3"));
    assert_eq!(t[0].timestamp, Some(7000));

    let data = obj(vec![("items", Json::Array(vec![obj(vec![("orderId", s("o1")), ("createdAt", n("9"))])]))]);
    let t = kucoin_transfer_records(&data);
    assert_eq!(t[0].transfer_id, "o1");
    assert_eq!(t[0].status, "DONE");
    assert_eq!(t[0].amount, None);
    assert_eq!(t[0].timestamp, Some(9));
}

#[test]
fn deribit_ledger_params_and_entries() {
    let f = LedgerFilter {
        asset: Some("eth".to_string()),
        entry_type: Some(LedgerEntryType::Other("swap".to_string())),
        start_time: Some(1),
        end_time: None,
        limit: Some(500),
    };
    assert_eq!(to_text(&deribit_ledger_params(&f)), r#"{"currency":"ETH","query":"swap","start_timestamp":1,"count":100}"#);
    let plain = LedgerFilter { asset: None, entry_type: None, start_time: None, end_time: None, limit: None };
    assert_eq!(to_text(&deribit_ledger_params(&plain)), r#"{"currency":"BTC"}"#);

    let reply = obj(vec![(
        "result",
        obj(vec![(
            "logs",
            Json::Array(vec![
                obj(vec![
                    ("timestamp", n("1700")),
                    ("trade_id", s("T-1")),
                    ("change", n("-0.25")),
                    ("balance", n("3.5")),
                    ("type", s("delivery")),
                ]),
                obj(vec![("id", n("5"))]),
                obj(vec![("timestamp", n("9")), ("id", n("77")), ("type", s("odd")), ("note", s("hello")), ("order_id", s("O-9"))]),
            ]),
        )]),
    )]);
    let entries = deribit_ledger_entries(&reply, "BTC").unwrap();
    assert_eq!(entries.len(), 2);
    assert_eq!(entries[0].id, "T-1");
    assert_eq!(entries[0].asset, "BTC");
    assert_eq!(entries[0].amount.as_deref(), Some("-0.25"));
    assert_eq!(entries[0].balance.as_deref(), Some("3.5"));
    assert!(matches!(entries[0].entry_type, LedgerEntryType::Settlement));
    assert_eq!(entries[0].description, "delivery");
    assert_eq!(entries[0].ref_id.as_deref(), Some("T-1"));
    assert_eq!(entries[0].timestamp, 1700);
    assert_eq!(entries[1].id, "77");
    assert_eq!(entries[1].description, "hello");
    assert_eq!(entries[1].ref_id.as_deref(), Some("O-9"));
    assert!(matches!(&entries[1].entry_type, LedgerEntryType::Other(t) if t == "odd"));

    match deribit_ledger_entries(&obj(vec![]), "BTC") {
        Err(cex_ws::common::orders::ExchangeError::Parse(m)) => assert_eq!(m, "Missing result in transaction log response"),
        other => panic!("expected a parse error, got {:?}", other),
    }
    match deribit_ledger_entries(&obj(vec![("result", obj(vec![]))]), "BTC") {
        Err(cex_ws::common::orders::ExchangeError::Parse(m)) => assert_eq!(m, "Missing logs array in transaction log response"),
        other => panic!("expected a parse error, got {:?}", other),
    }
}

#[test]
fn deribit_funds_history_deposits_then_withdrawals() {
    let deposits = Json::Array(vec![obj(vec![("id", n("1"))])]);
    let withdrawals = Json::Array(vec![obj(vec![("id", n("2"))]), obj(vec![("id", n("3"))])]);
    let mut f = filter(FundsRecordType::Both);
    f.asset = Some("eth".to_string());
    let records = deribit_funds_history(&f, &deposits, &withdrawals);
    assert_eq!(records.len(), 3);
    assert!(matches!(&records[0], FundsRecord::Deposit { id, asset, .. } if id == "1" && asset == "ETH"));
    assert!(matches!(&records[1], FundsRecord::Withdrawal { id, .. } if id == "2"));
    assert!(matches!(&records[2], FundsRecord::Withdrawal { id, .. } if id == "3"));
    let only = deribit_funds_history(&filter(FundsRecordType::Withdrawal), &deposits, &withdrawals);
    assert_eq!(only.len(), 2);
}

#[test]
fn deribit_funding_queries_and_payments() {
    let f = FundingFilter { symbol: Some("eth_usdc-perpetual".to_string()), start_time: None, end_time: Some(9), limit: Some(7) };
    assert_eq!(to_text(&deribit_funding_params(&f)), r#"{"currency":"ETH","query":"funding","end_timestamp":9,"count":7}"#);
    let none = FundingFilter { symbol: None, start_time: None, end_time: None, limit: None };
    assert_eq!(to_text(&deribit_funding_params(&none)), r#"{"currency":"BTC","query":"funding"}"#);
    let reply = obj(vec![(
        "result",
        obj(vec![(
            "logs",
            Json::Array(vec![
                obj(vec![("timestamp", n("10")), ("change", n("-0.01")), ("instrument_name", s("BTC-PERPETUAL"))]),
                obj(vec![("timestamp", n("11"))]),
                obj(vec![("timestamp", n("12")), ("amount", n("0.02")), ("change", n("5")), ("currency", s("ETH"))]),
            ]),
        )]),
    )]);
    let p = deribit_funding_payments(&reply, "BTC").unwrap();
    assert_eq!(p.len(), 2);
    assert_eq!(p[0].symbol, "BTC-PERPETUAL");
    assert_eq!(p[0].payment, "-0.01");
    assert_eq!(p[0].asset, "BTC");
    assert_eq!(p[1].payment, "0.02");
    assert_eq!(p[1].asset, "ETH");
    assert_eq!(p[1].symbol, "");
    assert_eq!(p[1].timestamp, 12);
}

#[test]
fn gateio_batch_amends() {
    assert!(gateio_batch_amend_request(vec![]).unwrap().is_none());
    let one = gateio_batch_amend_request(vec![obj(vec![("order_id", s("1"))])]).unwrap().unwrap();
    assert_eq!(to_text(&one), r#"[{"order_id":"1"}]"#);
    let many: Vec<Json> = (0..21).map(|_| Json::Null).collect();
    match gateio_batch_amend_request(many) {
        Err(cex_ws::common::orders::ExchangeError::InvalidRequest(m)) => assert_eq!(m, "Batch amend size 21 exceeds Gate.io Futures limit of 20"),
        other => panic!("expected an invalid request, got {:?}", other),
    }
}
