//! The parts of the Deribit REST connector that decide rather than send:
//! JSON-RPC request ids, the currency a symbol trades in, order parameters,
//! the funds-history and transaction-log queries, and the records and ledger
//! entries read back from their replies.

use vstd::prelude::*;
use crate::common::json::{Json, JsonV, items_view, members_view, push_item, push_member};
use crate::common::orders::{ExchangeError, OrderInput, OrderKind, OrderSide};
use crate::common::text::{concat, str_eq, str_upper, to_upper};
use crate::common::text::chars_of;
use crate::common::types::{LedgerEntryType, LedgerEntryV, Symbol, ledger_view, symbol_base};
use crate::common::orders::AmendInput;
use crate::common::funds::{
    FundsFilter, FundsRecord, FundsRecordType, FundsRecordV, nonempty_member, read_nonempty, read_str_or, record_view,
    records_view, str_or,
};
use crate::common::json::{json_i64, json_u64, member, number_text, str_member, str_value, view_opt};
use crate::common::text::signed_decimal_text;
use crate::common::text::{decimal_text, u64_text};

verus! {

/// Deribit REST connector state: the network and the next JSON-RPC request id.
pub struct DeribitConnector {
    testnet: bool,
    request_id: u64,
}

impl DeribitConnector {
    pub closed spec fn counter(&self) -> u64 {
        self.request_id
    }

    pub closed spec fn on_testnet(&self) -> bool {
        self.testnet
    }

    /// A connector for mainnet or testnet; request ids start at 1.
    pub fn new(testnet: bool) -> (r: Self)
        ensures
            r.counter() == 1,
            r.on_testnet() == testnet,
    {
        DeribitConnector { testnet, request_id: 1 }
    }

    /// Whether the connector talks to testnet.
    pub fn is_testnet(&self) -> (r: bool)
        ensures
            r == self.on_testnet(),
    {
        self.testnet
    }

    /// Fetch-and-increment of the request id.
    pub fn next_id(&mut self) -> (id: u64)
        requires
            old(self).counter() < u64::MAX,
        ensures
            id == old(self).counter(),
            final(self).counter() == old(self).counter() + 1,
            final(self).on_testnet() == old(self).on_testnet(),
    {
        let id = self.request_id;
        self.request_id = id + 1;
        id
    }

    /// The currency a symbol is settled in on Deribit: its base asset, upper-cased.
    pub fn _currency_from_symbol(symbol: &Symbol) -> (r: String)
        ensures
            r@ == str_upper(symbol_base(*symbol)),
    {
        to_upper(symbol.base())
    }
}

/// How Deribit's ledger `type` field is read.
pub open spec fn entry_type_of(t: Seq<char>) -> LedgerEntryV {
    if t == "trade"@ {
        LedgerEntryV::Trade
    } else if t == "deposit"@ {
        LedgerEntryV::Deposit
    } else if t == "withdrawal"@ {
        LedgerEntryV::Withdrawal
    } else if t == "funding"@ {
        LedgerEntryV::Funding
    } else if t == "fee"@ {
        LedgerEntryV::Fee
    } else if t == "rebate"@ {
        LedgerEntryV::Rebate
    } else if t == "transfer"@ {
        LedgerEntryV::Transfer
    } else if t == "liquidation"@ {
        LedgerEntryV::Liquidation
    } else if t == "settlement"@ || t == "delivery"@ {
        LedgerEntryV::Settlement
    } else {
        LedgerEntryV::Other(t)
    }
}

/// The ledger entry type named by Deribit's `type` text; unknown text is kept as `Other`.
pub fn classify_deribit_entry_type(type_str: &str) -> (r: LedgerEntryType)
    ensures
        ledger_view(r) == entry_type_of(type_str@),
{
    if str_eq(type_str, "trade") {
        LedgerEntryType::Trade
    } else if str_eq(type_str, "deposit") {
        LedgerEntryType::Deposit
    } else if str_eq(type_str, "withdrawal") {
        LedgerEntryType::Withdrawal
    } else if str_eq(type_str, "funding") {
        LedgerEntryType::Funding
    } else if str_eq(type_str, "fee") {
        LedgerEntryType::Fee
    } else if str_eq(type_str, "rebate") {
        LedgerEntryType::Rebate
    } else if str_eq(type_str, "transfer") {
        LedgerEntryType::Transfer
    } else if str_eq(type_str, "liquidation") {
        LedgerEntryType::Liquidation
    } else if str_eq(type_str, "settlement") || str_eq(type_str, "delivery") {
        LedgerEntryType::Settlement
    } else {
        LedgerEntryType::Other(type_str.to_owned())
    }
}

/// The JSON-RPC method an order is placed with.
#[derive(Debug, Clone, Copy, PartialEq, Eq, Structural)]
pub enum DeribitOrderMethod {
    /// `private/buy`
    Buy,
    /// `private/sell`
    Sell,
}

pub open spec fn t_v(t: Seq<char>) -> JsonV {
    JsonV::Str(t)
}

/// A number written by its text (amounts and prices arrive as JSON number literals).
pub open spec fn n_v(t: Seq<char>) -> JsonV {
    JsonV::Number(t)
}

/// Instrument, amount and order type: the opening of most Deribit orders.
pub open spec fn d_head(req: OrderInput, ty: Seq<char>) -> Seq<(Seq<char>, JsonV)> {
    seq![("instrument_name"@, t_v(req.symbol@)), ("amount"@, n_v(req.amount@)), ("type"@, t_v(ty))]
}

/// The take-profit and stop-loss legs of a bracket order.
pub open spec fn otoco_v(req: OrderInput, tp: Seq<char>, sl: Seq<char>) -> JsonV {
    JsonV::Array(
        seq![
            JsonV::Object(
                seq![
                    ("order_type"@, t_v("limit"@)),
                    ("limit_price"@, n_v(tp)),
                    ("amount"@, n_v(req.amount@)),
                    ("reduce_only"@, JsonV::Bool(true)),
                ],
            ),
            JsonV::Object(
                seq![
                    ("order_type"@, t_v("stop_market"@)),
                    ("trigger_price"@, n_v(sl)),
                    ("amount"@, n_v(req.amount@)),
                    ("reduce_only"@, JsonV::Bool(true)),
                ],
            ),
        ],
    )
}

/// The `params` members of a Deribit order, or the error message.
pub open spec fn deribit_order_members(req: OrderInput) -> Result<Seq<(Seq<char>, JsonV)>, Seq<char>> {
    match req.kind {
        OrderKind::Market => Ok(d_head(req, "market"@)),
        OrderKind::Limit { price } => Ok(d_head(req, "limit"@).push(("price"@, n_v(price@)))),
        OrderKind::StopMarket { stop_price } => Ok(
            d_head(req, "stop_market"@).push(("trigger"@, t_v("last_price"@))).push(("trigger_price"@, n_v(stop_price@))),
        ),
        OrderKind::StopLimit { stop_price, limit_price } => Ok(
            d_head(req, "stop_limit"@).push(("trigger"@, t_v("last_price"@))).push(("trigger_price"@, n_v(stop_price@))).push(
                ("price"@, n_v(limit_price@)),
            ),
        ),
        OrderKind::TrailingStop { callback_rate, activation_price } => {
            let base = d_head(req, "trailing_stop"@).push(("trailing_amount"@, n_v(callback_rate@)));
            Ok(
                match activation_price {
                    Some(a) => base.push(("trigger_price"@, n_v(a@))),
                    None => base,
                },
            )
        },
        OrderKind::PostOnly { price } => Ok(
            d_head(req, "limit"@).push(("price"@, n_v(price@))).push(("post_only"@, JsonV::Bool(true))),
        ),
        OrderKind::Ioc { price } => Ok(
            d_head(req, "limit"@).push(
                (
                    "price"@,
                    match price {
                        Some(p) => n_v(p@),
                        None => JsonV::Null,
                    },
                ),
            ).push(("time_in_force"@, t_v("immediate_or_cancel"@))),
        ),
        OrderKind::Fok { price } => Ok(
            d_head(req, "limit"@).push(("price"@, n_v(price@))).push(("time_in_force"@, t_v("fill_or_kill"@))),
        ),
        OrderKind::Gtd { price, .. } => Ok(
            d_head(req, "limit"@).push(("price"@, n_v(price@))).push(("time_in_force"@, t_v("good_til_day"@))),
        ),
        OrderKind::ReduceOnly { price } => {
            let base = seq![
                ("instrument_name"@, t_v(req.symbol@)),
                ("amount"@, n_v(req.amount@)),
                ("reduce_only"@, JsonV::Bool(true)),
            ];
            Ok(
                match price {
                    Some(p) => base.push(("type"@, t_v("limit"@))).push(("price"@, n_v(p@))),
                    None => base.push(("type"@, t_v("market"@))),
                },
            )
        },
        OrderKind::Iceberg { price, display_amount, .. } => Ok(
            d_head(req, "limit"@).push(("price"@, n_v(price@))).push(("display_amount"@, n_v(display_amount@))).push(
                ("refresh_amount"@, n_v(display_amount@)),
            ),
        ),
        OrderKind::Bracket { price, take_profit, stop_loss } => {
            let base = d_head(req, if price is Some { "limit"@ } else { "market"@ }).push(
                ("linked_order_type"@, t_v("one_triggers_one_cancels_other"@)),
            ).push(("otoco_config"@, otoco_v(req, take_profit@, stop_loss@)));
            Ok(
                match price {
                    Some(p) => base.push(("price"@, n_v(p@))),
                    None => base,
                },
            )
        },
        OrderKind::Oco { .. } => Err("Oco order type not supported on Deribit"@),
        OrderKind::Unsupported { name } => Err(name@ + " order type not supported on Deribit"@),
    }
}

/// Method and `params` of a Deribit order, or the error message.
pub open spec fn deribit_order_spec(req: OrderInput) -> Result<(DeribitOrderMethod, JsonV), Seq<char>> {
    match deribit_order_members(req) {
        Ok(ms) => Ok(
            (
                if req.side == OrderSide::Buy {
                    DeribitOrderMethod::Buy
                } else {
                    DeribitOrderMethod::Sell
                },
                JsonV::Object(ms),
            ),
        ),
        Err(m) => Err(m),
    }
}

fn d_head_exec(req: &OrderInput, ty: &str) -> (r: Vec<(String, Json)>)
    ensures
        members_view(r@) == d_head(*req, ty@),
{
    let mut m: Vec<(String, Json)> = Vec::new();
    push_member(&mut m, "instrument_name", Json::string(req.symbol.as_str()));
    push_member(&mut m, "amount", Json::Number(req.amount.as_str().to_owned()));
    push_member(&mut m, "type", Json::string(ty));
    assert(members_view(m@) =~= d_head(*req, ty@));
    m
}

fn number(t: &str) -> (r: Json)
    ensures
        r@ == n_v(t@),
{
    Json::Number(t.to_owned())
}

fn leg(kind: &str, price_key: &str, price: &str, amount: &str) -> (r: Json)
    ensures
        r@ == JsonV::Object(
            seq![
                ("order_type"@, t_v(kind@)),
                (price_key@, n_v(price@)),
                ("amount"@, n_v(amount@)),
                ("reduce_only"@, JsonV::Bool(true)),
            ],
        ),
{
    let mut m: Vec<(String, Json)> = Vec::new();
    push_member(&mut m, "order_type", Json::string(kind));
    push_member(&mut m, price_key, number(price));
    push_member(&mut m, "amount", number(amount));
    push_member(&mut m, "reduce_only", Json::Bool(true));
    assert(members_view(m@) =~= seq![
        ("order_type"@, t_v(kind@)),
        (price_key@, n_v(price@)),
        ("amount"@, n_v(amount@)),
        ("reduce_only"@, JsonV::Bool(true)),
    ]);
    Json::Object(m)
}

fn order_members(req: &OrderInput) -> (r: Result<Vec<(String, Json)>, ExchangeError>)
    ensures
        match r {
            Ok(m) => deribit_order_members(*req) == Ok::<Seq<(Seq<char>, JsonV)>, Seq<char>>(members_view(m@)),
            Err(ExchangeError::UnsupportedOperation(t)) => deribit_order_members(*req) == Err::<
                Seq<(Seq<char>, JsonV)>,
                Seq<char>,
            >(t@),
            Err(_) => false,
        },
{
    match &req.kind {
        OrderKind::Market => Ok(d_head_exec(req, "market")),
        OrderKind::Limit { price } => {
            let mut m = d_head_exec(req, "limit");
            push_member(&mut m, "price", number(price.as_str()));
            Ok(m)
        },
        OrderKind::StopMarket { stop_price } => {
            let mut m = d_head_exec(req, "stop_market");
            push_member(&mut m, "trigger", Json::string("last_price"));
            push_member(&mut m, "trigger_price", number(stop_price.as_str()));
            Ok(m)
        },
        OrderKind::StopLimit { stop_price, limit_price } => {
            let mut m = d_head_exec(req, "stop_limit");
            push_member(&mut m, "trigger", Json::string("last_price"));
            push_member(&mut m, "trigger_price", number(stop_price.as_str()));
            push_member(&mut m, "price", number(limit_price.as_str()));
            Ok(m)
        },
        OrderKind::TrailingStop { callback_rate, activation_price } => {
            let mut m = d_head_exec(req, "trailing_stop");
            push_member(&mut m, "trailing_amount", number(callback_rate.as_str()));
            if let Some(a) = activation_price {
                push_member(&mut m, "trigger_price", number(a.as_str()));
            }
            Ok(m)
        },
        OrderKind::PostOnly { price } => {
            let mut m = d_head_exec(req, "limit");
            push_member(&mut m, "price", number(price.as_str()));
            push_member(&mut m, "post_only", Json::Bool(true));
            Ok(m)
        },
        OrderKind::Ioc { price } => {
            let mut m = d_head_exec(req, "limit");
            let p = match price {
                Some(x) => number(x.as_str()),
                None => Json::Null,
            };
            push_member(&mut m, "price", p);
            push_member(&mut m, "time_in_force", Json::string("immediate_or_cancel"));
            Ok(m)
        },
        OrderKind::Fok { price } => {
            let mut m = d_head_exec(req, "limit");
            push_member(&mut m, "price", number(price.as_str()));
            push_member(&mut m, "time_in_force", Json::string("fill_or_kill"));
            Ok(m)
        },
        OrderKind::Gtd { price, .. } => {
            let mut m = d_head_exec(req, "limit");
            push_member(&mut m, "price", number(price.as_str()));
            push_member(&mut m, "time_in_force", Json::string("good_til_day"));
            Ok(m)
        },
        OrderKind::ReduceOnly { price } => {
            let mut m: Vec<(String, Json)> = Vec::new();
            push_member(&mut m, "instrument_name", Json::string(req.symbol.as_str()));
            push_member(&mut m, "amount", number(req.amount.as_str()));
            push_member(&mut m, "reduce_only", Json::Bool(true));
            assert(members_view(m@) =~= seq![
                ("instrument_name"@, t_v(req.symbol@)),
                ("amount"@, n_v(req.amount@)),
                ("reduce_only"@, JsonV::Bool(true)),
            ]);
            match price {
                Some(p) => {
                    push_member(&mut m, "type", Json::string("limit"));
                    push_member(&mut m, "price", number(p.as_str()));
                },
                None => {
                    push_member(&mut m, "type", Json::string("market"));
                },
            }
            Ok(m)
        },
        OrderKind::Iceberg { price, display_amount, .. } => {
            let mut m = d_head_exec(req, "limit");
            push_member(&mut m, "price", number(price.as_str()));
            push_member(&mut m, "display_amount", number(display_amount.as_str()));
            push_member(&mut m, "refresh_amount", number(display_amount.as_str()));
            Ok(m)
        },
        OrderKind::Bracket { price, take_profit, stop_loss } => {
            let mut m = d_head_exec(req, if price.is_some() { "limit" } else { "market" });
            push_member(&mut m, "linked_order_type", Json::string("one_triggers_one_cancels_other"));
            let tp = leg("limit", "limit_price", take_profit.as_str(), req.amount.as_str());
            let sl = leg("stop_market", "trigger_price", stop_loss.as_str(), req.amount.as_str());
            let ghost (tpv, slv) = (tp@, sl@);
            let mut legs: Vec<Json> = Vec::new();
            push_item(&mut legs, tp);
            push_item(&mut legs, sl);
            assert(items_view(legs@) =~= seq![tpv, slv]);
            proof {
                reveal_strlit("limit_price");
                reveal_strlit("trigger_price");
            }
            push_member(&mut m, "otoco_config", Json::Array(legs));
            if let Some(p) = price {
                push_member(&mut m, "price", number(p.as_str()));
            }
            Ok(m)
        },
        OrderKind::Oco { .. } => Err(
            ExchangeError::UnsupportedOperation("Oco order type not supported on Deribit".to_owned()),
        ),
        OrderKind::Unsupported { name } => Err(
            ExchangeError::UnsupportedOperation(concat(name.as_str(), " order type not supported on Deribit")),
        ),
    }
}

/// The JSON-RPC method (`private/buy` or `private/sell`, by side) and the
/// `params` object of a Deribit order. Amounts and prices are written as the
/// number literals given; bracket orders carry their take-profit and
/// stop-loss legs under `otoco_config`. OCO orders and order types Deribit
/// has no request for are refused by name.
pub fn deribit_order_params(req: &OrderInput) -> (r: Result<(DeribitOrderMethod, Json), ExchangeError>)
    ensures
        match r {
            Ok((m, j)) => deribit_order_spec(*req) == Ok::<(DeribitOrderMethod, JsonV), Seq<char>>((m, j@)),
            Err(ExchangeError::UnsupportedOperation(t)) => deribit_order_spec(*req) == Err::<
                (DeribitOrderMethod, JsonV),
                Seq<char>,
            >(t@),
            Err(_) => false,
        },
{
    let members = match order_members(req) {
        Ok(m) => m,
        Err(e) => return Err(e),
    };
    let method = match req.side {
        OrderSide::Buy => DeribitOrderMethod::Buy,
        OrderSide::Sell => DeribitOrderMethod::Sell,
    };
    Ok((method, Json::Object(members)))
}

/// The currency a Deribit funds history asks for: the asset upper-cased, or
/// `BTC` when none is given.
pub open spec fn deribit_funds_currency(f: FundsFilter) -> Seq<char> {
    match f.asset {
        Some(a) => str_upper(a@),
        None => "BTC"@,
    }
}

/// How many records are asked for: the limit (50 when absent), at most 1000.
pub open spec fn deribit_funds_count(f: FundsFilter) -> nat {
    match f.limit {
        Some(l) => if l <= 1000 { l as nat } else { 1000 },
        None => 50,
    }
}

/// The `params` of Deribit's deposit and withdrawal queries, and which of the
/// two are made (both for `Both`).
pub open spec fn deribit_funds_spec(f: FundsFilter) -> (JsonV, bool, bool) {
    (
        JsonV::Object(
            seq![
                ("currency"@, t_v(deribit_funds_currency(f))),
                ("count"@, n_v(decimal_text(deribit_funds_count(f)))),
                ("offset"@, n_v(seq!['0'])),
            ],
        ),
        !(f.record_type is Withdrawal),
        !(f.record_type is Deposit),
    )
}

/// The `params` of a Deribit funds history query and whether deposits and
/// withdrawals are fetched.
pub fn deribit_funds_params(filter: &FundsFilter) -> (r: (Json, bool, bool))
    ensures
        (r.0@, r.1, r.2) == deribit_funds_spec(*filter),
{
    let currency = match &filter.asset {
        Some(a) => to_upper(a.as_str()),
        None => "BTC".to_owned(),
    };
    let count: u32 = match filter.limit {
        Some(l) => if l <= 1000 {
            l
        } else {
            1000
        },
        None => 50,
    };
    let mut m: Vec<(String, Json)> = Vec::new();
    push_member(&mut m, "currency", Json::string(currency.as_str()));
    push_member(&mut m, "count", Json::Number(u64_text(count as u64)));
    push_member(&mut m, "offset", Json::Number(u64_text(0)));
    proof {
        assert(decimal_text(0) =~= seq!['0']);
        assert(members_view(m@) =~= seq![
            ("currency"@, t_v(deribit_funds_currency(*filter))),
            ("count"@, n_v(decimal_text(deribit_funds_count(*filter)))),
            ("offset"@, n_v(seq!['0'])),
        ]);
    }
    let deposits = match filter.record_type {
        FundsRecordType::Withdrawal => false,
        _ => true,
    };
    let withdrawals = match filter.record_type {
        FundsRecordType::Deposit => false,
        _ => true,
    };
    (Json::Object(m), deposits, withdrawals)
}

/// The items of a Deribit funds reply: `result` (or the reply itself) read
/// as `data` when that is an array, else as an array; none otherwise.
pub open spec fn deribit_items(response: JsonV) -> Seq<JsonV> {
    let result = match member(response, "result"@) {
        Some(r) => r,
        None => response,
    };
    match member(result, "data"@) {
        Some(JsonV::Array(items)) => items,
        _ => match result {
            JsonV::Array(items) => items,
            _ => Seq::empty(),
        },
    }
}

/// A Deribit record's id: the `u64` at `id` in decimal, empty when absent.
pub open spec fn deribit_id(item: JsonV) -> Seq<char> {
    match member(item, "id"@) {
        Some(m) => match json_u64(m) {
            Some(n) => decimal_text(n as nat),
            None => Seq::empty(),
        },
        None => Seq::empty(),
    }
}

/// The `i64` number at `k`, 0 when absent; when `fallback` is given and `k`
/// is missing, the number at `fallback`.
pub open spec fn deribit_time(item: JsonV, k: Seq<char>, fallback: Option<Seq<char>>) -> int {
    let found = match member(item, k) {
        Some(m) => Some(m),
        None => match fallback {
            Some(f) => member(item, f),
            None => None,
        },
    };
    match found {
        Some(m) => match json_i64(m) {
            Some(n) => n,
            None => 0,
        },
        None => 0,
    }
}

pub open spec fn member_number_text(item: JsonV, k: Seq<char>) -> Option<Seq<char>> {
    match member(item, k) {
        Some(m) => number_text(m),
        None => None,
    }
}

/// A Deribit deposit or withdrawal record in `currency`: amounts and fees as
/// their number text, the state (`unknown` when absent) as status; a deposit's
/// time is `updated_timestamp`, else `received_timestamp`.
pub open spec fn deribit_record(item: JsonV, currency: Seq<char>, deposit: bool) -> FundsRecordV {
    if deposit {
        FundsRecordV::Deposit {
            id: deribit_id(item),
            asset: currency,
            amount: member_number_text(item, "amount"@),
            tx_hash: nonempty_member(item, "transaction_id"@),
            network: None,
            status: str_or(item, "state"@, "unknown"@),
            timestamp: deribit_time(item, "updated_timestamp"@, Some("received_timestamp"@)),
        }
    } else {
        FundsRecordV::Withdrawal {
            id: deribit_id(item),
            asset: currency,
            amount: member_number_text(item, "amount"@),
            fee: member_number_text(item, "fee"@),
            address: str_or(item, "address"@, Seq::empty()),
            tag: None,
            tx_hash: nonempty_member(item, "transaction_id"@),
            network: None,
            status: str_or(item, "state"@, "unknown"@),
            timestamp: deribit_time(item, "updated_timestamp"@, None),
        }
    }
}

/// The records of a Deribit deposits (or withdrawals) reply, in `currency`.
pub open spec fn deribit_funds_records_spec(response: JsonV, currency: Seq<char>, deposit: bool) -> Seq<FundsRecordV> {
    deribit_items(response).map_values(|item: JsonV| deribit_record(item, currency, deposit))
}

fn read_number_text(item: &Json, k: &str) -> (r: Option<String>)
    ensures
        crate::common::funds::opt_text_of(r) == member_number_text(item@, k@),
{
    match item.get(k) {
        Some(m) => m.number_literal(),
        None => None,
    }
}

fn read_deribit_id(item: &Json) -> (r: String)
    ensures
        r@ == deribit_id(item@),
{
    proof {
        reveal_strlit("");
    }
    match item.get("id") {
        Some(m) => match m.as_u64() {
            Some(n) => u64_text(n),
            None => "".to_owned(),
        },
        None => "".to_owned(),
    }
}

fn read_deribit_time(item: &Json, deposit: bool) -> (r: i64)
    ensures
        r as int == deribit_time(
            item@,
            "updated_timestamp"@,
            if deposit { Some("received_timestamp"@) } else { None },
        ),
{
    let found = match item.get("updated_timestamp") {
        Some(m) => Some(m),
        None => if deposit {
            item.get("received_timestamp")
        } else {
            None
        },
    };
    match found {
        Some(m) => match m.as_i64() {
            Some(n) => n,
            None => 0,
        },
        None => 0,
    }
}

fn deribit_record_of(item: &Json, currency: &str, deposit: bool) -> (r: FundsRecord)
    ensures
        record_view(r) == deribit_record(item@, currency@, deposit),
{
    proof {
        reveal_strlit("");
    }
    let id = read_deribit_id(item);
    let amount = read_number_text(item, "amount");
    let tx_hash = read_nonempty(item, "transaction_id");
    let status = read_str_or(item, "state", "unknown");
    let timestamp = read_deribit_time(item, deposit);
    if deposit {
        let r = FundsRecord::Deposit {
            id,
            asset: currency.to_owned(),
            amount,
            tx_hash,
            network: None,
            status,
            timestamp,
        };
        assert(record_view(r) == deribit_record(item@, currency@, deposit));
        r
    } else {
        let fee = read_number_text(item, "fee");
        let address = read_str_or(item, "address", "");
        let r = FundsRecord::Withdrawal {
            id,
            asset: currency.to_owned(),
            amount,
            fee,
            address,
            tag: None,
            tx_hash,
            network: None,
            status,
            timestamp,
        };
        assert(timestamp as int == deribit_time(item@, "updated_timestamp"@, None));
        assert(address@ == str_or(item@, "address"@, Seq::empty()));
        assert(record_view(r) == FundsRecordV::Withdrawal {
            id: deribit_id(item@),
            asset: currency@,
            amount: member_number_text(item@, "amount"@),
            fee: member_number_text(item@, "fee"@),
            address: str_or(item@, "address"@, Seq::empty()),
            tag: None,
            tx_hash: nonempty_member(item@, "transaction_id"@),
            network: None,
            status: str_or(item@, "state"@, "unknown"@),
            timestamp: deribit_time(item@, "updated_timestamp"@, None),
        });
        assert(record_view(r) == deribit_record(item@, currency@, deposit));
        r
    }
}

/// The deposit (or withdrawal) records of a Deribit funds reply, one per
/// item, in order, in `currency`.
pub fn deribit_funds_records(response: &Json, currency: &str, deposit: bool) -> (r: Vec<FundsRecord>)
    ensures
        records_view(r@) == deribit_funds_records_spec(response@, currency@, deposit),
{
    let result = match response.get("result") {
        Some(x) => x,
        None => response,
    };
    let arr = match result.get("data") {
        Some(d) => match d.as_array() {
            Some(a) => Some(a),
            None => result.as_array(),
        },
        None => result.as_array(),
    };
    let mut out: Vec<FundsRecord> = Vec::new();
    if let Some(items) = arr {
        let ghost spec_items = deribit_items(response@);
        proof {
            crate::common::json::lemma_items_view(items@);
        }
        let mut i: usize = 0;
        while i < items.len()
            invariant
                0 <= i <= items.len(),
                spec_items == items_view(items@),
                spec_items.len() == items.len(),
                forall|k: int| 0 <= k < items.len() ==> #[trigger] spec_items[k] == items@[k]@,
                records_view(out@) == spec_items.take(i as int).map_values(
                    |item: JsonV| deribit_record(item, currency@, deposit),
                ),
            decreases items.len() - i,
        {
            let item = &items[i];
            let rec = deribit_record_of(item, currency, deposit);
            assert(record_view(rec) == deribit_record(spec_items[i as int], currency@, deposit));
            let ghost before = out@;
            out.push(rec);
            proof {
                assert(records_view(out@) =~= records_view(before).push(record_view(rec)));
                assert(spec_items.take(i as int + 1) =~= spec_items.take(i as int).push(spec_items[i as int]));
                assert(records_view(out@) =~= spec_items.take(i as int + 1).map_values(
                    |item: JsonV| deribit_record(item, currency@, deposit),
                ));
            }
            i = i + 1;
        }
        proof {
            assert(spec_items.take(items.len() as int) =~= spec_items);
        }
    } else {
        proof {
            assert(records_view(out@) =~= deribit_funds_records_spec(response@, currency@, deposit));
        }
    }
    out
}

/// A ledger filter; times in Unix milliseconds.
#[derive(Debug)]
pub struct LedgerFilter {
    pub asset: Option<String>,
    pub entry_type: Option<LedgerEntryType>,
    pub start_time: Option<u64>,
    pub end_time: Option<u64>,
    pub limit: Option<u32>,
}

/// Deribit's `query` word for an entry type; `Other` text is sent as it is.
pub open spec fn ledger_query(t: LedgerEntryV) -> Seq<char> {
    match t {
        LedgerEntryV::Trade => "trade"@,
        LedgerEntryV::Deposit => "deposit"@,
        LedgerEntryV::Withdrawal => "withdrawal"@,
        LedgerEntryV::Funding => "funding"@,
        LedgerEntryV::Fee => "fee"@,
        LedgerEntryV::Rebate => "rebate"@,
        LedgerEntryV::Transfer => "transfer"@,
        LedgerEntryV::Liquidation => "liquidation"@,
        LedgerEntryV::Settlement => "settlement"@,
        LedgerEntryV::Other(s) => s,
    }
}

pub open spec fn opt_member(k: Seq<char>, v: Option<JsonV>) -> Seq<(Seq<char>, JsonV)> {
    match v {
        Some(x) => seq![(k, x)],
        None => Seq::empty(),
    }
}

/// The `params` of Deribit's transaction log query: the currency (the asset
/// upper-cased, `BTC` by default), then the entry type's `query`, the start
/// and end times and the count (at most 100), each when given.
pub open spec fn deribit_ledger_params_spec(f: LedgerFilter) -> JsonV {
    JsonV::Object(
        seq![(
            "currency"@,
            t_v(
                match f.asset {
                    Some(a) => str_upper(a@),
                    None => "BTC"@,
                },
            ),
        )] + opt_member(
            "query"@,
            match f.entry_type {
                Some(t) => Some(t_v(ledger_query(ledger_view(t)))),
                None => None,
            },
        ) + opt_member(
            "start_timestamp"@,
            match f.start_time {
                Some(n) => Some(n_v(decimal_text(n as nat))),
                None => None,
            },
        ) + opt_member(
            "end_timestamp"@,
            match f.end_time {
                Some(n) => Some(n_v(decimal_text(n as nat))),
                None => None,
            },
        ) + opt_member(
            "count"@,
            match f.limit {
                Some(l) => Some(n_v(decimal_text(if l <= 100 { l as nat } else { 100 }))),
                None => None,
            },
        ),
    )
}

fn ledger_query_text(t: &LedgerEntryType) -> (r: String)
    ensures
        r@ == ledger_query(ledger_view(*t)),
{
    match t {
        LedgerEntryType::Trade => "trade".to_owned(),
        LedgerEntryType::Deposit => "deposit".to_owned(),
        LedgerEntryType::Withdrawal => "withdrawal".to_owned(),
        LedgerEntryType::Funding => "funding".to_owned(),
        LedgerEntryType::Fee => "fee".to_owned(),
        LedgerEntryType::Rebate => "rebate".to_owned(),
        LedgerEntryType::Transfer => "transfer".to_owned(),
        LedgerEntryType::Liquidation => "liquidation".to_owned(),
        LedgerEntryType::Settlement => "settlement".to_owned(),
        LedgerEntryType::Other(s) => s.clone(),
    }
}

/// The `params` of a Deribit transaction log query (see `deribit_ledger_params_spec`).
pub fn deribit_ledger_params(filter: &LedgerFilter) -> (r: Json)
    ensures
        r@ == deribit_ledger_params_spec(*filter),
{
    let currency = match &filter.asset {
        Some(a) => to_upper(a.as_str()),
        None => "BTC".to_owned(),
    };
    let mut m: Vec<(String, Json)> = Vec::new();
    push_member(&mut m, "currency", Json::string(currency.as_str()));
    let ghost m1 = members_view(m@);
    if let Some(t) = &filter.entry_type {
        let q = ledger_query_text(t);
        push_member(&mut m, "query", Json::string(q.as_str()));
    }
    let ghost m2 = members_view(m@);
    if let Some(n) = filter.start_time {
        push_member(&mut m, "start_timestamp", Json::from_u64(n));
    }
    let ghost m3 = members_view(m@);
    if let Some(n) = filter.end_time {
        push_member(&mut m, "end_timestamp", Json::from_u64(n));
    }
    let ghost m4 = members_view(m@);
    if let Some(l) = filter.limit {
        let c: u32 = if l <= 100 { l } else { 100 };
        push_member(&mut m, "count", Json::from_u64(c as u64));
    }
    proof {
        let f = *filter;
        assert(m2 =~= m1 + opt_member(
            "query"@,
            match f.entry_type {
                Some(t) => Some(t_v(ledger_query(ledger_view(t)))),
                None => None,
            },
        ));
        assert(m3 =~= m2 + opt_member(
            "start_timestamp"@,
            match f.start_time {
                Some(n) => Some(n_v(decimal_text(n as nat))),
                None => None,
            },
        ));
        assert(m4 =~= m3 + opt_member(
            "end_timestamp"@,
            match f.end_time {
                Some(n) => Some(n_v(decimal_text(n as nat))),
                None => None,
            },
        ));
        assert(members_view(m@) =~= m4 + opt_member(
            "count"@,
            match f.limit {
                Some(l) => Some(n_v(decimal_text(if l <= 100 { l as nat } else { 100 }))),
                None => None,
            },
        ));
    }
    Json::Object(m)
}

/// One entry of Deribit's transaction log; amounts as their number text.
#[derive(Debug)]
pub struct LedgerRecord {
    pub id: String,
    pub asset: String,
    pub amount: Option<String>,
    pub balance: Option<String>,
    pub entry_type: LedgerEntryType,
    pub description: String,
    pub ref_id: Option<String>,
    pub timestamp: i64,
}

/// The view of a ledger record: id, asset, amount, balance, type,
/// description, reference id, time.
pub open spec fn ledger_record_view(r: LedgerRecord) -> (
    Seq<char>,
    Seq<char>,
    Option<Seq<char>>,
    Option<Seq<char>>,
    LedgerEntryV,
    Seq<char>,
    Option<Seq<char>>,
    int,
) {
    (
        r.id@,
        r.asset@,
        crate::common::funds::opt_text_of(r.amount),
        crate::common::funds::opt_text_of(r.balance),
        ledger_view(r.entry_type),
        r.description@,
        crate::common::funds::opt_text_of(r.ref_id),
        r.timestamp as int,
    )
}

pub open spec fn ledger_records_view(v: Seq<LedgerRecord>) -> Seq<
    (Seq<char>, Seq<char>, Option<Seq<char>>, Option<Seq<char>>, LedgerEntryV, Seq<char>, Option<Seq<char>>, int),
> {
    v.map_values(|r: LedgerRecord| ledger_record_view(r))
}

/// The member `a`, or `b` when there is no `a`.
pub open spec fn first_member(item: JsonV, a: Seq<char>, b: Seq<char>) -> Option<JsonV> {
    match member(item, a) {
        Some(m) => Some(m),
        None => member(item, b),
    }
}

pub open spec fn opt_number_text(o: Option<JsonV>) -> Option<Seq<char>> {
    match o {
        Some(m) => number_text(m),
        None => None,
    }
}

pub open spec fn opt_str_value(o: Option<JsonV>) -> Option<Seq<char>> {
    match o {
        Some(m) => str_value(m),
        None => None,
    }
}

/// A log entry, or `None` when it has no `i64` timestamp: its id is the
/// `i64` `id` in decimal, else the `trade_id` text, else the time in decimal;
/// the asset is its `currency` (else the one asked for); the amount is
/// `change` (else `amount`); the description is `info` (else `note`), else the
/// type text; the reference is `trade_id` (else `order_id`).
pub open spec fn deribit_ledger_item(item: JsonV, currency: Seq<char>) -> Option<
    (Seq<char>, Seq<char>, Option<Seq<char>>, Option<Seq<char>>, LedgerEntryV, Seq<char>, Option<Seq<char>>, int),
> {
    match member(item, "timestamp"@) {
        Some(tm) => match json_i64(tm) {
            Some(ts) => {
                let type_str = str_or(item, "type"@, Seq::empty());
                Some(
                    (
                        match member(item, "id"@) {
                            Some(m) => match json_i64(m) {
                                Some(n) => signed_decimal_text(n),
                                None => match str_member(item, "trade_id"@) {
                                    Some(t) => t,
                                    None => signed_decimal_text(ts),
                                },
                            },
                            None => match str_member(item, "trade_id"@) {
                                Some(t) => t,
                                None => signed_decimal_text(ts),
                            },
                        },
                        str_or(item, "currency"@, currency),
                        opt_number_text(first_member(item, "change"@, "amount"@)),
                        member_number_text(item, "balance"@),
                        entry_type_of(type_str),
                        match opt_str_value(first_member(item, "info"@, "note"@)) {
                            Some(d) => d,
                            None => type_str,
                        },
                        opt_str_value(first_member(item, "trade_id"@, "order_id"@)),
                        ts,
                    ),
                )
            },
            None => None,
        },
        None => None,
    }
}

/// The entries of a Deribit transaction log reply (`result.logs`), skipping
/// those without a timestamp, or the error message when the reply has no
/// `result` or no `logs` array.
pub open spec fn deribit_ledger_spec(response: JsonV, currency: Seq<char>) -> Result<
    Seq<(Seq<char>, Seq<char>, Option<Seq<char>>, Option<Seq<char>>, LedgerEntryV, Seq<char>, Option<Seq<char>>, int)>,
    Seq<char>,
> {
    match member(response, "result"@) {
        None => Err("Missing result in transaction log response"@),
        Some(result) => match member(result, "logs"@) {
            Some(JsonV::Array(logs)) => Ok(logs.filter_map(|item: JsonV| deribit_ledger_item(item, currency))),
            _ => Err("Missing logs array in transaction log response"@),
        },
    }
}

fn first_of<'a>(item: &'a Json, a: &str, b: &str) -> (r: Option<&'a Json>)
    ensures
        view_opt(r) == first_member(item@, a@, b@),
{
    match item.get(a) {
        Some(m) => Some(m),
        None => item.get(b),
    }
}

fn ledger_entry_of(item: &Json, currency: &str) -> (r: Option<LedgerRecord>)
    ensures
        match r {
            Some(e) => deribit_ledger_item(item@, currency@) == Some(ledger_record_view(e)),
            None => deribit_ledger_item(item@, currency@) is None,
        },
{
    let timestamp = match item.get("timestamp") {
        Some(tm) => match tm.as_i64() {
            Some(t) => t,
            None => return None,
        },
        None => return None,
    };
    proof {
        reveal_strlit("");
    }
    let type_str = read_str_or(item, "type", "");
    let by_id = match item.get("id") {
        Some(m) => m.as_i64(),
        None => None,
    };
    let id = match by_id {
        Some(n) => crate::common::text::i64_text(n),
        None => match item.get_str("trade_id") {
            Some(t) => t.to_owned(),
            None => crate::common::text::i64_text(timestamp),
        },
    };
    let asset = read_str_or(item, "currency", currency);
    let amount = match first_of(item, "change", "amount") {
        Some(m) => m.number_literal(),
        None => None,
    };
    let balance = read_number_text(item, "balance");
    let entry_type = classify_deribit_entry_type(type_str.as_str());
    let description = match first_of(item, "info", "note") {
        Some(m) => match m.as_str() {
            Some(d) => d.to_owned(),
            None => type_str.clone(),
        },
        None => type_str.clone(),
    };
    let ref_id = match first_of(item, "trade_id", "order_id") {
        Some(m) => match m.as_str() {
            Some(x) => Some(x.to_owned()),
            None => None,
        },
        None => None,
    };
    let e = LedgerRecord { id, asset, amount, balance, entry_type, description, ref_id, timestamp };
    proof {
        let iv = item@;
        let ts = timestamp as int;
        let t = str_or(iv, "type"@, Seq::empty());
        assert(type_str@ == t);
        assert(member(iv, "timestamp"@) is Some);
        assert(json_i64(member(iv, "timestamp"@)->Some_0) == Some(ts));
        assert(e.asset@ == str_or(iv, "currency"@, currency@));
        assert(crate::common::funds::opt_text_of(e.amount) == opt_number_text(first_member(iv, "change"@, "amount"@)));
        assert(ledger_view(e.entry_type) == entry_type_of(t));
        assert(e.description@ == match opt_str_value(first_member(iv, "info"@, "note"@)) {
            Some(d) => d,
            None => t,
        });
        assert(crate::common::funds::opt_text_of(e.ref_id) == opt_str_value(first_member(iv, "trade_id"@, "order_id"@)));
    }
    Some(e)
}

/// The entries of a Deribit transaction log reply (see `deribit_ledger_spec`).
pub fn deribit_ledger_entries(response: &Json, currency: &str) -> (r: Result<Vec<LedgerRecord>, ExchangeError>)
    ensures
        match r {
            Ok(v) => deribit_ledger_spec(response@, currency@) is Ok && ledger_records_view(v@) == deribit_ledger_spec(
                response@,
                currency@,
            )->Ok_0,
            Err(ExchangeError::Parse(m)) => deribit_ledger_spec(response@, currency@) == Err::<
                Seq<(Seq<char>, Seq<char>, Option<Seq<char>>, Option<Seq<char>>, LedgerEntryV, Seq<char>, Option<Seq<char>>, int)>,
                Seq<char>,
            >(m@),
            Err(_) => false,
        },
{
    let result = match response.get("result") {
        Some(x) => x,
        None => return Err(ExchangeError::Parse("Missing result in transaction log response".to_owned())),
    };
    let logs = match result.get("logs") {
        Some(l) => match l.as_array() {
            Some(a) => a,
            None => return Err(ExchangeError::Parse("Missing logs array in transaction log response".to_owned())),
        },
        None => return Err(ExchangeError::Parse("Missing logs array in transaction log response".to_owned())),
    };
    let ghost spec_logs = items_view(logs@);
    let ghost f = |item: JsonV| deribit_ledger_item(item, currency@);
    proof {
        crate::common::json::lemma_items_view(logs@);
    }
    let mut out: Vec<LedgerRecord> = Vec::new();
    let mut i: usize = 0;
    while i < logs.len()
        invariant
            0 <= i <= logs.len(),
            spec_logs == items_view(logs@),
            spec_logs.len() == logs.len(),
            forall|k: int| 0 <= k < logs.len() ==> #[trigger] spec_logs[k] == logs@[k]@,
            f == (|item: JsonV| deribit_ledger_item(item, currency@)),
            ledger_records_view(out@) == spec_logs.take(i as int).filter_map(f),
        decreases logs.len() - i,
    {
        proof {
            spec_logs.lemma_filter_map_take_succ(f, i as int);
        }
        let ghost before = out@;
        match ledger_entry_of(&logs[i], currency) {
            Some(e) => {
                out.push(e);
                proof {
                    assert(ledger_records_view(out@) =~= ledger_records_view(before).push(ledger_record_view(e)));
                }
            },
            None => {},
        }
        assert(ledger_records_view(out@) =~= spec_logs.take(i as int + 1).filter_map(f));
        i = i + 1;
    }
    assert(spec_logs.take(logs.len() as int) =~= spec_logs);
    Ok(out)
}

/// A Deribit funds history: the deposit records (when deposits are asked
/// for), then the withdrawal records (when withdrawals are), in the
/// filter's currency.
pub open spec fn deribit_funds_history_spec(f: FundsFilter, deposits_reply: JsonV, withdrawals_reply: JsonV) -> Seq<FundsRecordV> {
    let c = deribit_funds_currency(f);
    (if !(f.record_type is Withdrawal) {
        deribit_funds_records_spec(deposits_reply, c, true)
    } else {
        Seq::empty()
    }) + (if !(f.record_type is Deposit) {
        deribit_funds_records_spec(withdrawals_reply, c, false)
    } else {
        Seq::empty()
    })
}

/// The records of a Deribit funds history from the replies to its deposit
/// and withdrawal queries (a reply to a query not made is not read).
pub fn deribit_funds_history(filter: &FundsFilter, deposits_reply: &Json, withdrawals_reply: &Json) -> (r: Vec<FundsRecord>)
    ensures
        records_view(r@) == deribit_funds_history_spec(*filter, deposits_reply@, withdrawals_reply@),
{
    let currency = match &filter.asset {
        Some(a) => to_upper(a.as_str()),
        None => "BTC".to_owned(),
    };
    let mut out: Vec<FundsRecord> = Vec::new();
    let wants_deposits = match filter.record_type {
        FundsRecordType::Withdrawal => false,
        _ => true,
    };
    let wants_withdrawals = match filter.record_type {
        FundsRecordType::Deposit => false,
        _ => true,
    };
    if wants_deposits {
        out = deribit_funds_records(deposits_reply, currency.as_str(), true);
    }
    let ghost first = out@;
    if wants_withdrawals {
        let mut w = deribit_funds_records(withdrawals_reply, currency.as_str(), false);
        out.append(&mut w);
    }
    proof {
        assert(records_view(out@) =~= records_view(first) + (if wants_withdrawals {
            deribit_funds_records_spec(withdrawals_reply@, currency@, false)
        } else {
            Seq::empty()
        }));
        if !wants_deposits {
            assert(records_view(first) =~= Seq::<FundsRecordV>::empty());
        }
    }
    out
}

pub open spec fn opt_number_member(k: Seq<char>, v: Option<Seq<char>>) -> Seq<(Seq<char>, JsonV)> {
    match v {
        Some(x) => seq![(k, n_v(x))],
        None => Seq::empty(),
    }
}

/// The `params` of Deribit's `private/edit`: the order id, then the new
/// amount, price and trigger price, each when given, as numbers.
pub open spec fn deribit_amend_spec(req: AmendInput) -> JsonV {
    JsonV::Object(
        seq![("order_id"@, t_v(req.order_id@))] + opt_number_member(
            "amount"@,
            match req.quantity {
                Some(q) => Some(q.amount@),
                None => None,
            },
        ) + opt_number_member("price"@, crate::common::orders::opt_view(req.price)) + opt_number_member(
            "trigger_price"@,
            crate::common::orders::opt_view(req.trigger_price),
        ),
    )
}

/// The `params` of a Deribit amend (see `deribit_amend_spec`).
pub fn deribit_amend_params(req: &AmendInput) -> (r: Json)
    ensures
        r@ == deribit_amend_spec(*req),
{
    let mut m: Vec<(String, Json)> = Vec::new();
    push_member(&mut m, "order_id", Json::string(req.order_id.as_str()));
    let ghost m0 = members_view(m@);
    if let Some(q) = &req.quantity {
        push_member(&mut m, "amount", Json::Number(q.amount.clone()));
    }
    let ghost m1 = members_view(m@);
    if let Some(p) = &req.price {
        push_member(&mut m, "price", Json::Number(p.clone()));
    }
    let ghost m2 = members_view(m@);
    if let Some(t) = &req.trigger_price {
        push_member(&mut m, "trigger_price", Json::Number(t.clone()));
    }
    proof {
        let rq = *req;
        assert(m0 =~= seq![("order_id"@, t_v(rq.order_id@))]);
        assert(m1 =~= m0 + opt_number_member(
            "amount"@,
            match rq.quantity {
                Some(q) => Some(q.amount@),
                None => None,
            },
        ));
        assert(m2 =~= m1 + opt_number_member("price"@, crate::common::orders::opt_view(rq.price)));
        assert(members_view(m@) =~= m2 + opt_number_member(
            "trigger_price"@,
            crate::common::orders::opt_view(rq.trigger_price),
        ));
    }
    Json::Object(m)
}

/// `-` and `_` separate the parts of a Deribit instrument name.
pub open spec fn is_name_sep(c: char) -> bool {
    c == '-' || c == '_'
}

/// The characters of `s` before its first `-` or `_` (all of `s` without one).
pub open spec fn prefix_before_sep(s: Seq<char>) -> Seq<char>
    decreases s.len(),
{
    if s.len() == 0 || is_name_sep(s[0]) {
        Seq::empty()
    } else {
        seq![s[0]] + prefix_before_sep(s.drop_first())
    }
}

proof fn lemma_prefix_before_sep(s: Seq<char>, i: int)
    requires
        0 <= i <= s.len(),
        forall|j: int| 0 <= j < i ==> !is_name_sep(#[trigger] s[j]),
        i == s.len() || is_name_sep(s[i]),
    ensures
        prefix_before_sep(s) == s.take(i),
    decreases i,
{
    if i == 0 {
        assert(s.take(0) =~= Seq::<char>::empty());
    } else {
        let t = s.drop_first();
        assert forall|j: int| 0 <= j < i - 1 implies !is_name_sep(#[trigger] t[j]) by {
            assert(t[j] == s[j + 1]);
        }
        if i < s.len() {
            assert(t[i - 1] == s[i]);
        }
        lemma_prefix_before_sep(t, i - 1);
        assert(s.take(i) =~= seq![s[0]] + t.take(i - 1));
    }
}

/// A funding history filter; times in Unix milliseconds.
#[derive(Debug)]
pub struct FundingFilter {
    pub symbol: Option<String>,
    pub start_time: Option<u64>,
    pub end_time: Option<u64>,
    pub limit: Option<u32>,
}

/// The currency a Deribit funding query asks for: the symbol's part before
/// its first `-` or `_`, upper-cased; `BTC` without a symbol.
pub open spec fn deribit_funding_currency(f: FundingFilter) -> Seq<char> {
    match f.symbol {
        Some(s) => str_upper(prefix_before_sep(s@)),
        None => "BTC"@,
    }
}

/// The `params` of a Deribit funding query: the currency, `query` funding,
/// then the start and end times and the count (at most 100), each when given.
pub open spec fn deribit_funding_params_spec(f: FundingFilter) -> JsonV {
    JsonV::Object(
        seq![("currency"@, t_v(deribit_funding_currency(f))), ("query"@, t_v("funding"@))] + opt_member(
            "start_timestamp"@,
            match f.start_time {
                Some(n) => Some(n_v(decimal_text(n as nat))),
                None => None,
            },
        ) + opt_member(
            "end_timestamp"@,
            match f.end_time {
                Some(n) => Some(n_v(decimal_text(n as nat))),
                None => None,
            },
        ) + opt_member(
            "count"@,
            match f.limit {
                Some(l) => Some(n_v(decimal_text(if l <= 100 { l as nat } else { 100 }))),
                None => None,
            },
        ),
    )
}

fn name_prefix(s: &str) -> (r: String)
    ensures
        r@ == prefix_before_sep(s@),
{
    let v = chars_of(s);
    let mut w: Vec<char> = Vec::new();
    let mut i: usize = 0;
    while i < v.len() && !(v[i] == '-' || v[i] == '_')
        invariant
            0 <= i <= v.len(),
            v@ == s@,
            w@ == s@.take(i as int),
            forall|j: int| 0 <= j < i ==> !is_name_sep(#[trigger] s@[j]),
        decreases v.len() - i,
    {
        w.push(v[i]);
        i = i + 1;
        assert(w@ =~= s@.take(i as int));
    }
    proof {
        lemma_prefix_before_sep(s@, i as int);
    }
    crate::common::text::string_of(&w)
}

/// The `params` of a Deribit funding query (see `deribit_funding_params_spec`).
pub fn deribit_funding_params(filter: &FundingFilter) -> (r: Json)
    ensures
        r@ == deribit_funding_params_spec(*filter),
{
    let currency = match &filter.symbol {
        Some(sym) => {
            let p = name_prefix(sym.as_str());
            to_upper(p.as_str())
        },
        None => "BTC".to_owned(),
    };
    let mut m: Vec<(String, Json)> = Vec::new();
    push_member(&mut m, "currency", Json::string(currency.as_str()));
    push_member(&mut m, "query", Json::string("funding"));
    let ghost m1 = members_view(m@);
    if let Some(n) = filter.start_time {
        push_member(&mut m, "start_timestamp", Json::from_u64(n));
    }
    let ghost m2 = members_view(m@);
    if let Some(n) = filter.end_time {
        push_member(&mut m, "end_timestamp", Json::from_u64(n));
    }
    let ghost m3 = members_view(m@);
    if let Some(l) = filter.limit {
        let c: u32 = if l <= 100 { l } else { 100 };
        push_member(&mut m, "count", Json::from_u64(c as u64));
    }
    proof {
        let f = *filter;
        assert(m1 =~= seq![("currency"@, t_v(deribit_funding_currency(f))), ("query"@, t_v("funding"@))]);
        assert(m2 =~= m1 + opt_member(
            "start_timestamp"@,
            match f.start_time {
                Some(n) => Some(n_v(decimal_text(n as nat))),
                None => None,
            },
        ));
        assert(m3 =~= m2 + opt_member(
            "end_timestamp"@,
            match f.end_time {
                Some(n) => Some(n_v(decimal_text(n as nat))),
                None => None,
            },
        ));
        assert(members_view(m@) =~= m3 + opt_member(
            "count"@,
            match f.limit {
                Some(l) => Some(n_v(decimal_text(if l <= 100 { l as nat } else { 100 }))),
                None => None,
            },
        ));
    }
    Json::Object(m)
}

/// One funding payment from the transaction log: instrument, payment (as
/// number text), asset and time.
#[derive(Debug)]
pub struct FundingRecord {
    pub symbol: String,
    pub payment: String,
    pub asset: String,
    pub timestamp: i64,
}

pub open spec fn funding_view(r: FundingRecord) -> (Seq<char>, Seq<char>, Seq<char>, int) {
    (r.symbol@, r.payment@, r.asset@, r.timestamp as int)
}

/// A log entry as a funding payment, or `None` without an `i64` timestamp
/// or a numeric `amount` (else `change`): its `instrument_name` (empty when
/// absent), the amount, its `currency` (else the one asked for), the time.
pub open spec fn deribit_funding_item(item: JsonV, currency: Seq<char>) -> Option<(Seq<char>, Seq<char>, Seq<char>, int)> {
    match member(item, "timestamp"@) {
        Some(tm) => match json_i64(tm) {
            Some(ts) => match opt_number_text(first_member(item, "amount"@, "change"@)) {
                Some(a) => Some(
                    (str_or(item, "instrument_name"@, Seq::empty()), a, str_or(item, "currency"@, currency), ts),
                ),
                None => None,
            },
            None => None,
        },
        None => None,
    }
}

/// The funding payments of a Deribit transaction log reply, or the error
/// message when it has no `result` or no `logs` array.
pub open spec fn deribit_funding_spec(response: JsonV, currency: Seq<char>) -> Result<
    Seq<(Seq<char>, Seq<char>, Seq<char>, int)>,
    Seq<char>,
> {
    match member(response, "result"@) {
        None => Err("Missing result in transaction log response"@),
        Some(result) => match member(result, "logs"@) {
            Some(JsonV::Array(logs)) => Ok(logs.filter_map(|item: JsonV| deribit_funding_item(item, currency))),
            _ => Err("Missing logs array in transaction log response"@),
        },
    }
}

fn funding_of(item: &Json, currency: &str) -> (r: Option<FundingRecord>)
    ensures
        match r {
            Some(e) => deribit_funding_item(item@, currency@) == Some(funding_view(e)),
            None => deribit_funding_item(item@, currency@) is None,
        },
{
    let timestamp = match item.get("timestamp") {
        Some(tm) => match tm.as_i64() {
            Some(t) => t,
            None => return None,
        },
        None => return None,
    };
    let payment = match first_of(item, "amount", "change") {
        Some(m) => match m.number_literal() {
            Some(t) => t,
            None => return None,
        },
        None => return None,
    };
    proof {
        reveal_strlit("");
    }
    let symbol = read_str_or(item, "instrument_name", "");
    let asset = read_str_or(item, "currency", currency);
    Some(FundingRecord { symbol, payment, asset, timestamp })
}

/// The funding payments of a Deribit transaction log reply (see `deribit_funding_spec`).
pub fn deribit_funding_payments(response: &Json, currency: &str) -> (r: Result<Vec<FundingRecord>, ExchangeError>)
    ensures
        match r {
            Ok(v) => deribit_funding_spec(response@, currency@) is Ok && v@.map_values(|e: FundingRecord| funding_view(e))
                == deribit_funding_spec(response@, currency@)->Ok_0,
            Err(ExchangeError::Parse(m)) => deribit_funding_spec(response@, currency@) == Err::<
                Seq<(Seq<char>, Seq<char>, Seq<char>, int)>,
                Seq<char>,
            >(m@),
            Err(_) => false,
        },
{
    let result = match response.get("result") {
        Some(x) => x,
        None => return Err(ExchangeError::Parse("Missing result in transaction log response".to_owned())),
    };
    let logs = match result.get("logs") {
        Some(l) => match l.as_array() {
            Some(a) => a,
            None => return Err(ExchangeError::Parse("Missing logs array in transaction log response".to_owned())),
        },
        None => return Err(ExchangeError::Parse("Missing logs array in transaction log response".to_owned())),
    };
    let ghost spec_logs = items_view(logs@);
    let ghost f = |item: JsonV| deribit_funding_item(item, currency@);
    proof {
        crate::common::json::lemma_items_view(logs@);
    }
    let mut out: Vec<FundingRecord> = Vec::new();
    let mut i: usize = 0;
    while i < logs.len()
        invariant
            0 <= i <= logs.len(),
            spec_logs == items_view(logs@),
            spec_logs.len() == logs.len(),
            forall|k: int| 0 <= k < logs.len() ==> #[trigger] spec_logs[k] == logs@[k]@,
            f == (|item: JsonV| deribit_funding_item(item, currency@)),
            out@.map_values(|e: FundingRecord| funding_view(e)) == spec_logs.take(i as int).filter_map(f),
        decreases logs.len() - i,
    {
        proof {
            spec_logs.lemma_filter_map_take_succ(f, i as int);
        }
        let ghost before = out@;
        match funding_of(&logs[i], currency) {
            Some(e) => {
                out.push(e);
                proof {
                    assert(out@.map_values(|e: FundingRecord| funding_view(e)) =~= before.map_values(
                        |e: FundingRecord| funding_view(e),
                    ).push(funding_view(e)));
                }
            },
            None => {},
        }
        assert(out@.map_values(|e: FundingRecord| funding_view(e)) =~= spec_logs.take(i as int + 1).filter_map(f));
        i = i + 1;
    }
    assert(spec_logs.take(logs.len() as int) =~= spec_logs);
    Ok(out)
}

/// A Deribit order is sent with `private/buy` for a buy and `private/sell`
/// for a sell, and its `params` name the instrument and the amount.
#[verifier::spinoff_prover]
#[verifier::rlimit(40)]
pub proof fn lemma_deribit_order_direction(req: OrderInput)
    requires
        deribit_order_spec(req) is Ok,
    ensures
        (deribit_order_spec(req)->Ok_0.0 == DeribitOrderMethod::Buy) == (req.side == OrderSide::Buy),
        member(deribit_order_spec(req)->Ok_0.1, "instrument_name"@) == Some(JsonV::Str(req.symbol@)),
        member(deribit_order_spec(req)->Ok_0.1, "amount"@) == Some(JsonV::Number(req.amount@)),
{
    reveal_strlit("instrument_name");
    reveal_strlit("amount");
    assert("instrument_name"@.len() == 15 && "amount"@.len() == 6);
    reveal_with_fuel(crate::common::json::member_from, 3);
    let ms = deribit_order_members(req)->Ok_0;
    assert(deribit_order_spec(req)->Ok_0.1 == JsonV::Object(ms));
    assert(ms[0] == ("instrument_name"@, t_v(req.symbol@)));
    assert(ms[1] == ("amount"@, n_v(req.amount@)));
}

/// Deribit's time-in-force words: an IOC order is sent `immediate_or_cancel`,
/// a FOK order `fill_or_kill`, a GTD order `good_til_day`, each as a limit order.
#[verifier::spinoff_prover]
#[verifier::rlimit(40)]
pub proof fn lemma_deribit_time_in_force(req: OrderInput)
    requires
        req.kind is Ioc || req.kind is Fok || req.kind is Gtd,
    ensures
        deribit_order_spec(req) is Ok,
        member(deribit_order_spec(req)->Ok_0.1, "type"@) == Some(JsonV::Str("limit"@)),
        member(deribit_order_spec(req)->Ok_0.1, "time_in_force"@) == Some(
            JsonV::Str(
                if req.kind is Ioc {
                    "immediate_or_cancel"@
                } else if req.kind is Fok {
                    "fill_or_kill"@
                } else {
                    "good_til_day"@
                },
            ),
        ),
{
    reveal_strlit("instrument_name");
    reveal_strlit("amount");
    reveal_strlit("type");
    reveal_strlit("price");
    reveal_strlit("time_in_force");
    assert("instrument_name"@.len() == 15 && "amount"@.len() == 6 && "type"@.len() == 4);
    assert("price"@.len() == 5 && "time_in_force"@.len() == 13);
    assert("type"@[0] == 't' && "time_in_force"@[1] != "type"@[1]);
    assert("instrument_name"@ != "type"@ && "amount"@ != "type"@);
    assert("instrument_name"@ != "time_in_force"@ && "amount"@ != "time_in_force"@ && "type"@ != "time_in_force"@);
    assert("price"@ != "time_in_force"@);
    reveal_with_fuel(crate::common::json::member_from, 6);
    let ms = deribit_order_members(req)->Ok_0;
    assert(deribit_order_spec(req)->Ok_0.1 == JsonV::Object(ms));
    assert(ms[2] == ("type"@, t_v("limit"@)));
    assert(ms[4].0 == "time_in_force"@);
}

} // verus!
