//! Order requests as plain values: what a REST connector decides from before
//! it sends. Amounts and prices arrive already written as text (formatted to
//! the instrument's precision); contract counts arrive as integers.

use vstd::prelude::*;
use crate::common::types::AccountType;

verus! {

#[derive(Debug, Clone, Copy, PartialEq, Eq, Structural)]
pub enum OrderSide {
    Buy,
    Sell,
}

#[derive(Debug, Clone, Copy, PartialEq, Eq, Structural)]
pub enum TimeInForce {
    Gtc,
    Ioc,
    Fok,
    PostOnly,
    /// Good until a given time.
    Gtd,
}

/// The order type, with its prices as text.
#[derive(Debug)]
pub enum OrderKind {
    Market,
    Limit { price: String },
    PostOnly { price: String },
    Ioc { price: Option<String> },
    Fok { price: String },
    ReduceOnly { price: Option<String> },
    StopMarket { stop_price: String },
    StopLimit { stop_price: String, limit_price: String },
    /// A limit order showing only part of its size: the visible part as an
    /// amount (spot) and as a contract count (futures).
    Iceberg { price: String, display_amount: String, display_contracts: i64 },
    /// A limit order good until `expire_time` (Unix milliseconds).
    Gtd { price: String, expire_time: u64 },
    /// One-cancels-the-other: a limit order with a stop order (stop limit
    /// price, when given).
    Oco { price: String, stop_price: String, stop_limit_price: Option<String> },
    /// A stop that trails the price by `callback_rate`, armed at the
    /// activation price when one is given.
    TrailingStop { callback_rate: String, activation_price: Option<String> },
    /// An entry (limit at `price`, or market) with a take-profit and a stop-loss leg.
    Bracket { price: Option<String>, take_profit: String, stop_loss: String },
    /// An order type the exchange has no request for, by name.
    Unsupported { name: String },
}

/// One order to place.
#[derive(Debug)]
pub struct OrderInput {
    /// The exchange's symbol for the instrument.
    pub symbol: String,
    pub side: OrderSide,
    pub kind: OrderKind,
    /// The quantity as text, at the instrument's precision.
    pub amount: String,
    /// The quantity as a whole number of contracts.
    pub contracts: i64,
    pub time_in_force: TimeInForce,
    /// The client order id, when the caller gives one.
    pub client_order_id: Option<String>,
    pub account_type: AccountType,
    /// The order may only reduce a position (read by batch requests).
    pub reduce_only: bool,
}

/// Why a request could not be built.
#[derive(Debug)]
pub enum ExchangeError {
    UnsupportedOperation(String),
    InvalidRequest(String),
    /// A reply lacks what it must hold.
    Parse(String),
}

/// The client order id, or `generated` when the order has none.
pub open spec fn order_text(req: OrderInput, generated: Seq<char>) -> Seq<char> {
    match req.client_order_id {
        Some(c) => c@,
        None => generated,
    }
}

/// Spot and margin accounts trade the spot book; the others are futures.
pub open spec fn is_spot_account(at: AccountType) -> bool {
    at is Spot || at is Margin
}

/// `contracts` signed by side: negative for a sell.
pub open spec fn signed_size(side: OrderSide, contracts: i64) -> int {
    match side {
        OrderSide::Buy => contracts as int,
        OrderSide::Sell => -(contracts as int),
    }
}

/// Whether the account trades the spot book.
pub fn spot_account(at: AccountType) -> (r: bool)
    ensures
        r == is_spot_account(at),
{
    match at {
        AccountType::Spot | AccountType::Margin => true,
        _ => false,
    }
}

/// `contracts` signed by side.
pub fn size_for(side: OrderSide, contracts: i64) -> (r: i64)
    requires
        side == OrderSide::Sell ==> contracts != i64::MIN,
    ensures
        r == signed_size(side, contracts),
{
    match side {
        OrderSide::Buy => contracts,
        OrderSide::Sell => -contracts,
    }
}

#[derive(Debug, Clone, Copy, PartialEq, Eq, Structural)]
pub enum MarginType {
    Cross,
    Isolated,
}

/// A change to an open position; amounts and prices as text.
#[derive(Debug)]
pub enum PositionChange {
    SetLeverage { leverage: u32 },
    SetMarginMode { margin_type: MarginType },
    AddMargin { amount: String },
    RemoveMargin { amount: String },
    ClosePosition,
    SetTpSl { take_profit: Option<String>, stop_loss: Option<String> },
    SwitchPositionMode,
    MovePositions,
}

/// A position change on one instrument.
#[derive(Debug)]
pub struct PositionInput {
    /// The exchange's symbol for the instrument.
    pub symbol: String,
    pub account_type: AccountType,
    pub change: PositionChange,
}

/// The text of a number written with its sign flipped: a leading `-` is
/// dropped, otherwise one is added.
pub open spec fn negated_text(t: Seq<char>) -> Seq<char> {
    if t.len() > 0 && t[0] == '-' {
        t.drop_first()
    } else {
        seq!['-'] + t
    }
}

/// The text of `t` with its sign flipped.
pub fn negate_text(t: &str) -> (r: String)
    ensures
        r@ == negated_text(t@),
{
    let v = crate::common::text::chars_of(t);
    if v.len() > 0 && v[0] == '-' {
        let mut w: Vec<char> = Vec::new();
        let mut i: usize = 1;
        while i < v.len()
            invariant
                1 <= i <= v.len(),
                v@ == t@,
                w@ == t@.subrange(1, i as int),
            decreases v.len() - i,
        {
            w.push(v[i]);
            i = i + 1;
            assert(w@ =~= t@.subrange(1, i as int));
        }
        assert(w@ =~= t@.drop_first());
        crate::common::text::string_of(&w)
    } else {
        proof {
            reveal_strlit("-");
        }
        crate::common::text::concat("-", t)
    }
}

/// Which orders a cancel request is for.
#[derive(Debug)]
pub enum CancelScope {
    Single { order_id: String },
    All { symbol: Option<String> },
    BySymbol { symbol: String },
    Batch { order_ids: Vec<String> },
    /// A scope chosen by label, currency kind or schedule.
    Other,
}

/// One cancel request; symbols are the exchange's.
#[derive(Debug)]
pub struct CancelInput {
    pub symbol: Option<String>,
    pub account_type: AccountType,
    pub scope: CancelScope,
}

/// The error a request builder reports: an invalid request (`true`) or an
/// unsupported operation (`false`), with its message.
pub open spec fn error_matches(e: ExchangeError, expected: (bool, Seq<char>)) -> bool {
    if expected.0 {
        e is InvalidRequest && e->InvalidRequest_0@ == expected.1
    } else {
        e is UnsupportedOperation && e->UnsupportedOperation_0@ == expected.1
    }
}

/// A sub-account operation; transfer amounts as text.
#[derive(Debug)]
pub enum SubAccountOperation {
    Create { label: String },
    List,
    Transfer { sub_account_id: String, asset: String, amount: String, to_sub: bool },
    GetBalance { sub_account_id: String },
}

/// One sub-account of a listing.
#[derive(Debug)]
pub struct SubAccount {
    pub id: String,
    pub name: String,
    pub status: String,
}

/// What a sub-account operation reports.
#[derive(Debug)]
pub struct SubAccountResult {
    pub id: Option<String>,
    pub name: Option<String>,
    pub accounts: Vec<SubAccount>,
    pub transaction_id: Option<String>,
}

/// Where an order stands in the report of a placement or a cancel.
#[derive(Debug, Clone, Copy, PartialEq, Eq, Structural)]
pub enum OrderStatus {
    New,
    Canceled,
}

/// The order a placement or a cancel reports back, built from the request
/// (prices and amount as text).
#[derive(Debug)]
pub struct PlacedOrder {
    pub id: String,
    pub client_order_id: Option<String>,
    pub symbol: String,
    pub side: OrderSide,
    pub kind: OrderKind,
    pub status: OrderStatus,
    pub price: Option<String>,
    pub stop_price: Option<String>,
    pub amount: String,
    pub time_in_force: TimeInForce,
}

pub open spec fn opt_view(o: Option<String>) -> Option<Seq<char>> {
    match o {
        Some(s) => Some(s@),
        None => None,
    }
}

/// The price and stop price an order type reports: a limit price where it
/// has one (the limit leg of a stop-limit), the stop price of stop and OCO
/// orders.
pub open spec fn order_prices(kind: OrderKind) -> (Option<Seq<char>>, Option<Seq<char>>) {
    match kind {
        OrderKind::Market => (None, None),
        OrderKind::Limit { price } => (Some(price@), None),
        OrderKind::PostOnly { price } => (Some(price@), None),
        OrderKind::Ioc { price } => (opt_view(price), None),
        OrderKind::Fok { price } => (Some(price@), None),
        OrderKind::ReduceOnly { price } => (opt_view(price), None),
        OrderKind::StopMarket { stop_price } => (None, Some(stop_price@)),
        OrderKind::StopLimit { stop_price, limit_price } => (Some(limit_price@), Some(stop_price@)),
        OrderKind::Iceberg { price, .. } => (Some(price@), None),
        OrderKind::Gtd { price, .. } => (Some(price@), None),
        OrderKind::Oco { price, stop_price, .. } => (Some(price@), Some(stop_price@)),
        _ => (None, None),
    }
}

fn opt_clone(o: &Option<String>) -> (r: Option<String>)
    ensures
        opt_view(r) == opt_view(*o),
{
    match o {
        Some(s) => Some(s.clone()),
        None => None,
    }
}

/// The price and stop price of an order type (see `order_prices`).
pub fn order_prices_of(kind: &OrderKind) -> (r: (Option<String>, Option<String>))
    ensures
        (opt_view(r.0), opt_view(r.1)) == order_prices(*kind),
{
    match kind {
        OrderKind::Market => (None, None),
        OrderKind::Limit { price } => (Some(price.clone()), None),
        OrderKind::PostOnly { price } => (Some(price.clone()), None),
        OrderKind::Ioc { price } => (opt_clone(price), None),
        OrderKind::Fok { price } => (Some(price.clone()), None),
        OrderKind::ReduceOnly { price } => (opt_clone(price), None),
        OrderKind::StopMarket { stop_price } => (None, Some(stop_price.clone())),
        OrderKind::StopLimit { stop_price, limit_price } => (Some(limit_price.clone()), Some(stop_price.clone())),
        OrderKind::Iceberg { price, .. } => (Some(price.clone()), None),
        OrderKind::Gtd { price, .. } => (Some(price.clone()), None),
        OrderKind::Oco { price, stop_price, .. } => (Some(price.clone()), Some(stop_price.clone())),
        _ => (None, None),
    }
}

/// The report of an accepted order: the id the exchange gave, the request's
/// client id as reported (`client_order_id`), symbol, side, type and amount,
/// status `New`, its prices (`order_prices`) and the time in force given.
pub fn placed_order(req: OrderInput, order_id: String, client_order_id: Option<String>, time_in_force: TimeInForce) -> (r:
    PlacedOrder)
    ensures
        r.id == order_id,
        r.client_order_id == client_order_id,
        r.symbol == req.symbol,
        r.side == req.side,
        r.kind == req.kind,
        r.amount == req.amount,
        r.status == OrderStatus::New,
        (opt_view(r.price), opt_view(r.stop_price)) == order_prices(req.kind),
        r.time_in_force == time_in_force,
{
    let (price, stop_price) = order_prices_of(&req.kind);
    let OrderInput { symbol, side, kind, amount, .. } = req;
    PlacedOrder {
        id: order_id,
        client_order_id,
        symbol,
        side,
        kind,
        status: OrderStatus::New,
        price,
        stop_price,
        amount,
        time_in_force,
    }
}

/// What a cancel reports, by scope: one order by its id, as a zero-priced
/// limit order of amount `0`; all orders (of the symbol, else of none named)
/// under the id `all_prefix` and `stamp`, as a market order of amount
/// `all_amount`. Other scopes report nothing.
pub open spec fn cancel_summary_spec(req: CancelInput, all_prefix: Seq<char>, stamp: Seq<char>, all_amount: Seq<char>) -> Option<
    (Seq<char>, Seq<char>, bool, Seq<char>),
> {
    match req.scope {
        CancelScope::Single { order_id } => match req.symbol {
            Some(s) => Some((order_id@, s@, true, "0"@)),
            None => None,
        },
        CancelScope::All { symbol } => Some(
            (
                all_prefix + stamp,
                match symbol {
                    Some(s) => s@,
                    None => Seq::empty(),
                },
                false,
                all_amount,
            ),
        ),
        CancelScope::BySymbol { symbol } => Some((all_prefix + stamp, symbol@, false, all_amount)),
        _ => None,
    }
}

/// `r` is the report `v` describes: status `Canceled`, side buy, no client
/// id or prices, good till cancelled; a zero-priced limit order for one
/// order, a market order for all.
pub open spec fn reports_cancel(r: Option<PlacedOrder>, v: Option<(Seq<char>, Seq<char>, bool, Seq<char>)>) -> bool {
    match r {
        Some(o) => {
            &&& v is Some
            &&& o.id@ == v->Some_0.0
            &&& o.symbol@ == v->Some_0.1
            &&& o.amount@ == v->Some_0.3
            &&& if v->Some_0.2 {
                o.kind is Limit && o.kind->Limit_price@ == "0"@
            } else {
                o.kind is Market
            }
            &&& o.status == OrderStatus::Canceled
            &&& o.side == OrderSide::Buy
            &&& o.client_order_id is None
            &&& o.price is None
            &&& o.stop_price is None
            &&& o.time_in_force == TimeInForce::Gtc
        },
        None => v is None,
    }
}

/// A cancel's report (see `cancel_summary_spec` and `reports_cancel`).
pub fn cancel_summary(req: &CancelInput, all_prefix: &str, stamp: &str, all_amount: &str) -> (r: Option<PlacedOrder>)
    ensures
        reports_cancel(r, cancel_summary_spec(*req, all_prefix@, stamp@, all_amount@)),
{
    proof {
        reveal_strlit("");
    }
    let (id, symbol, single, amount) = match &req.scope {
        CancelScope::Single { order_id } => match &req.symbol {
            Some(s) => (order_id.clone(), s.clone(), true, "0".to_owned()),
            None => return None,
        },
        CancelScope::All { symbol } => (
            crate::common::text::concat(all_prefix, stamp),
            match symbol {
                Some(s) => s.clone(),
                None => "".to_owned(),
            },
            false,
            all_amount.to_owned(),
        ),
        CancelScope::BySymbol { symbol } => (
            crate::common::text::concat(all_prefix, stamp),
            symbol.clone(),
            false,
            all_amount.to_owned(),
        ),
        _ => return None,
    };
    let ghost v = cancel_summary_spec(*req, all_prefix@, stamp@, all_amount@);
    assert(v is Some && id@ == v->Some_0.0 && symbol@ == v->Some_0.1 && amount@ == v->Some_0.3 && single == v->Some_0.2);
    let kind = if single {
        OrderKind::Limit { price: "0".to_owned() }
    } else {
        OrderKind::Market
    };
    let r = PlacedOrder {
        id,
        client_order_id: None,
        symbol,
        side: OrderSide::Buy,
        kind,
        status: OrderStatus::Canceled,
        price: None,
        stop_price: None,
        amount,
        time_in_force: TimeInForce::Gtc,
    };
    assert(reports_cancel(Some(r), v));
    Some(r)
}

/// A new quantity for an order: as text at the instrument's precision, and
/// as a whole number of contracts.
#[derive(Debug)]
pub struct AmendQuantity {
    pub amount: String,
    pub contracts: i64,
}

/// A change to a resting order: its new price, quantity or trigger price,
/// each when given.
#[derive(Debug)]
pub struct AmendInput {
    pub order_id: String,
    /// The exchange's symbol for the instrument.
    pub symbol: String,
    pub account_type: AccountType,
    pub price: Option<String>,
    pub quantity: Option<AmendQuantity>,
    pub trigger_price: Option<String>,
}

/// The message of an amend that changes neither price nor quantity.
pub open spec fn empty_amend_message() -> Seq<char> {
    "At least one of price or quantity must be provided for amend"@
}

/// A user-trade history filter; times in Unix milliseconds.
#[derive(Debug)]
pub struct UserTradeFilter {
    pub symbol: Option<String>,
    pub order_id: Option<String>,
    pub start_time: Option<u64>,
    pub end_time: Option<u64>,
    pub limit: Option<u32>,
}

} // verus!
