//! Gate.io REST requests as values: endpoints and JSON bodies for orders,
//! batches, position changes, cancels and sub-accounts; funds and transfer
//! history queries; and the records in their replies.

use vstd::prelude::*;
use crate::common::json::{Json, JsonV, members_view, push_member};
use crate::common::orders::{
    ExchangeError, MarginType, OrderInput, OrderKind, OrderSide, PositionChange, PositionInput,
    TimeInForce, is_spot_account, order_text, negate_text, negated_text, signed_size, size_for, spot_account,
};
use crate::common::text::{decimal_text, u64_text};
use crate::common::text::{concat, signed_decimal_text};
use crate::common::orders::{SubAccount, SubAccountOperation, SubAccountResult, CancelInput, CancelScope, error_matches};
use crate::common::orders::{AmendInput, empty_amend_message};
use crate::common::funds::{
    TransferFilter, TransferRecord, transfer_pairs, transfer_query_pairs, transfer_view, transfers_view, read_str,
    FundsFilter, FundsRecord, FundsRecordType, FundsRecordV, funds_pairs, funds_query_pairs, join_pairs, joined,
    record_from, record_of, record_view, records_view, str_or, int_member, read_i64, read_str_or,
};

verus! {

/// Where a Gate.io order request is posted.
#[derive(Debug, Clone, Copy, PartialEq, Eq, Structural)]
pub enum GateioEndpoint {
    /// `/spot/orders`
    SpotCreateOrder,
    /// `/futures/{settle}/orders`
    FuturesCreateOrder,
    /// `/spot/price_orders`
    SpotPriceOrders,
    /// `/futures/{settle}/price_orders`
    FuturesPriceOrders,
}

pub open spec fn str_v(s: Seq<char>) -> JsonV {
    JsonV::Str(s)
}

pub open spec fn num_v(n: int) -> JsonV {
    JsonV::Number(signed_decimal_text(n))
}

pub open spec fn side_text(side: OrderSide) -> Seq<char> {
    match side {
        OrderSide::Buy => "buy"@,
        OrderSide::Sell => "sell"@,
    }
}

/// Gate.io's time in force: IOC is `ioc`, FOK is `poc`, the rest `gtc`.
pub open spec fn gate_tif(t: TimeInForce) -> Seq<char> {
    match t {
        TimeInForce::Ioc => "ioc"@,
        TimeInForce::Fok => "poc"@,
        _ => "gtc"@,
    }
}

/// Spot trigger rule: a buy stop fires at or above, a sell stop at or below.
pub open spec fn trigger_rule(side: OrderSide) -> Seq<char> {
    match side {
        OrderSide::Buy => ">="@,
        OrderSide::Sell => "<="@,
    }
}

/// An optional price, `"0"` when absent.
pub open spec fn price_or_zero(p: Option<String>) -> Seq<char> {
    match p {
        Some(x) => x@,
        None => "0"@,
    }
}

/// A spot limit order body.
pub open spec fn spot_limit_v(req: OrderInput, price: Seq<char>, tif: Seq<char>, text: Seq<char>) -> JsonV {
    JsonV::Object(
        seq![
            ("currency_pair"@, str_v(req.symbol@)),
            ("side"@, str_v(side_text(req.side))),
            ("amount"@, str_v(req.amount@)),
            ("price"@, str_v(price)),
            ("type"@, str_v("limit"@)),
            ("time_in_force"@, str_v(tif)),
            ("text"@, str_v(text)),
        ],
    )
}

/// A futures order body: size signed by side.
pub open spec fn futures_order_v(req: OrderInput, price: Seq<char>, tif: Seq<char>, text: Seq<char>) -> JsonV {
    JsonV::Object(
        seq![
            ("contract"@, str_v(req.symbol@)),
            ("size"@, num_v(signed_size(req.side, req.contracts))),
            ("price"@, str_v(price)),
            ("tif"@, str_v(tif)),
            ("text"@, str_v(text)),
        ],
    )
}

/// A spot price-triggered order: the trigger, the order to put, the market.
pub open spec fn spot_trigger_v(req: OrderInput, stop: Seq<char>, put: JsonV, text: Seq<char>) -> JsonV {
    JsonV::Object(
        seq![
            (
                "trigger"@,
                JsonV::Object(
                    seq![
                        ("price"@, str_v(stop)),
                        ("rule"@, str_v(trigger_rule(req.side))),
                        ("expiration"@, num_v(86400)),
                    ],
                ),
            ),
            ("put"@, put),
            ("market"@, str_v(req.symbol@)),
            ("text"@, str_v(text)),
        ],
    )
}

/// Gate.io's futures trigger rule: 1 (at or above) for a buy, 2 (at or
/// below) for a sell.
pub open spec fn futures_rule(side: OrderSide) -> int {
    match side {
        OrderSide::Buy => 1,
        OrderSide::Sell => 2,
    }
}

/// A futures price-triggered order around its initial order.
pub open spec fn futures_trigger_v(side: OrderSide, stop: Seq<char>, initial: JsonV) -> JsonV {
    JsonV::Object(
        seq![
            (
                "trigger"@,
                JsonV::Object(
                    seq![
                        ("strategy_type"@, num_v(0)),
                        ("price_type"@, num_v(0)),
                        ("price"@, str_v(stop)),
                        ("rule"@, num_v(futures_rule(side))),
                        ("expiration"@, num_v(86400)),
                    ],
                ),
            ),
            ("initial"@, initial),
        ],
    )
}

/// The order Gate.io's spot price order puts when triggered.
pub open spec fn spot_put_v(req: OrderInput, limit: Option<Seq<char>>) -> JsonV {
    match limit {
        None => JsonV::Object(
            seq![
                ("type"@, str_v("market"@)),
                ("side"@, str_v(side_text(req.side))),
                ("amount"@, str_v(req.amount@)),
                ("account"@, str_v("spot"@)),
            ],
        ),
        Some(p) => JsonV::Object(
            seq![
                ("type"@, str_v("limit"@)),
                ("side"@, str_v(side_text(req.side))),
                ("amount"@, str_v(req.amount@)),
                ("price"@, str_v(p)),
                ("account"@, str_v("spot"@)),
                ("time_in_force"@, str_v("gtc"@)),
            ],
        ),
    }
}

/// Endpoint and body of a Gate.io order, or the error message.
pub open spec fn gateio_order_spec(req: OrderInput, generated: Seq<char>) -> Result<(GateioEndpoint, JsonV), Seq<char>> {
    let spot = is_spot_account(req.account_type);
    let text = order_text(req, generated);
    match req.kind {
        OrderKind::Market => if spot {
            Ok(
                (
                    GateioEndpoint::SpotCreateOrder,
                    JsonV::Object(
                        seq![
                            ("currency_pair"@, str_v(req.symbol@)),
                            ("side"@, str_v(side_text(req.side))),
                            ("amount"@, str_v(req.amount@)),
                            ("type"@, str_v("market"@)),
                            ("text"@, str_v(text)),
                        ],
                    ),
                ),
            )
        } else {
            Ok((GateioEndpoint::FuturesCreateOrder, futures_order_v(req, "0"@, "ioc"@, text)))
        },
        OrderKind::Limit { price } => if spot {
            Ok((GateioEndpoint::SpotCreateOrder, spot_limit_v(req, price@, gate_tif(req.time_in_force), text)))
        } else {
            Ok((GateioEndpoint::FuturesCreateOrder, futures_order_v(req, price@, gate_tif(req.time_in_force), text)))
        },
        OrderKind::PostOnly { price } => if spot {
            Ok((GateioEndpoint::SpotCreateOrder, spot_limit_v(req, price@, "poc"@, text)))
        } else {
            Ok((GateioEndpoint::FuturesCreateOrder, futures_order_v(req, price@, "poc"@, text)))
        },
        OrderKind::Ioc { price } => if spot {
            Ok((GateioEndpoint::SpotCreateOrder, spot_limit_v(req, price_or_zero(price), "ioc"@, text)))
        } else {
            Ok((GateioEndpoint::FuturesCreateOrder, futures_order_v(req, price_or_zero(price), "ioc"@, text)))
        },
        OrderKind::Fok { price } => if spot {
            Ok((GateioEndpoint::SpotCreateOrder, spot_limit_v(req, price@, "poc"@, text)))
        } else {
            Ok((GateioEndpoint::FuturesCreateOrder, futures_order_v(req, price@, "poc"@, text)))
        },
        OrderKind::ReduceOnly { price } => if spot {
            Err("ReduceOnly not supported for Spot on Gate.io"@)
        } else {
            Ok(
                (
                    GateioEndpoint::FuturesCreateOrder,
                    JsonV::Object(
                        seq![
                            ("contract"@, str_v(req.symbol@)),
                            ("size"@, num_v(signed_size(req.side, req.contracts))),
                            ("price"@, str_v(price_or_zero(price))),
                            ("tif"@, str_v(if price is Some { "gtc"@ } else { "ioc"@ })),
                            ("reduce_only"@, JsonV::Bool(true)),
                            ("text"@, str_v(text)),
                        ],
                    ),
                ),
            )
        },
        OrderKind::StopMarket { stop_price } => if spot {
            Ok((GateioEndpoint::SpotPriceOrders, spot_trigger_v(req, stop_price@, spot_put_v(req, None), text)))
        } else {
            Ok(
                (
                    GateioEndpoint::FuturesPriceOrders,
                    futures_trigger_v(req.side, stop_price@, futures_order_v(req, "0"@, "ioc"@, text)),
                ),
            )
        },
        OrderKind::StopLimit { stop_price, limit_price } => if spot {
            Ok(
                (
                    GateioEndpoint::SpotPriceOrders,
                    spot_trigger_v(req, stop_price@, spot_put_v(req, Some(limit_price@)), text),
                ),
            )
        } else {
            Ok(
                (
                    GateioEndpoint::FuturesPriceOrders,
                    futures_trigger_v(req.side, stop_price@, futures_order_v(req, limit_price@, "gtc"@, text)),
                ),
            )
        },
        OrderKind::Iceberg { price, display_amount, display_contracts } => if spot {
            Ok(
                (
                    GateioEndpoint::SpotCreateOrder,
                    JsonV::Object(
                        seq![
                            ("currency_pair"@, str_v(req.symbol@)),
                            ("side"@, str_v(side_text(req.side))),
                            ("amount"@, str_v(req.amount@)),
                            ("price"@, str_v(price@)),
                            ("type"@, str_v("limit"@)),
                            ("time_in_force"@, str_v("gtc"@)),
                            ("iceberg"@, str_v(display_amount@)),
                            ("text"@, str_v(text)),
                        ],
                    ),
                ),
            )
        } else {
            Ok(
                (
                    GateioEndpoint::FuturesCreateOrder,
                    JsonV::Object(
                        seq![
                            ("contract"@, str_v(req.symbol@)),
                            ("size"@, num_v(signed_size(req.side, req.contracts))),
                            ("price"@, str_v(price@)),
                            ("tif"@, str_v("gtc"@)),
                            ("iceberg"@, num_v(display_contracts as int)),
                            ("text"@, str_v(text)),
                        ],
                    ),
                ),
            )
        },
        OrderKind::Gtd { .. } => Err("Gtd order type not supported on Gateio"@),
        OrderKind::Oco { .. } => Err("Oco order type not supported on Gateio"@),
        OrderKind::TrailingStop { .. } => Err("TrailingStop order type not supported on Gateio"@),
        OrderKind::Bracket { .. } => Err("Bracket order type not supported on Gateio"@),
        OrderKind::Unsupported { name } => Err(name@ + " order type not supported on Gateio"@),
    }
}

fn side_str(side: OrderSide) -> (r: &'static str)
    ensures
        r@ == side_text(side),
{
    match side {
        OrderSide::Buy => "buy",
        OrderSide::Sell => "sell",
    }
}

fn tif_str(t: TimeInForce) -> (r: &'static str)
    ensures
        r@ == gate_tif(t),
{
    match t {
        TimeInForce::Ioc => "ioc",
        TimeInForce::Fok => "poc",
        _ => "gtc",
    }
}

fn opt_price(p: &Option<String>) -> (r: &str)
    ensures
        r@ == price_or_zero(*p),
{
    match p {
        Some(x) => x.as_str(),
        None => "0",
    }
}

fn spot_limit(req: &OrderInput, price: &str, tif: &str, text: &str) -> (r: Json)
    ensures
        r@ == spot_limit_v(*req, price@, tif@, text@),
{
    let mut m: Vec<(String, Json)> = Vec::new();
    push_member(&mut m, "currency_pair", Json::string(req.symbol.as_str()));
    push_member(&mut m, "side", Json::string(side_str(req.side)));
    push_member(&mut m, "amount", Json::string(req.amount.as_str()));
    push_member(&mut m, "price", Json::string(price));
    push_member(&mut m, "type", Json::string("limit"));
    push_member(&mut m, "time_in_force", Json::string(tif));
    push_member(&mut m, "text", Json::string(text));
    assert(members_view(m@) =~= spot_limit_v(*req, price@, tif@, text@)->Object_0);
    Json::Object(m)
}

fn futures_order(req: &OrderInput, price: &str, tif: &str, text: &str) -> (r: Json)
    requires
        req.side == OrderSide::Sell ==> req.contracts != i64::MIN,
    ensures
        r@ == futures_order_v(*req, price@, tif@, text@),
{
    let mut m: Vec<(String, Json)> = Vec::new();
    push_member(&mut m, "contract", Json::string(req.symbol.as_str()));
    push_member(&mut m, "size", Json::from_i64(size_for(req.side, req.contracts)));
    push_member(&mut m, "price", Json::string(price));
    push_member(&mut m, "tif", Json::string(tif));
    push_member(&mut m, "text", Json::string(text));
    assert(members_view(m@) =~= futures_order_v(*req, price@, tif@, text@)->Object_0);
    Json::Object(m)
}

fn spot_trigger(req: &OrderInput, stop: &str, put: Json, text: &str) -> (r: Json)
    ensures
        r@ == spot_trigger_v(*req, stop@, put@, text@),
{
    let ghost pv = put@;
    let mut t: Vec<(String, Json)> = Vec::new();
    push_member(&mut t, "price", Json::string(stop));
    push_member(&mut t, "rule", Json::string(if req.side == OrderSide::Buy { ">=" } else { "<=" }));
    push_member(&mut t, "expiration", Json::from_i64(86400));
    let ghost tv = JsonV::Object(
        seq![
            ("price"@, str_v(stop@)),
            ("rule"@, str_v(trigger_rule(req.side))),
            ("expiration"@, num_v(86400)),
        ],
    );
    assert(members_view(t@) =~= tv->Object_0);
    let mut m: Vec<(String, Json)> = Vec::new();
    push_member(&mut m, "trigger", Json::Object(t));
    push_member(&mut m, "put", put);
    push_member(&mut m, "market", Json::string(req.symbol.as_str()));
    push_member(&mut m, "text", Json::string(text));
    assert(members_view(m@) =~= spot_trigger_v(*req, stop@, pv, text@)->Object_0);
    Json::Object(m)
}

fn futures_trigger(side: OrderSide, stop: &str, initial: Json) -> (r: Json)
    ensures
        r@ == futures_trigger_v(side, stop@, initial@),
{
    let ghost iv = initial@;
    let mut t: Vec<(String, Json)> = Vec::new();
    push_member(&mut t, "strategy_type", Json::from_i64(0));
    push_member(&mut t, "price_type", Json::from_i64(0));
    push_member(&mut t, "price", Json::string(stop));
    push_member(&mut t, "rule", Json::from_i64(if side == OrderSide::Buy { 1 } else { 2 }));
    push_member(&mut t, "expiration", Json::from_i64(86400));
    let ghost tv = JsonV::Object(
        seq![
            ("strategy_type"@, num_v(0)),
            ("price_type"@, num_v(0)),
            ("price"@, str_v(stop@)),
            ("rule"@, num_v(futures_rule(side))),
            ("expiration"@, num_v(86400)),
        ],
    );
    assert(members_view(t@) =~= tv->Object_0);
    let mut m: Vec<(String, Json)> = Vec::new();
    push_member(&mut m, "trigger", Json::Object(t));
    push_member(&mut m, "initial", initial);
    assert(members_view(m@) =~= futures_trigger_v(side, stop@, iv)->Object_0);
    Json::Object(m)
}

fn spot_put(req: &OrderInput, limit: Option<&str>) -> (r: Json)
    ensures
        r@ == spot_put_v(
            *req,
            match limit {
                Some(p) => Some(p@),
                None => None,
            },
        ),
{
    let mut m: Vec<(String, Json)> = Vec::new();
    match limit {
        None => {
            push_member(&mut m, "type", Json::string("market"));
            push_member(&mut m, "side", Json::string(side_str(req.side)));
            push_member(&mut m, "amount", Json::string(req.amount.as_str()));
            push_member(&mut m, "account", Json::string("spot"));
            assert(members_view(m@) =~= spot_put_v(*req, None)->Object_0);
        },
        Some(p) => {
            push_member(&mut m, "type", Json::string("limit"));
            push_member(&mut m, "side", Json::string(side_str(req.side)));
            push_member(&mut m, "amount", Json::string(req.amount.as_str()));
            push_member(&mut m, "price", Json::string(p));
            push_member(&mut m, "account", Json::string("spot"));
            push_member(&mut m, "time_in_force", Json::string("gtc"));
            assert(members_view(m@) =~= spot_put_v(*req, Some(p@))->Object_0);
        },
    }
    Json::Object(m)
}

/// The endpoint and JSON body of a Gate.io order (its `text` is the client
/// order id, or `generated_text` without one): spot and margin accounts
/// use the spot book (`currency_pair`, `amount`), the others futures
/// (`contract`, a size that is negative for a sell). Stop orders go to the
/// price-order endpoints; reduce-only orders are refused on spot, and order
/// types Gate.io has no request for are refused by name.
pub fn gateio_order_request(req: &OrderInput, generated_text: &str) -> (r: Result<(GateioEndpoint, Json), ExchangeError>)
    requires
        !is_spot_account(req.account_type) && req.side == OrderSide::Sell ==> req.contracts != i64::MIN,
    ensures
        match r {
            Ok((e, j)) => gateio_order_spec(*req, generated_text@) == Ok::<(GateioEndpoint, JsonV), Seq<char>>((e, j@)),
            Err(ExchangeError::UnsupportedOperation(m)) => gateio_order_spec(*req, generated_text@) == Err::<
                (GateioEndpoint, JsonV),
                Seq<char>,
            >(m@),
            Err(_) => false,
        },
{
    let spot = spot_account(req.account_type);
    let text: &str = match &req.client_order_id {
        Some(c) => c.as_str(),
        None => generated_text,
    };
    match &req.kind {
        OrderKind::Market => {
            if spot {
                let mut m: Vec<(String, Json)> = Vec::new();
                push_member(&mut m, "currency_pair", Json::string(req.symbol.as_str()));
                push_member(&mut m, "side", Json::string(side_str(req.side)));
                push_member(&mut m, "amount", Json::string(req.amount.as_str()));
                push_member(&mut m, "type", Json::string("market"));
                push_member(&mut m, "text", Json::string(text));
                assert(members_view(m@) =~= seq![
                    ("currency_pair"@, str_v(req.symbol@)),
                    ("side"@, str_v(side_text(req.side))),
                    ("amount"@, str_v(req.amount@)),
                    ("type"@, str_v("market"@)),
                    ("text"@, str_v(text@)),
                ]);
                Ok((GateioEndpoint::SpotCreateOrder, Json::Object(m)))
            } else {
                Ok((GateioEndpoint::FuturesCreateOrder, futures_order(req, "0", "ioc", text)))
            }
        },
        OrderKind::Limit { price } => {
            let tif = tif_str(req.time_in_force);
            if spot {
                Ok((GateioEndpoint::SpotCreateOrder, spot_limit(req, price.as_str(), tif, text)))
            } else {
                Ok((GateioEndpoint::FuturesCreateOrder, futures_order(req, price.as_str(), tif, text)))
            }
        },
        OrderKind::PostOnly { price } => {
            if spot {
                Ok((GateioEndpoint::SpotCreateOrder, spot_limit(req, price.as_str(), "poc", text)))
            } else {
                Ok((GateioEndpoint::FuturesCreateOrder, futures_order(req, price.as_str(), "poc", text)))
            }
        },
        OrderKind::Ioc { price } => {
            let px = opt_price(price);
            if spot {
                Ok((GateioEndpoint::SpotCreateOrder, spot_limit(req, px, "ioc", text)))
            } else {
                Ok((GateioEndpoint::FuturesCreateOrder, futures_order(req, px, "ioc", text)))
            }
        },
        OrderKind::Fok { price } => {
            if spot {
                Ok((GateioEndpoint::SpotCreateOrder, spot_limit(req, price.as_str(), "poc", text)))
            } else {
                Ok((GateioEndpoint::FuturesCreateOrder, futures_order(req, price.as_str(), "poc", text)))
            }
        },
        OrderKind::ReduceOnly { price } => {
            if spot {
                return Err(
                    ExchangeError::UnsupportedOperation("ReduceOnly not supported for Spot on Gate.io".to_owned()),
                );
            }
            let px = opt_price(price);
            let tif = if price.is_some() { "gtc" } else { "ioc" };
            let mut m: Vec<(String, Json)> = Vec::new();
            push_member(&mut m, "contract", Json::string(req.symbol.as_str()));
            push_member(&mut m, "size", Json::from_i64(size_for(req.side, req.contracts)));
            push_member(&mut m, "price", Json::string(px));
            push_member(&mut m, "tif", Json::string(tif));
            push_member(&mut m, "reduce_only", Json::Bool(true));
            push_member(&mut m, "text", Json::string(text));
            assert(members_view(m@) =~= seq![
                ("contract"@, str_v(req.symbol@)),
                ("size"@, num_v(signed_size(req.side, req.contracts))),
                ("price"@, str_v(price_or_zero(*price))),
                ("tif"@, str_v(if price is Some { "gtc"@ } else { "ioc"@ })),
                ("reduce_only"@, JsonV::Bool(true)),
                ("text"@, str_v(text@)),
            ]);
            Ok((GateioEndpoint::FuturesCreateOrder, Json::Object(m)))
        },
        OrderKind::StopMarket { stop_price } => {
            if spot {
                let put = spot_put(req, None);
                Ok((GateioEndpoint::SpotPriceOrders, spot_trigger(req, stop_price.as_str(), put, text)))
            } else {
                let initial = futures_order(req, "0", "ioc", text);
                Ok((GateioEndpoint::FuturesPriceOrders, futures_trigger(req.side, stop_price.as_str(), initial)))
            }
        },
        OrderKind::StopLimit { stop_price, limit_price } => {
            if spot {
                let put = spot_put(req, Some(limit_price.as_str()));
                Ok((GateioEndpoint::SpotPriceOrders, spot_trigger(req, stop_price.as_str(), put, text)))
            } else {
                let initial = futures_order(req, limit_price.as_str(), "gtc", text);
                Ok((GateioEndpoint::FuturesPriceOrders, futures_trigger(req.side, stop_price.as_str(), initial)))
            }
        },
        OrderKind::Iceberg { price, display_amount, display_contracts } => {
            let mut m: Vec<(String, Json)> = Vec::new();
            if spot {
                push_member(&mut m, "currency_pair", Json::string(req.symbol.as_str()));
                push_member(&mut m, "side", Json::string(side_str(req.side)));
                push_member(&mut m, "amount", Json::string(req.amount.as_str()));
                push_member(&mut m, "price", Json::string(price.as_str()));
                push_member(&mut m, "type", Json::string("limit"));
                push_member(&mut m, "time_in_force", Json::string("gtc"));
                push_member(&mut m, "iceberg", Json::string(display_amount.as_str()));
                push_member(&mut m, "text", Json::string(text));
                assert(members_view(m@) =~= seq![
                    ("currency_pair"@, str_v(req.symbol@)),
                    ("side"@, str_v(side_text(req.side))),
                    ("amount"@, str_v(req.amount@)),
                    ("price"@, str_v(price@)),
                    ("type"@, str_v("limit"@)),
                    ("time_in_force"@, str_v("gtc"@)),
                    ("iceberg"@, str_v(display_amount@)),
                    ("text"@, str_v(text@)),
                ]);
                Ok((GateioEndpoint::SpotCreateOrder, Json::Object(m)))
            } else {
                push_member(&mut m, "contract", Json::string(req.symbol.as_str()));
                push_member(&mut m, "size", Json::from_i64(size_for(req.side, req.contracts)));
                push_member(&mut m, "price", Json::string(price.as_str()));
                push_member(&mut m, "tif", Json::string("gtc"));
                push_member(&mut m, "iceberg", Json::from_i64(*display_contracts));
                push_member(&mut m, "text", Json::string(text));
                assert(members_view(m@) =~= seq![
                    ("contract"@, str_v(req.symbol@)),
                    ("size"@, num_v(signed_size(req.side, req.contracts))),
                    ("price"@, str_v(price@)),
                    ("tif"@, str_v("gtc"@)),
                    ("iceberg"@, num_v(*display_contracts as int)),
                    ("text"@, str_v(text@)),
                ]);
                Ok((GateioEndpoint::FuturesCreateOrder, Json::Object(m)))
            }
        },
        OrderKind::Gtd { .. } => Err(refuse("Gtd order type not supported on Gateio")),
        OrderKind::Oco { .. } => Err(refuse("Oco order type not supported on Gateio")),
        OrderKind::TrailingStop { .. } => Err(refuse("TrailingStop order type not supported on Gateio")),
        OrderKind::Bracket { .. } => Err(refuse("Bracket order type not supported on Gateio")),
        OrderKind::Unsupported { name } => Err(
            ExchangeError::UnsupportedOperation(concat(name.as_str(), " order type not supported on Gateio")),
        ),
    }
}

/// Where a Gate.io position change is posted (all under `/futures/{settle}`,
/// for the position's contract where one is named).
#[derive(Debug, Clone, Copy, PartialEq, Eq, Structural)]
pub enum GateioPositionEndpoint {
    /// `/positions/{contract}/leverage`
    Leverage,
    /// `/positions/{contract}/margin`
    Margin,
    /// `/orders`
    CreateOrder,
    /// `/positions/{contract}`
    Position,
}

pub open spec fn one_member(k: Seq<char>, v: JsonV) -> JsonV {
    JsonV::Object(seq![(k, v)])
}

/// The members `take_profit_price` and `stop_loss_price`, each when given.
pub open spec fn tp_sl_v(tp: Option<String>, sl: Option<String>) -> JsonV {
    let a: Seq<(Seq<char>, JsonV)> = match tp {
        Some(t) => seq![("take_profit_price"@, str_v(t@))],
        None => Seq::empty(),
    };
    let b: Seq<(Seq<char>, JsonV)> = match sl {
        Some(t) => seq![("stop_loss_price"@, str_v(t@))],
        None => Seq::empty(),
    };
    JsonV::Object(a + b)
}

/// Endpoint and body of a Gate.io position change, or the error message.
pub open spec fn gateio_position_spec(req: PositionInput, stamp: Seq<char>) -> Result<(GateioPositionEndpoint, JsonV), Seq<char>> {
    let spot = is_spot_account(req.account_type);
    match req.change {
        PositionChange::SetLeverage { leverage } => if spot {
            Err("Leverage not supported for Spot/Margin"@)
        } else {
            Ok((GateioPositionEndpoint::Leverage, one_member("leverage"@, str_v(decimal_text(leverage as nat)))))
        },
        PositionChange::SetMarginMode { margin_type } => if spot {
            Err("SetMarginMode only supported for futures on Gate.io"@)
        } else {
            Ok(
                (
                    GateioPositionEndpoint::Leverage,
                    one_member(
                        "leverage"@,
                        str_v(if margin_type == MarginType::Cross { "0"@ } else { "10"@ }),
                    ),
                ),
            )
        },
        PositionChange::AddMargin { amount } => if spot {
            Err("AddMargin only supported for futures on Gate.io"@)
        } else {
            Ok((GateioPositionEndpoint::Margin, one_member("change"@, str_v(amount@))))
        },
        PositionChange::RemoveMargin { amount } => if spot {
            Err("RemoveMargin only supported for futures on Gate.io"@)
        } else {
            Ok((GateioPositionEndpoint::Margin, one_member("change"@, str_v(negated_text(amount@)))))
        },
        PositionChange::ClosePosition => if spot {
            Err("ClosePosition only supported for futures on Gate.io"@)
        } else {
            Ok(
                (
                    GateioPositionEndpoint::CreateOrder,
                    JsonV::Object(
                        seq![
                            ("contract"@, str_v(req.symbol@)),
                            ("size"@, num_v(0)),
                            ("price"@, str_v("0"@)),
                            ("tif"@, str_v("ioc"@)),
                            ("close"@, JsonV::Bool(true)),
                            ("text"@, str_v("cc_"@ + stamp)),
                        ],
                    ),
                ),
            )
        },
        PositionChange::SetTpSl { take_profit, stop_loss } => if spot {
            Err("SetTpSl only supported for futures on Gate.io"@)
        } else {
            Ok((GateioPositionEndpoint::Position, tp_sl_v(take_profit, stop_loss)))
        },
        PositionChange::SwitchPositionMode => Err("SwitchPositionMode not supported on Gate.io"@),
        PositionChange::MovePositions => Err("MovePositions not supported on Gate.io"@),
    }
}

fn single(k: &str, v: Json) -> (r: Json)
    ensures
        r@ == one_member(k@, v@),
{
    let mut m: Vec<(String, Json)> = Vec::new();
    push_member(&mut m, k, v);
    assert(members_view(m@) =~= seq![(k@, v@)]);
    Json::Object(m)
}

fn refuse(msg: &str) -> (r: ExchangeError)
    ensures
        r == ExchangeError::UnsupportedOperation(r->UnsupportedOperation_0),
        r->UnsupportedOperation_0@ == msg@,
{
    ExchangeError::UnsupportedOperation(msg.to_owned())
}

/// The endpoint and JSON body of a Gate.io position change. Every change but
/// the two Gate.io lacks is for futures only and refused on spot and margin;
/// removing margin posts the amount with its sign flipped; closing posts a
/// zero-size IOC order marked `close`, its text `cc_` and `stamp` (the time).
pub fn gateio_position_request(req: &PositionInput, stamp: &str) -> (r: Result<(GateioPositionEndpoint, Json), ExchangeError>)
    ensures
        match r {
            Ok((e, j)) => gateio_position_spec(*req, stamp@) == Ok::<(GateioPositionEndpoint, JsonV), Seq<char>>((e, j@)),
            Err(ExchangeError::UnsupportedOperation(m)) => gateio_position_spec(*req, stamp@) == Err::<
                (GateioPositionEndpoint, JsonV),
                Seq<char>,
            >(m@),
            Err(_) => false,
        },
{
    let spot = spot_account(req.account_type);
    match &req.change {
        PositionChange::SetLeverage { leverage } => {
            if spot {
                return Err(refuse("Leverage not supported for Spot/Margin"));
            }
            let t = u64_text(*leverage as u64);
            Ok((GateioPositionEndpoint::Leverage, single("leverage", Json::string(t.as_str()))))
        },
        PositionChange::SetMarginMode { margin_type } => {
            if spot {
                return Err(refuse("SetMarginMode only supported for futures on Gate.io"));
            }
            let lev = match margin_type {
                MarginType::Cross => "0",
                MarginType::Isolated => "10",
            };
            Ok((GateioPositionEndpoint::Leverage, single("leverage", Json::string(lev))))
        },
        PositionChange::AddMargin { amount } => {
            if spot {
                return Err(refuse("AddMargin only supported for futures on Gate.io"));
            }
            Ok((GateioPositionEndpoint::Margin, single("change", Json::string(amount.as_str()))))
        },
        PositionChange::RemoveMargin { amount } => {
            if spot {
                return Err(refuse("RemoveMargin only supported for futures on Gate.io"));
            }
            let neg = negate_text(amount.as_str());
            Ok((GateioPositionEndpoint::Margin, single("change", Json::string(neg.as_str()))))
        },
        PositionChange::ClosePosition => {
            if spot {
                return Err(refuse("ClosePosition only supported for futures on Gate.io"));
            }
            let mut m: Vec<(String, Json)> = Vec::new();
            push_member(&mut m, "contract", Json::string(req.symbol.as_str()));
            push_member(&mut m, "size", Json::from_i64(0));
            push_member(&mut m, "price", Json::string("0"));
            push_member(&mut m, "tif", Json::string("ioc"));
            push_member(&mut m, "close", Json::Bool(true));
            let text = concat("cc_", stamp);
            push_member(&mut m, "text", Json::string(text.as_str()));
            assert(members_view(m@) =~= seq![
                ("contract"@, str_v(req.symbol@)),
                ("size"@, num_v(0)),
                ("price"@, str_v("0"@)),
                ("tif"@, str_v("ioc"@)),
                ("close"@, JsonV::Bool(true)),
                ("text"@, str_v("cc_"@ + stamp@)),
            ]);
            Ok((GateioPositionEndpoint::CreateOrder, Json::Object(m)))
        },
        PositionChange::SetTpSl { take_profit, stop_loss } => {
            if spot {
                return Err(refuse("SetTpSl only supported for futures on Gate.io"));
            }
            let mut m: Vec<(String, Json)> = Vec::new();
            if let Some(tp) = take_profit {
                push_member(&mut m, "take_profit_price", Json::string(tp.as_str()));
            }
            if let Some(sl) = stop_loss {
                push_member(&mut m, "stop_loss_price", Json::string(sl.as_str()));
            }
            assert(members_view(m@) =~= tp_sl_v(*take_profit, *stop_loss)->Object_0);
            Ok((GateioPositionEndpoint::Position, Json::Object(m)))
        },
        PositionChange::SwitchPositionMode => Err(refuse("SwitchPositionMode not supported on Gate.io")),
        PositionChange::MovePositions => Err(refuse("MovePositions not supported on Gate.io")),
    }
}

/// Where a Gate.io funds history is read.
#[derive(Debug, Clone, Copy, PartialEq, Eq, Structural)]
pub enum GateioFundsEndpoint {
    /// `/wallet/deposits`
    DepositHistory,
    /// `/wallet/withdrawals`
    WithdrawalHistory,
}

/// Endpoint and query of a Gate.io funds history: deposits (also for both
/// kinds) or withdrawals; `currency`, `from` and `to` in seconds, `limit`
/// at most 1000, each when given, joined as `k=v&k=v`.
pub open spec fn gateio_funds_spec(f: FundsFilter) -> (GateioFundsEndpoint, Seq<char>) {
    (
        if f.record_type is Withdrawal {
            GateioFundsEndpoint::WithdrawalHistory
        } else {
            GateioFundsEndpoint::DepositHistory
        },
        joined(funds_pairs(f, "currency"@, "from"@, "to"@, "limit"@, 1000, 1000)),
    )
}

/// The endpoint and query string of a Gate.io funds history request.
pub fn gateio_funds_query(filter: &FundsFilter) -> (r: (GateioFundsEndpoint, String))
    ensures
        (r.0, r.1@) == gateio_funds_spec(*filter),
{
    let ep = match filter.record_type {
        FundsRecordType::Withdrawal => GateioFundsEndpoint::WithdrawalHistory,
        _ => GateioFundsEndpoint::DepositHistory,
    };
    let pairs = funds_query_pairs(filter, "currency", "from", "to", "limit", 1000, 1000);
    (ep, join_pairs(&pairs))
}

/// The items of a reply that is an array; none otherwise.
pub open spec fn array_items(v: JsonV) -> Seq<JsonV> {
    match v {
        JsonV::Array(items) => items,
        _ => Seq::empty(),
    }
}

/// Gate.io writes times in seconds: the record's time in milliseconds, 0 when absent.
pub open spec fn gate_timestamp(item: JsonV) -> int {
    match int_member(item, "timestamp"@) {
        Some(t) => t * 1000,
        None => 0,
    }
}

/// The withdrawal address: `withdraw_address` when present (empty unless a
/// string), else `address`.
pub open spec fn gate_address(item: JsonV) -> Seq<char> {
    match crate::common::json::member(item, "withdraw_address"@) {
        Some(m) => match crate::common::json::str_value(m) {
            Some(s) => s,
            None => Seq::empty(),
        },
        None => str_or(item, "address"@, Seq::empty()),
    }
}

/// Every record time, in milliseconds, fits in an `i64`.
pub open spec fn gate_times_fit(items: Seq<JsonV>) -> bool {
    forall|i: int|
        0 <= i < items.len() ==> match #[trigger] int_member(items[i], "timestamp"@) {
            Some(t) => i64::MIN <= t * 1000 <= i64::MAX,
            None => true,
        }
}

pub open spec fn gate_record(item: JsonV, record_type: FundsRecordType) -> FundsRecordV {
    record_of(item, !(record_type is Withdrawal), gate_timestamp(item), "txid"@, gate_address(item))
}

/// The records of a Gate.io funds history reply (an array; anything else has none).
pub open spec fn gateio_funds_records_spec(response: JsonV, record_type: FundsRecordType) -> Seq<FundsRecordV> {
    array_items(response).map_values(|item: JsonV| gate_record(item, record_type))
}

fn gate_address_of(item: &Json) -> (r: String)
    ensures
        r@ == gate_address(item@),
{
    proof {
        reveal_strlit("");
    }
    match item.get("withdraw_address") {
        Some(m) => match m.as_str() {
            Some(s) => s.to_owned(),
            None => {
                proof {
                    reveal_strlit("");
                }
                "".to_owned()
            },
        },
        None => read_str_or(item, "address", ""),
    }
}

/// The deposit or withdrawal records of a Gate.io funds history reply, one
/// per item, in order (`Both` reads deposits).
pub fn gateio_funds_records(response: &Json, record_type: FundsRecordType) -> (r: Vec<FundsRecord>)
    requires
        gate_times_fit(array_items(response@)),
    ensures
        records_view(r@) == gateio_funds_records_spec(response@, record_type),
{
    let mut out: Vec<FundsRecord> = Vec::new();
    let deposit = match record_type {
        FundsRecordType::Withdrawal => false,
        _ => true,
    };
    if let Some(items) = response.as_array() {
        let ghost spec_items = array_items(response@);
        proof {
            crate::common::json::lemma_items_view(items@);
        }
        let mut i: usize = 0;
        while i < items.len()
            invariant
                0 <= i <= items.len(),
                spec_items == crate::common::json::items_view(items@),
                spec_items.len() == items.len(),
                forall|k: int| 0 <= k < items.len() ==> #[trigger] spec_items[k] == items@[k]@,
                gate_times_fit(spec_items),
                deposit == !(record_type is Withdrawal),
                records_view(out@) == spec_items.take(i as int).map_values(|item: JsonV| gate_record(item, record_type)),
            decreases items.len() - i,
        {
            let item = &items[i];
            assert(spec_items[i as int] == item@);
            let ts: i64 = match read_i64(item, "timestamp") {
                Some(t) => {
                    assert(int_member(spec_items[i as int], "timestamp"@) == Some(t as int));
                    t * 1000
                },
                None => 0,
            };
            let address = gate_address_of(item);
            let rec = record_from(item, deposit, ts, "txid", address);
            assert(record_view(rec) == gate_record(spec_items[i as int], record_type));
            let ghost before = out@;
            out.push(rec);
            proof {
                assert(records_view(out@) =~= records_view(before).push(record_view(rec)));
                assert(spec_items.take(i as int + 1) =~= spec_items.take(i as int).push(spec_items[i as int]));
                assert(records_view(out@) =~= spec_items.take(i as int + 1).map_values(
                    |item: JsonV| gate_record(item, record_type),
                ));
            }
            i = i + 1;
        }
        proof {
            assert(spec_items.take(items.len() as int) =~= spec_items);
        }
    } else {
        proof {
            assert(records_view(out@) =~= gateio_funds_records_spec(response@, record_type));
        }
    }
    out
}

/// Where a Gate.io sub-account operation is sent: creating (POST), listing
/// (GET), transferring (POST) and reading a balance (GET, the user id in the
/// path).
#[derive(Debug, Clone, Copy, PartialEq, Eq, Structural)]
pub enum GateioSubEndpoint {
    /// `/sub_accounts`
    SubAccountCreate,
    /// `/sub_accounts`
    SubAccountList,
    /// `/sub_accounts/transfers`
    SubAccountTransfer,
    /// `/sub_accounts/{user_id}/balances`
    SubAccountBalance,
}

/// Endpoint, path argument and body of a Gate.io sub-account operation; a
/// transfer goes `to` the sub-account or `from` it.
pub open spec fn gateio_sub_account_spec(op: SubAccountOperation) -> (GateioSubEndpoint, Option<Seq<char>>, Option<JsonV>) {
    match op {
        SubAccountOperation::Create { label } => (
            GateioSubEndpoint::SubAccountCreate,
            None,
            Some(one_member("login_name"@, str_v(label@))),
        ),
        SubAccountOperation::List => (GateioSubEndpoint::SubAccountList, None, None),
        SubAccountOperation::Transfer { sub_account_id, asset, amount, to_sub } => (
            GateioSubEndpoint::SubAccountTransfer,
            None,
            Some(
                JsonV::Object(
                    seq![
                        ("currency"@, str_v(asset@)),
                        ("sub_account"@, str_v(sub_account_id@)),
                        ("direction"@, str_v(if to_sub { "to"@ } else { "from"@ })),
                        ("amount"@, str_v(amount@)),
                        ("sub_account_type"@, str_v("spot"@)),
                    ],
                ),
            ),
        ),
        SubAccountOperation::GetBalance { sub_account_id } => (
            GateioSubEndpoint::SubAccountBalance,
            Some(sub_account_id@),
            None,
        ),
    }
}

pub open spec fn opt_json_v(o: Option<Json>) -> Option<JsonV> {
    match o {
        Some(j) => Some(j@),
        None => None,
    }
}

pub open spec fn opt_seq(o: Option<String>) -> Option<Seq<char>> {
    match o {
        Some(s) => Some(s@),
        None => None,
    }
}

/// The endpoint, path argument and JSON body of a Gate.io sub-account operation.
pub fn gateio_sub_account_request(op: &SubAccountOperation) -> (r: (GateioSubEndpoint, Option<String>, Option<Json>))
    ensures
        (r.0, opt_seq(r.1), opt_json_v(r.2)) == gateio_sub_account_spec(*op),
{
    match op {
        SubAccountOperation::Create { label } => (
            GateioSubEndpoint::SubAccountCreate,
            None,
            Some(single("login_name", Json::string(label.as_str()))),
        ),
        SubAccountOperation::List => (GateioSubEndpoint::SubAccountList, None, None),
        SubAccountOperation::Transfer { sub_account_id, asset, amount, to_sub } => {
            let mut m: Vec<(String, Json)> = Vec::new();
            push_member(&mut m, "currency", Json::string(asset.as_str()));
            push_member(&mut m, "sub_account", Json::string(sub_account_id.as_str()));
            push_member(&mut m, "direction", Json::string(if *to_sub { "to" } else { "from" }));
            push_member(&mut m, "amount", Json::string(amount.as_str()));
            push_member(&mut m, "sub_account_type", Json::string("spot"));
            proof {
                assert(members_view(m@) =~= seq![
                    ("currency"@, str_v(asset@)),
                    ("sub_account"@, str_v(sub_account_id@)),
                    ("direction"@, str_v(if *to_sub { "to"@ } else { "from"@ })),
                    ("amount"@, str_v(amount@)),
                    ("sub_account_type"@, str_v("spot"@)),
                ]);
            }
            (GateioSubEndpoint::SubAccountTransfer, None, Some(Json::Object(m)))
        },
        SubAccountOperation::GetBalance { sub_account_id } => (
            GateioSubEndpoint::SubAccountBalance,
            Some(sub_account_id.clone()),
            None,
        ),
    }
}

/// The decimal text of the `i64` number at `k`; empty when there is none.
pub open spec fn int_text_member(v: JsonV, k: Seq<char>) -> Seq<char> {
    match int_member(v, k) {
        Some(n) => signed_decimal_text(n),
        None => Seq::empty(),
    }
}

/// One listed Gate.io sub-account: `user_id` as text, `login_name`, and
/// `Normal` for state 1 (or no state), `Locked` for another state.
pub open spec fn gate_listed_account(item: JsonV) -> (Seq<char>, Seq<char>, Seq<char>) {
    (
        int_text_member(item, "user_id"@),
        str_or(item, "login_name"@, Seq::empty()),
        match int_member(item, "state"@) {
            Some(s) => if s == 1 { "Normal"@ } else { "Locked"@ },
            None => "Normal"@,
        },
    )
}

pub open spec fn gate_accounts_view(v: Seq<SubAccount>) -> Seq<(Seq<char>, Seq<char>, Seq<char>)> {
    v.map_values(|a: SubAccount| (a.id@, a.name@, a.status@))
}

/// What a Gate.io sub-account operation reports, read from the reply: a
/// created account's `user_id` and `login_name` (else the label); the listed
/// accounts; a transfer's id, `sub_tx_` and the time text `stamp`.
pub open spec fn gateio_sub_account_result_spec(op: SubAccountOperation, response: JsonV, stamp: Seq<char>) -> (
    Option<Seq<char>>,
    Option<Seq<char>>,
    Seq<(Seq<char>, Seq<char>, Seq<char>)>,
    Option<Seq<char>>,
) {
    match op {
        SubAccountOperation::Create { label } => (
            Some(int_text_member(response, "user_id"@)),
            Some(str_or(response, "login_name"@, label@)),
            Seq::empty(),
            None,
        ),
        SubAccountOperation::List => (
            None,
            None,
            array_items(response).map_values(|item: JsonV| gate_listed_account(item)),
            None,
        ),
        SubAccountOperation::Transfer { sub_account_id, .. } => (
            Some(sub_account_id@),
            None,
            Seq::empty(),
            Some("sub_tx_"@ + stamp),
        ),
        SubAccountOperation::GetBalance { sub_account_id } => (Some(sub_account_id@), None, Seq::empty(), None),
    }
}

fn read_int_text(item: &Json, k: &str) -> (r: String)
    ensures
        r@ == int_text_member(item@, k@),
{
    match read_i64(item, k) {
        Some(n) => crate::common::text::i64_text(n),
        None => {
            proof {
                reveal_strlit("");
            }
            "".to_owned()
        },
    }
}

fn gate_listed_accounts(response: &Json) -> (r: Vec<SubAccount>)
    ensures
        gate_accounts_view(r@) == array_items(response@).map_values(|item: JsonV| gate_listed_account(item)),
{
    let mut out: Vec<SubAccount> = Vec::new();
    if let Some(items) = response.as_array() {
        let ghost spec_items = array_items(response@);
        proof {
            crate::common::json::lemma_items_view(items@);
        }
        let mut i: usize = 0;
        while i < items.len()
            invariant
                0 <= i <= items.len(),
                spec_items == crate::common::json::items_view(items@),
                spec_items.len() == items.len(),
                forall|k: int| 0 <= k < items.len() ==> #[trigger] spec_items[k] == items@[k]@,
                gate_accounts_view(out@) == spec_items.take(i as int).map_values(
                    |item: JsonV| gate_listed_account(item),
                ),
            decreases items.len() - i,
        {
            let item = &items[i];
            proof {
                reveal_strlit("");
            }
            let status = match read_i64(item, "state") {
                Some(st) => if st == 1 {
                    "Normal".to_owned()
                } else {
                    "Locked".to_owned()
                },
                None => "Normal".to_owned(),
            };
            let a = SubAccount { id: read_int_text(item, "user_id"), name: read_str_or(item, "login_name", ""), status };
            assert((a.id@, a.name@, a.status@) == gate_listed_account(spec_items[i as int]));
            let ghost before = out@;
            out.push(a);
            proof {
                assert(gate_accounts_view(out@) =~= gate_accounts_view(before).push((a.id@, a.name@, a.status@)));
                assert(spec_items.take(i as int + 1) =~= spec_items.take(i as int).push(spec_items[i as int]));
                assert(gate_accounts_view(out@) =~= spec_items.take(i as int + 1).map_values(
                    |item: JsonV| gate_listed_account(item),
                ));
            }
            i = i + 1;
        }
        proof {
            assert(spec_items.take(items.len() as int) =~= spec_items);
        }
    } else {
        proof {
            assert(gate_accounts_view(out@) =~= array_items(response@).map_values(
                |item: JsonV| gate_listed_account(item),
            ));
        }
    }
    out
}

/// What a Gate.io sub-account operation reports, from its reply (`stamp`
/// is the time text a transfer's id is made from).
pub fn gateio_sub_account_result(op: &SubAccountOperation, response: &Json, stamp: &str) -> (r: SubAccountResult)
    ensures
        ({
            let v = gateio_sub_account_result_spec(*op, response@, stamp@);
            &&& opt_seq(r.id) == v.0
            &&& opt_seq(r.name) == v.1
            &&& gate_accounts_view(r.accounts@) == v.2
            &&& opt_seq(r.transaction_id) == v.3
        }),
{
    let none: Vec<SubAccount> = Vec::new();
    proof {
        assert(gate_accounts_view(none@) =~= Seq::empty());
    }
    match op {
        SubAccountOperation::Create { label } => {
            let id = read_int_text(response, "user_id");
            let name = read_str_or(response, "login_name", label.as_str());
            SubAccountResult { id: Some(id), name: Some(name), accounts: none, transaction_id: None }
        },
        SubAccountOperation::List => {
            let accounts = gate_listed_accounts(response);
            SubAccountResult { id: None, name: None, accounts, transaction_id: None }
        },
        SubAccountOperation::Transfer { sub_account_id, .. } => SubAccountResult {
            id: Some(sub_account_id.clone()),
            name: None,
            accounts: none,
            transaction_id: Some(concat("sub_tx_", stamp)),
        },
        SubAccountOperation::GetBalance { sub_account_id } => SubAccountResult {
            id: Some(sub_account_id.clone()),
            name: None,
            accounts: none,
            transaction_id: None,
        },
    }
}

/// Where a single Gate.io order is cancelled.
#[derive(Debug, Clone, Copy, PartialEq, Eq, Structural)]
pub enum GateioCancelEndpoint {
    /// `/spot/orders/{order_id}`
    SpotCancelOrder,
    /// `/futures/{settle}/orders/{order_id}`
    FuturesCancelOrder,
}

/// What a Gate.io cancel does.
#[derive(Debug)]
pub enum GateioCancelPlan {
    /// Deletes one order, its market named by the one query parameter.
    One { endpoint: GateioCancelEndpoint, order_id: String, market: (String, String) },
    /// Cancels every open order, of the symbol when one is given.
    All { symbol: Option<String> },
}

pub ghost enum GateioCancelPlanV {
    One { endpoint: GateioCancelEndpoint, order_id: Seq<char>, market: (Seq<char>, Seq<char>) },
    All { symbol: Option<Seq<char>> },
}

pub open spec fn gate_cancel_view(p: GateioCancelPlan) -> GateioCancelPlanV {
    match p {
        GateioCancelPlan::One { endpoint, order_id, market } => GateioCancelPlanV::One {
            endpoint,
            order_id: order_id@,
            market: (market.0@, market.1@),
        },
        GateioCancelPlan::All { symbol } => GateioCancelPlanV::All { symbol: opt_seq(symbol) },
    }
}

/// What a Gate.io cancel does, or the error (invalid request flag and
/// message): one order needs a symbol, sent as `currency_pair` on spot and
/// margin and `contract` otherwise; batches and other scopes are refused.
pub open spec fn gateio_cancel_spec(req: CancelInput) -> Result<GateioCancelPlanV, (bool, Seq<char>)> {
    let spot = is_spot_account(req.account_type);
    match req.scope {
        CancelScope::Single { order_id } => match req.symbol {
            None => Err((true, "Symbol required for cancel"@)),
            Some(sym) => Ok(
                GateioCancelPlanV::One {
                    endpoint: if spot {
                        GateioCancelEndpoint::SpotCancelOrder
                    } else {
                        GateioCancelEndpoint::FuturesCancelOrder
                    },
                    order_id: order_id@,
                    market: (if spot { "currency_pair"@ } else { "contract"@ }, sym@),
                },
            ),
        },
        CancelScope::All { symbol } => Ok(GateioCancelPlanV::All { symbol: opt_seq(symbol) }),
        CancelScope::BySymbol { symbol } => Ok(GateioCancelPlanV::All { symbol: Some(symbol@) }),
        CancelScope::Batch { .. } => Err((false, "Gate.io does not support batch cancel. Cancel orders individually."@)),
        CancelScope::Other => Err((false, "Gate.io does not support this cancel scope"@)),
    }
}

/// What a Gate.io cancel request does (see `gateio_cancel_spec`).
pub fn gateio_cancel_request(req: &CancelInput) -> (r: Result<GateioCancelPlan, ExchangeError>)
    ensures
        match r {
            Ok(p) => gateio_cancel_spec(*req) == Ok::<GateioCancelPlanV, (bool, Seq<char>)>(gate_cancel_view(p)),
            Err(e) => gateio_cancel_spec(*req) is Err && error_matches(e, gateio_cancel_spec(*req)->Err_0),
        },
{
    let spot = spot_account(req.account_type);
    match &req.scope {
        CancelScope::Single { order_id } => match &req.symbol {
            None => Err(ExchangeError::InvalidRequest("Symbol required for cancel".to_owned())),
            Some(sym) => {
                let endpoint = if spot {
                    GateioCancelEndpoint::SpotCancelOrder
                } else {
                    GateioCancelEndpoint::FuturesCancelOrder
                };
                let key = if spot { "currency_pair" } else { "contract" };
                Ok(GateioCancelPlan::One { endpoint, order_id: order_id.clone(), market: (key.to_owned(), sym.clone()) })
            },
        },
        CancelScope::All { symbol } => Ok(GateioCancelPlan::All { symbol: symbol.clone() }),
        CancelScope::BySymbol { symbol } => Ok(GateioCancelPlan::All { symbol: Some(symbol.clone()) }),
        CancelScope::Batch { .. } => Err(
            ExchangeError::UnsupportedOperation(
                "Gate.io does not support batch cancel. Cancel orders individually.".to_owned(),
            ),
        ),
        CancelScope::Other => Err(ExchangeError::UnsupportedOperation("Gate.io does not support this cancel scope".to_owned())),
    }
}

/// Where a Gate.io order batch is posted.
#[derive(Debug, Clone, Copy, PartialEq, Eq, Structural)]
pub enum GateioBatchEndpoint {
    /// `/spot/batch_orders`
    SpotBatchOrders,
    /// `/futures/{settle}/batch_orders`
    FuturesBatchOrders,
}

/// The `text` member of a batch order with a client id: `t-` and the id.
pub open spec fn batch_text(req: OrderInput) -> Seq<(Seq<char>, JsonV)> {
    match req.client_order_id {
        Some(c) => seq![("text"@, str_v("t-"@ + c@))],
        None => Seq::empty(),
    }
}

/// One order of a Gate.io batch: spot orders are limit orders (with their
/// price) unless market; futures orders carry the contract count unsigned,
/// `ioc` and price `0` for a market order, and `close` when reduce-only.
pub open spec fn gate_batch_item(req: OrderInput, spot: bool) -> JsonV {
    if spot {
        let head = seq![
            ("currency_pair"@, str_v(req.symbol@)),
            ("type"@, str_v(if req.kind is Market { "market"@ } else { "limit"@ })),
            ("side"@, str_v(side_text(req.side))),
            ("amount"@, str_v(req.amount@)),
        ];
        let priced = match req.kind {
            OrderKind::Limit { price } => head.push(("price"@, str_v(price@))),
            _ => head,
        };
        JsonV::Object(priced + batch_text(req))
    } else {
        let head = seq![
            ("contract"@, str_v(req.symbol@)),
            ("size"@, num_v(req.contracts as int)),
            ("tif"@, str_v(if req.kind is Market { "ioc"@ } else { "gtc"@ })),
            (
                "price"@,
                str_v(
                    match req.kind {
                        OrderKind::Limit { price } => price@,
                        _ => "0"@,
                    },
                ),
            ),
        ];
        let closing = if req.reduce_only { head.push(("close"@, JsonV::Bool(true))) } else { head };
        JsonV::Object(closing + batch_text(req))
    }
}

/// Endpoint and body of a Gate.io order batch (all orders in the first
/// order's account type), `None` for no orders, or the error message when the
/// batch is over the limit (10 on spot and margin, 20 otherwise).
pub open spec fn gateio_batch_spec(orders: Seq<OrderInput>) -> Result<Option<(GateioBatchEndpoint, JsonV)>, Seq<char>> {
    if orders.len() == 0 {
        Ok(None)
    } else {
        let spot = is_spot_account(orders[0].account_type);
        let limit: nat = if spot { 10 } else { 20 };
        if orders.len() > limit {
            Err(
                "Batch size "@ + decimal_text(orders.len()) + " exceeds Gate.io "@ + (if spot { "Spot"@ } else { "Futures"@ })
                    + " limit of "@ + decimal_text(limit),
            )
        } else {
            Ok(
                Some(
                    (
                        if spot { GateioBatchEndpoint::SpotBatchOrders } else { GateioBatchEndpoint::FuturesBatchOrders },
                        JsonV::Array(orders.map_values(|req: OrderInput| gate_batch_item(req, spot))),
                    ),
                ),
            )
        }
    }
}

fn push_batch_text(m: &mut Vec<(String, Json)>, req: &OrderInput)
    ensures
        members_view(final(m)@) == members_view(old(m)@) + batch_text(*req),
{
    match &req.client_order_id {
        Some(c) => {
            let t = concat("t-", c.as_str());
            push_member(m, "text", Json::string(t.as_str()));
        },
        None => {
            assert(members_view(m@) =~= members_view(old(m)@) + batch_text(*req));
        },
    }
}

fn gate_batch_order(req: &OrderInput, spot: bool) -> (r: Json)
    ensures
        r@ == gate_batch_item(*req, spot),
{
    let mut m: Vec<(String, Json)> = Vec::new();
    let market = match req.kind {
        OrderKind::Market => true,
        _ => false,
    };
    if spot {
        push_member(&mut m, "currency_pair", Json::string(req.symbol.as_str()));
        push_member(&mut m, "type", Json::string(if market { "market" } else { "limit" }));
        push_member(&mut m, "side", Json::string(side_str(req.side)));
        push_member(&mut m, "amount", Json::string(req.amount.as_str()));
        if let OrderKind::Limit { price } = &req.kind {
            push_member(&mut m, "price", Json::string(price.as_str()));
        }
    } else {
        push_member(&mut m, "contract", Json::string(req.symbol.as_str()));
        push_member(&mut m, "size", Json::from_i64(req.contracts));
        push_member(&mut m, "tif", Json::string(if market { "ioc" } else { "gtc" }));
        match &req.kind {
            OrderKind::Limit { price } => push_member(&mut m, "price", Json::string(price.as_str())),
            _ => push_member(&mut m, "price", Json::string("0")),
        }
        if req.reduce_only {
            push_member(&mut m, "close", Json::Bool(true));
        }
    }
    let ghost head = members_view(m@);
    push_batch_text(&mut m, req);
    proof {
        let rq = *req;
        if spot {
            let h = seq![
                ("currency_pair"@, str_v(rq.symbol@)),
                ("type"@, str_v(if rq.kind is Market { "market"@ } else { "limit"@ })),
                ("side"@, str_v(side_text(rq.side))),
                ("amount"@, str_v(rq.amount@)),
            ];
            let priced = match rq.kind {
                OrderKind::Limit { price } => h.push(("price"@, str_v(price@))),
                _ => h,
            };
            assert(head =~= priced);
        } else {
            let h = seq![
                ("contract"@, str_v(rq.symbol@)),
                ("size"@, num_v(rq.contracts as int)),
                ("tif"@, str_v(if rq.kind is Market { "ioc"@ } else { "gtc"@ })),
                (
                    "price"@,
                    str_v(
                        match rq.kind {
                            OrderKind::Limit { price } => price@,
                            _ => "0"@,
                        },
                    ),
                ),
            ];
            let closing = if rq.reduce_only { h.push(("close"@, JsonV::Bool(true))) } else { h };
            assert(head =~= closing);
        }
    }
    Json::Object(m)
}

/// The endpoint and JSON body of a Gate.io order batch (see `gateio_batch_spec`).
pub fn gateio_batch_request(orders: &Vec<OrderInput>) -> (r: Result<Option<(GateioBatchEndpoint, Json)>, ExchangeError>)
    ensures
        match r {
            Ok(None) => gateio_batch_spec(orders@) == Ok::<Option<(GateioBatchEndpoint, JsonV)>, Seq<char>>(None),
            Ok(Some((e, j))) => gateio_batch_spec(orders@) == Ok::<Option<(GateioBatchEndpoint, JsonV)>, Seq<char>>(
                Some((e, j@)),
            ),
            Err(ExchangeError::InvalidRequest(m)) => gateio_batch_spec(orders@) == Err::<
                Option<(GateioBatchEndpoint, JsonV)>,
                Seq<char>,
            >(m@),
            Err(_) => false,
        },
{
    if orders.len() == 0 {
        return Ok(None);
    }
    let spot = spot_account(orders[0].account_type);
    let limit: usize = if spot { 10 } else { 20 };
    if orders.len() > limit {
        let mut msg = concat("Batch size ", u64_text(orders.len() as u64).as_str());
        crate::common::text::push_str(&mut msg, " exceeds Gate.io ");
        crate::common::text::push_str(&mut msg, if spot { "Spot" } else { "Futures" });
        crate::common::text::push_str(&mut msg, " limit of ");
        crate::common::text::push_str(&mut msg, u64_text(limit as u64).as_str());
        return Err(ExchangeError::InvalidRequest(msg));
    }
    let mut items: Vec<Json> = Vec::new();
    let mut i: usize = 0;
    while i < orders.len()
        invariant
            0 <= i <= orders.len(),
            spot == is_spot_account(orders@[0].account_type),
            crate::common::json::items_view(items@) == orders@.take(i as int).map_values(
                |req: OrderInput| gate_batch_item(req, spot),
            ),
        decreases orders.len() - i,
    {
        let item = gate_batch_order(&orders[i], spot);
        crate::common::json::push_item(&mut items, item);
        assert(orders@.take(i as int + 1) =~= orders@.take(i as int).push(orders@[i as int]));
        assert(crate::common::json::items_view(items@) =~= orders@.take(i as int + 1).map_values(
            |req: OrderInput| gate_batch_item(req, spot),
        ));
        i = i + 1;
    }
    assert(orders@.take(orders.len() as int) =~= orders@);
    let endpoint = if spot { GateioBatchEndpoint::SpotBatchOrders } else { GateioBatchEndpoint::FuturesBatchOrders };
    Ok(Some((endpoint, Json::Array(items))))
}

/// The query of a Gate.io transfer history: `from` and `to` in seconds,
/// `limit` at most 1000, each when given, joined as `k=v&k=v`.
pub open spec fn gateio_transfer_query_spec(f: TransferFilter) -> Seq<char> {
    joined(transfer_pairs(f, "from"@, "to"@, "limit"@, 1000, 1000))
}

/// The query string of a Gate.io transfer history request.
pub fn gateio_transfer_query(filter: &TransferFilter) -> (r: String)
    ensures
        r@ == gateio_transfer_query_spec(*filter),
{
    let pairs = transfer_query_pairs(filter, "from", "to", "limit", 1000, 1000);
    join_pairs(&pairs)
}

/// One Gate.io transfer: `id` in decimal (empty when absent), the currency,
/// the amount text, status `Successful`, and the time in milliseconds.
pub open spec fn gate_transfer(item: JsonV) -> (Seq<char>, Seq<char>, Seq<char>, Option<Seq<char>>, Option<int>) {
    (
        int_text_member(item, "id"@),
        "Successful"@,
        str_or(item, "currency"@, Seq::empty()),
        crate::common::json::str_member(item, "amount"@),
        match int_member(item, "timestamp"@) {
            Some(t) => Some(t * 1000),
            None => None,
        },
    )
}

/// The transfers of a Gate.io transfer history reply (an array).
pub open spec fn gateio_transfers_spec(response: JsonV) -> Seq<(Seq<char>, Seq<char>, Seq<char>, Option<Seq<char>>, Option<int>)> {
    array_items(response).map_values(|item: JsonV| gate_transfer(item))
}

/// The transfers of a Gate.io transfer history reply, one per item, in order.
pub fn gateio_transfer_records(response: &Json) -> (r: Vec<TransferRecord>)
    requires
        gate_times_fit(array_items(response@)),
    ensures
        transfers_view(r@) == gateio_transfers_spec(response@),
{
    let mut out: Vec<TransferRecord> = Vec::new();
    if let Some(items) = response.as_array() {
        let ghost spec_items = array_items(response@);
        proof {
            crate::common::json::lemma_items_view(items@);
        }
        let mut i: usize = 0;
        while i < items.len()
            invariant
                0 <= i <= items.len(),
                spec_items == crate::common::json::items_view(items@),
                spec_items.len() == items.len(),
                forall|k: int| 0 <= k < items.len() ==> #[trigger] spec_items[k] == items@[k]@,
                gate_times_fit(spec_items),
                transfers_view(out@) == spec_items.take(i as int).map_values(|item: JsonV| gate_transfer(item)),
            decreases items.len() - i,
        {
            let item = &items[i];
            assert(spec_items[i as int] == item@);
            let timestamp: Option<i64> = match read_i64(item, "timestamp") {
                Some(t) => {
                    assert(int_member(spec_items[i as int], "timestamp"@) == Some(t as int));
                    Some(t * 1000)
                },
                None => None,
            };
            proof {
                reveal_strlit("");
            }
            let rec = TransferRecord {
                transfer_id: read_int_text(item, "id"),
                status: "Successful".to_owned(),
                asset: read_str_or(item, "currency", ""),
                amount: read_str(item, "amount"),
                timestamp,
            };
            assert(transfer_view(rec) == gate_transfer(spec_items[i as int]));
            let ghost before = out@;
            out.push(rec);
            proof {
                assert(transfers_view(out@) =~= transfers_view(before).push(transfer_view(rec)));
                assert(spec_items.take(i as int + 1) =~= spec_items.take(i as int).push(spec_items[i as int]));
                assert(transfers_view(out@) =~= spec_items.take(i as int + 1).map_values(
                    |item: JsonV| gate_transfer(item),
                ));
            }
            i = i + 1;
        }
        proof {
            assert(spec_items.take(items.len() as int) =~= spec_items);
        }
    } else {
        proof {
            assert(transfers_view(out@) =~= gateio_transfers_spec(response@));
        }
    }
    out
}

/// Where a Gate.io amend is sent (PATCH, the order id in the path).
#[derive(Debug, Clone, Copy, PartialEq, Eq, Structural)]
pub enum GateioAmendEndpoint {
    /// `/spot/orders/{order_id}`
    SpotOrder,
    /// `/futures/{settle}/orders/{order_id}`
    FuturesOrder,
}

/// Endpoint and body of a Gate.io amend, or the error message (neither price
/// nor quantity given): spot and margin name the pair and take the quantity
/// as `amount`; futures take it as an integer `size`.
pub open spec fn gateio_amend_spec(req: AmendInput) -> Result<(GateioAmendEndpoint, JsonV), Seq<char>> {
    if req.price is None && req.quantity is None {
        Err(empty_amend_message())
    } else if is_spot_account(req.account_type) {
        Ok(
            (
                GateioAmendEndpoint::SpotOrder,
                JsonV::Object(
                    seq![("currency_pair"@, str_v(req.symbol@))] + (match req.price {
                        Some(p) => seq![("price"@, str_v(p@))],
                        None => Seq::empty(),
                    }) + (match req.quantity {
                        Some(q) => seq![("amount"@, str_v(q.amount@))],
                        None => Seq::empty(),
                    }),
                ),
            ),
        )
    } else {
        Ok(
            (
                GateioAmendEndpoint::FuturesOrder,
                JsonV::Object(
                    (match req.price {
                        Some(p) => seq![("price"@, str_v(p@))],
                        None => Seq::<(Seq<char>, JsonV)>::empty(),
                    }) + (match req.quantity {
                        Some(q) => seq![("size"@, num_v(q.contracts as int))],
                        None => Seq::empty(),
                    }),
                ),
            ),
        )
    }
}

/// The endpoint and JSON body of a Gate.io amend (see `gateio_amend_spec`).
pub fn gateio_amend_request(req: &AmendInput) -> (r: Result<(GateioAmendEndpoint, Json), ExchangeError>)
    ensures
        match r {
            Ok((e, j)) => gateio_amend_spec(*req) == Ok::<(GateioAmendEndpoint, JsonV), Seq<char>>((e, j@)),
            Err(ExchangeError::InvalidRequest(m)) => gateio_amend_spec(*req) == Err::<(GateioAmendEndpoint, JsonV), Seq<char>>(
                m@,
            ),
            Err(_) => false,
        },
{
    if req.price.is_none() && req.quantity.is_none() {
        return Err(ExchangeError::InvalidRequest("At least one of price or quantity must be provided for amend".to_owned()));
    }
    let spot = spot_account(req.account_type);
    let mut m: Vec<(String, Json)> = Vec::new();
    if spot {
        push_member(&mut m, "currency_pair", Json::string(req.symbol.as_str()));
    }
    let ghost m0 = members_view(m@);
    if let Some(p) = &req.price {
        push_member(&mut m, "price", Json::string(p.as_str()));
    }
    let ghost m1 = members_view(m@);
    if let Some(q) = &req.quantity {
        if spot {
            push_member(&mut m, "amount", Json::string(q.amount.as_str()));
        } else {
            push_member(&mut m, "size", Json::from_i64(q.contracts));
        }
    }
    proof {
        let rq = *req;
        assert(m1 =~= m0 + (match rq.price {
            Some(p) => seq![("price"@, str_v(p@))],
            None => Seq::<(Seq<char>, JsonV)>::empty(),
        }));
        if spot {
            assert(m0 =~= seq![("currency_pair"@, str_v(rq.symbol@))]);
            assert(members_view(m@) =~= m1 + (match rq.quantity {
                Some(q) => seq![("amount"@, str_v(q.amount@))],
                None => Seq::<(Seq<char>, JsonV)>::empty(),
            }));
        } else {
            assert(m0 =~= Seq::<(Seq<char>, JsonV)>::empty());
            assert(members_view(m@) =~= m1 + (match rq.quantity {
                Some(q) => seq![("size"@, num_v(q.contracts as int))],
                None => Seq::<(Seq<char>, JsonV)>::empty(),
            }));
        }
    }
    let ep = if spot { GateioAmendEndpoint::SpotOrder } else { GateioAmendEndpoint::FuturesOrder };
    Ok((ep, Json::Object(m)))
}

/// The body of a Gate.io futures batch amend (`/futures/{settle}/batch_amend_orders`):
/// the amends as one array, `None` when there are none, or the error message
/// when there are more than 20.
pub open spec fn gateio_batch_amend_spec(amends: Seq<JsonV>) -> Result<Option<JsonV>, Seq<char>> {
    if amends.len() == 0 {
        Ok(None)
    } else if amends.len() > 20 {
        Err("Batch amend size "@ + decimal_text(amends.len()) + " exceeds Gate.io Futures limit of 20"@)
    } else {
        Ok(Some(JsonV::Array(amends)))
    }
}

/// The body of a Gate.io futures batch amend (see `gateio_batch_amend_spec`).
pub fn gateio_batch_amend_request(amends: Vec<Json>) -> (r: Result<Option<Json>, ExchangeError>)
    ensures
        match r {
            Ok(None) => gateio_batch_amend_spec(crate::common::json::items_view(amends@)) == Ok::<Option<JsonV>, Seq<char>>(None),
            Ok(Some(j)) => gateio_batch_amend_spec(crate::common::json::items_view(amends@)) == Ok::<Option<JsonV>, Seq<char>>(
                Some(j@),
            ),
            Err(ExchangeError::InvalidRequest(m)) => gateio_batch_amend_spec(crate::common::json::items_view(amends@))
                == Err::<Option<JsonV>, Seq<char>>(m@),
            Err(_) => false,
        },
{
    proof {
        crate::common::json::lemma_items_view(amends@);
    }
    if amends.len() == 0 {
        return Ok(None);
    }
    if amends.len() > 20 {
        let mut msg = concat("Batch amend size ", u64_text(amends.len() as u64).as_str());
        crate::common::text::push_str(&mut msg, " exceeds Gate.io Futures limit of 20");
        return Err(ExchangeError::InvalidRequest(msg));
    }
    Ok(Some(Json::Array(amends)))
}

/// The member `k` of the member `outer` of an object.
pub open spec fn inner_member(v: JsonV, outer: Seq<char>, k: Seq<char>) -> Option<JsonV> {
    match crate::common::json::member(v, outer) {
        Some(o) => crate::common::json::member(o, k),
        None => None,
    }
}

/// A Gate.io stop order is a price-triggered order whose trigger fires in
/// the direction the side wants: on spot the rule is `>=` for a buy and `<=`
/// for a sell, on futures it is 1 (at or above) for a buy and 2 (at or
/// below) for a sell; the trigger price is the order's stop price.
#[verifier::spinoff_prover]
#[verifier::rlimit(40)]
pub proof fn lemma_gate_stop_trigger(req: OrderInput, generated: Seq<char>)
    requires
        req.kind is StopMarket || req.kind is StopLimit,
    ensures
        ({
            let stop = match req.kind {
                OrderKind::StopMarket { stop_price } => stop_price@,
                OrderKind::StopLimit { stop_price, .. } => stop_price@,
                _ => Seq::empty(),
            };
            &&& gateio_order_spec(req, generated) is Ok
            &&& inner_member(gateio_order_spec(req, generated)->Ok_0.1, "trigger"@, "price"@) == Some(JsonV::Str(stop))
            &&& if is_spot_account(req.account_type) {
                &&& gateio_order_spec(req, generated)->Ok_0.0 == GateioEndpoint::SpotPriceOrders
                &&& inner_member(gateio_order_spec(req, generated)->Ok_0.1, "trigger"@, "rule"@) == Some(
                    JsonV::Str(if req.side == OrderSide::Buy { ">="@ } else { "<="@ }),
                )
            } else {
                &&& gateio_order_spec(req, generated)->Ok_0.0 == GateioEndpoint::FuturesPriceOrders
                &&& inner_member(gateio_order_spec(req, generated)->Ok_0.1, "trigger"@, "rule"@) == Some(
                    JsonV::Number(if req.side == OrderSide::Buy { seq!['1'] } else { seq!['2'] }),
                )
            }
        }),
{
    reveal_strlit("trigger");
    reveal_strlit("price");
    reveal_strlit("rule");
    reveal_strlit("strategy_type");
    reveal_strlit("price_type");
    reveal_strlit(">=");
    reveal_strlit("<=");
    reveal_with_fuel(crate::common::json::member_from, 4);
    assert(signed_decimal_text(1) =~= seq!['1']);
    assert(signed_decimal_text(2) =~= seq!['2']);
    assert("price"@.len() == 5 && "rule"@.len() == 4 && "strategy_type"@.len() == 13 && "price_type"@.len() == 10);
    assert("price"@ != "rule"@);
    assert("strategy_type"@ != "price"@ && "strategy_type"@ != "rule"@);
    assert("price_type"@ != "price"@ && "price_type"@ != "rule"@);
    let text = order_text(req, generated);
    let (stop, initial_or_put) = match req.kind {
        OrderKind::StopMarket { stop_price } => (stop_price@, if is_spot_account(req.account_type) {
            spot_put_v(req, None)
        } else {
            futures_order_v(req, "0"@, "ioc"@, text)
        }),
        OrderKind::StopLimit { stop_price, limit_price } => (stop_price@, if is_spot_account(req.account_type) {
            spot_put_v(req, Some(limit_price@))
        } else {
            futures_order_v(req, limit_price@, "gtc"@, text)
        }),
        _ => (Seq::empty(), JsonV::Null),
    };
    let body = gateio_order_spec(req, generated)->Ok_0.1;
    if is_spot_account(req.account_type) {
        assert(body == spot_trigger_v(req, stop, initial_or_put, text));
        let t = JsonV::Object(
            seq![
                ("price"@, str_v(stop)),
                ("rule"@, str_v(trigger_rule(req.side))),
                ("expiration"@, num_v(86400)),
            ],
        );
        assert(crate::common::json::member(body, "trigger"@) == Some(t));
        assert(crate::common::json::member(t, "price"@) == Some(str_v(stop)));
        assert(crate::common::json::member(t, "rule"@) == Some(str_v(trigger_rule(req.side))));
    } else {
        assert(body == futures_trigger_v(req.side, stop, initial_or_put));
        let t = JsonV::Object(
            seq![
                ("strategy_type"@, num_v(0)),
                ("price_type"@, num_v(0)),
                ("price"@, str_v(stop)),
                ("rule"@, num_v(futures_rule(req.side))),
                ("expiration"@, num_v(86400)),
            ],
        );
        assert(crate::common::json::member(body, "trigger"@) == Some(t));
        assert(crate::common::json::member(t, "price"@) == Some(str_v(stop)));
        assert(crate::common::json::member(t, "rule"@) == Some(num_v(futures_rule(req.side))));
    }
}

/// A Gate.io order states what is traded and which way: a spot order names
/// its pair and side (`buy`/`sell`); a futures order names its contract and a
/// size that is the contract count for a buy and its negation for a sell.
/// Stop orders carry the same in the order they put (spot) or start (futures).
#[verifier::spinoff_prover]
#[verifier::rlimit(40)]
pub proof fn lemma_gate_order_direction(req: OrderInput, generated: Seq<char>)
    requires
        gateio_order_spec(req, generated) is Ok,
    ensures
        ({
            let body = gateio_order_spec(req, generated)->Ok_0.1;
            let side = JsonV::Str(if req.side == OrderSide::Buy { "buy"@ } else { "sell"@ });
            let size = JsonV::Number(
                signed_decimal_text(if req.side == OrderSide::Buy { req.contracts as int } else { -(req.contracts as int) }),
            );
            if req.kind is StopMarket || req.kind is StopLimit {
                if is_spot_account(req.account_type) {
                    &&& inner_member(body, "put"@, "side"@) == Some(side)
                    &&& crate::common::json::member(body, "market"@) == Some(JsonV::Str(req.symbol@))
                } else {
                    &&& inner_member(body, "initial"@, "size"@) == Some(size)
                    &&& inner_member(body, "initial"@, "contract"@) == Some(JsonV::Str(req.symbol@))
                }
            } else if is_spot_account(req.account_type) {
                &&& crate::common::json::member(body, "side"@) == Some(side)
                &&& crate::common::json::member(body, "currency_pair"@) == Some(JsonV::Str(req.symbol@))
            } else {
                &&& crate::common::json::member(body, "size"@) == Some(size)
                &&& crate::common::json::member(body, "contract"@) == Some(JsonV::Str(req.symbol@))
            }
        }),
{
    reveal_strlit("put");
    reveal_strlit("side");
    reveal_strlit("type");
    reveal_strlit("market");
    reveal_strlit("trigger");
    reveal_strlit("initial");
    reveal_strlit("size");
    reveal_strlit("contract");
    reveal_strlit("currency_pair");
    reveal_strlit("buy");
    reveal_strlit("sell");
    assert("put"@.len() == 3 && "side"@.len() == 4 && "type"@.len() == 4 && "market"@.len() == 6);
    assert("trigger"@.len() == 7 && "initial"@.len() == 7 && "size"@.len() == 4 && "contract"@.len() == 8);
    assert("currency_pair"@.len() == 13);
    assert("type"@[0] != "side"@[0] && "trigger"@[0] != "initial"@[0] && "contract"@ != "size"@);
    assert("trigger"@ != "put"@ && "trigger"@ != "market"@ && "put"@ != "market"@ && "trigger"@ != "initial"@);
    assert("type"@ != "side"@ && "currency_pair"@ != "side"@ && "contract"@ != "size"@);
    reveal_with_fuel(crate::common::json::member_from, 4);
    let body = gateio_order_spec(req, generated)->Ok_0.1;
    let sz = if req.side == OrderSide::Buy { req.contracts as int } else { -(req.contracts as int) };
    assert(signed_size(req.side, req.contracts) == sz);
    if req.kind is StopMarket || req.kind is StopLimit {
        let ms = body->Object_0;
        assert(body is Object);
        assert(ms[0].0 == "trigger"@);
        if is_spot_account(req.account_type) {
            assert(ms[1].0 == "put"@ && ms[2].0 == "market"@);
            let put = ms[1].1;
            assert(put->Object_0[0].0 == "type"@ && put->Object_0[1] == ("side"@, str_v(side_text(req.side))));
        } else {
            assert(ms[1].0 == "initial"@);
            let init = ms[1].1;
            assert(init->Object_0[0] == ("contract"@, str_v(req.symbol@)));
            assert(init->Object_0[1] == ("size"@, num_v(sz)));
        }
    } else if is_spot_account(req.account_type) {
        assert(body->Object_0[0] == ("currency_pair"@, str_v(req.symbol@)));
        assert(body->Object_0[1] == ("side"@, str_v(side_text(req.side))));
    } else {
        assert(body->Object_0[0] == ("contract"@, str_v(req.symbol@)));
        assert(body->Object_0[1] == ("size"@, num_v(sz)));
    }
}

} // verus!
