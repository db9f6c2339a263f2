//! The parts of the KuCoin REST connector that decide rather than send:
//! kline interval lengths, the endpoint and JSON body of orders, order
//! batches, position changes, cancels and sub-account operations, the queries
//! of funds and transfer histories, and the records read back.

use vstd::prelude::*;
use crate::common::json::{Json, JsonV, members_view, push_member};
use crate::common::orders::{
    ExchangeError, MarginType, OrderInput, OrderKind, OrderSide, PositionChange, PositionInput, TimeInForce,
    is_spot_account, order_text, spot_account,
};
use crate::common::text::{decimal_text, u64_text};
use crate::common::text::{concat, str_eq};
use crate::common::orders::{SubAccount, SubAccountOperation, SubAccountResult, CancelInput, CancelScope, error_matches};
use crate::common::orders::{AmendInput, empty_amend_message};
use crate::common::orders::{
    PlacedOrder, OrderStatus, cancel_summary, cancel_summary_spec, opt_view, order_prices, placed_order, reports_cancel,
};
use crate::common::funds::{
    TransferFilter, TransferRecord, transfer_pairs, transfer_query_pairs, transfer_view, transfers_view, read_str,
    FundsFilter, FundsRecord, FundsRecordType, FundsRecordV, funds_pairs, funds_query_pairs, join_pairs, joined,
    record_from, record_of, record_view, records_view, str_or, int_member, read_i64, read_str_or,
};

verus! {

/// Seconds in a KuCoin kline interval; unknown text counts as one minute.
pub open spec fn interval_secs(i: Seq<char>) -> u64 {
    if i == "1m"@ {
        60
    } else if i == "3m"@ {
        180
    } else if i == "5m"@ {
        300
    } else if i == "15m"@ {
        900
    } else if i == "30m"@ {
        1800
    } else if i == "1h"@ {
        3600
    } else if i == "2h"@ {
        7200
    } else if i == "4h"@ {
        14400
    } else if i == "6h"@ {
        21600
    } else if i == "8h"@ {
        28800
    } else if i == "12h"@ {
        43200
    } else if i == "1d"@ || i == "1D"@ {
        86400
    } else if i == "1w"@ || i == "1W"@ {
        604800
    } else {
        60
    }
}

/// Seconds in a kline interval (`"1h"` → 3600); unknown text counts as one minute.
pub fn interval_to_secs(interval: &str) -> (r: u64)
    ensures
        r == interval_secs(interval@),
{
    if str_eq(interval, "1m") {
        60
    } else if str_eq(interval, "3m") {
        180
    } else if str_eq(interval, "5m") {
        300
    } else if str_eq(interval, "15m") {
        900
    } else if str_eq(interval, "30m") {
        1800
    } else if str_eq(interval, "1h") {
        3600
    } else if str_eq(interval, "2h") {
        7200
    } else if str_eq(interval, "4h") {
        14400
    } else if str_eq(interval, "6h") {
        21600
    } else if str_eq(interval, "8h") {
        28800
    } else if str_eq(interval, "12h") {
        43200
    } else if str_eq(interval, "1d") || str_eq(interval, "1D") {
        86400
    } else if str_eq(interval, "1w") || str_eq(interval, "1W") {
        604800
    } else {
        60
    }
}

/// Where a KuCoin order is posted.
#[derive(Debug, Clone, Copy, PartialEq, Eq, Structural)]
pub enum KuCoinEndpoint {
    /// `/api/v1/hf/orders`
    SpotCreateOrder,
    /// `/api/v1/orders` (futures)
    FuturesCreateOrder,
    /// `/api/v3/oco/order`
    SpotOcoOrder,
}

pub open spec fn s_v(t: Seq<char>) -> JsonV {
    JsonV::Str(t)
}

pub open spec fn kc_side(side: OrderSide) -> Seq<char> {
    match side {
        OrderSide::Buy => "buy"@,
        OrderSide::Sell => "sell"@,
    }
}

/// A stop order fires going up for a buy, down for a sell.
pub open spec fn stop_dir(side: OrderSide) -> Seq<char> {
    match side {
        OrderSide::Buy => "up"@,
        OrderSide::Sell => "down"@,
    }
}

/// A limit order's `timeInForce`: post-only orders write `limit` (the
/// `postOnly` flag carries it), IOC and FOK their names, the rest `GTC`.
pub open spec fn limit_tif(t: TimeInForce) -> Seq<char> {
    match t {
        TimeInForce::PostOnly => "limit"@,
        TimeInForce::Ioc => "IOC"@,
        TimeInForce::Fok => "FOK"@,
        _ => "GTC"@,
    }
}

/// An iceberg order's `timeInForce`.
pub open spec fn iceberg_tif(t: TimeInForce) -> Seq<char> {
    match t {
        TimeInForce::Ioc => "IOC"@,
        TimeInForce::Fok => "FOK"@,
        _ => "GTC"@,
    }
}

pub open spec fn kc_price_or_zero(p: Option<String>) -> Seq<char> {
    match p {
        Some(x) => x@,
        None => "0"@,
    }
}

/// Client id, symbol, side, order type and size: the opening of every KuCoin order.
pub open spec fn kc_head_v(req: OrderInput, oid: Seq<char>, ty: Seq<char>) -> Seq<(Seq<char>, JsonV)> {
    seq![
        ("clientOid"@, s_v(oid)),
        ("symbol"@, s_v(req.symbol@)),
        ("side"@, s_v(kc_side(req.side))),
        ("type"@, s_v(ty)),
        ("size"@, s_v(req.amount@)),
    ]
}

pub open spec fn is_named_unsupported(name: Seq<char>) -> bool {
    name == "TrailingStop"@ || name == "Bracket"@ || name == "Twap"@
}

/// Endpoint and body of a KuCoin order (client id `oid`), or the error message.
pub open spec fn kucoin_order_body(req: OrderInput, oid: Seq<char>) -> Result<(KuCoinEndpoint, JsonV), Seq<char>> {
    let spot = is_spot_account(req.account_type);
    let ep = if spot { KuCoinEndpoint::SpotCreateOrder } else { KuCoinEndpoint::FuturesCreateOrder };
    match req.kind {
        OrderKind::Market => Ok((ep, JsonV::Object(kc_head_v(req, oid, "market"@)))),
        OrderKind::Limit { price } => Ok(
            (
                ep,
                JsonV::Object(
                    kc_head_v(req, oid, "limit"@) + seq![
                        ("price"@, s_v(price@)),
                        ("timeInForce"@, s_v(limit_tif(req.time_in_force))),
                        ("postOnly"@, JsonV::Bool(req.time_in_force == TimeInForce::PostOnly)),
                    ],
                ),
            ),
        ),
        OrderKind::PostOnly { price } => Ok(
            (
                ep,
                JsonV::Object(
                    kc_head_v(req, oid, "limit"@) + seq![("price"@, s_v(price@)), ("postOnly"@, JsonV::Bool(true))],
                ),
            ),
        ),
        OrderKind::Ioc { price } => Ok(
            (
                ep,
                JsonV::Object(
                    kc_head_v(req, oid, "limit"@) + seq![
                        ("price"@, s_v(kc_price_or_zero(price))),
                        ("timeInForce"@, s_v("IOC"@)),
                    ],
                ),
            ),
        ),
        OrderKind::Fok { price } => Ok(
            (
                ep,
                JsonV::Object(
                    kc_head_v(req, oid, "limit"@) + seq![("price"@, s_v(price@)), ("timeInForce"@, s_v("FOK"@))],
                ),
            ),
        ),
        OrderKind::StopMarket { stop_price } => Ok(
            (
                ep,
                JsonV::Object(
                    kc_head_v(req, oid, "market"@) + seq![
                        ("stop"@, s_v(stop_dir(req.side))),
                        ("stopPrice"@, s_v(stop_price@)),
                        ("stopPriceType"@, s_v("TP"@)),
                    ],
                ),
            ),
        ),
        OrderKind::StopLimit { stop_price, limit_price } => Ok(
            (
                ep,
                JsonV::Object(
                    kc_head_v(req, oid, "limit"@) + seq![
                        ("price"@, s_v(limit_price@)),
                        ("stop"@, s_v(stop_dir(req.side))),
                        ("stopPrice"@, s_v(stop_price@)),
                        ("stopPriceType"@, s_v("TP"@)),
                    ],
                ),
            ),
        ),
        OrderKind::ReduceOnly { price } => if spot {
            Err("ReduceOnly orders only supported for futures on KuCoin"@)
        } else {
            let base = kc_head_v(req, oid, if price is Some { "limit"@ } else { "market"@ }).push(
                ("reduceOnly"@, JsonV::Bool(true)),
            );
            Ok(
                (
                    ep,
                    JsonV::Object(
                        match price {
                            Some(px) => base.push(("price"@, s_v(px@))),
                            None => base,
                        },
                    ),
                ),
            )
        },
        OrderKind::Gtd { price, .. } => Ok(
            (
                ep,
                JsonV::Object(
                    kc_head_v(req, oid, "limit"@) + seq![("price"@, s_v(price@)), ("timeInForce"@, s_v("GTC"@))],
                ),
            ),
        ),
        OrderKind::Oco { price, stop_price, stop_limit_price } => if !spot {
            Err("OCO orders are only supported for Spot on KuCoin"@)
        } else {
            Ok(
                (
                    KuCoinEndpoint::SpotOcoOrder,
                    JsonV::Object(
                        seq![
                            ("clientOid"@, s_v(oid)),
                            ("symbol"@, s_v(req.symbol@)),
                            ("side"@, s_v(kc_side(req.side))),
                            ("price"@, s_v(price@)),
                            ("size"@, s_v(req.amount@)),
                            ("stopPrice"@, s_v(stop_price@)),
                            (
                                "limitPrice"@,
                                s_v(
                                    match stop_limit_price {
                                        Some(l) => l@,
                                        None => stop_price@,
                                    },
                                ),
                            ),
                            ("tradeType"@, s_v("TRADE"@)),
                        ],
                    ),
                ),
            )
        },
        OrderKind::Iceberg { price, display_amount, .. } => Ok(
            (
                ep,
                JsonV::Object(
                    kc_head_v(req, oid, "limit"@) + seq![
                        ("price"@, s_v(price@)),
                        ("timeInForce"@, s_v(iceberg_tif(req.time_in_force))),
                        ("iceberg"@, JsonV::Bool(true)),
                        ("visibleSize"@, s_v(display_amount@)),
                    ],
                ),
            ),
        ),
        OrderKind::TrailingStop { .. } => Err("TrailingStop order type not supported on KuCoin"@),
        OrderKind::Bracket { .. } => Err("Bracket order type not supported on KuCoin"@),
        OrderKind::Unsupported { name } => if is_named_unsupported(name@) {
            Err(name@ + " order type not supported on KuCoin"@)
        } else {
            Err("Order type not supported on KuCoin"@)
        },
    }
}

/// Endpoint and body of a KuCoin order whose client id is its own, or
/// `generated` without one.
pub open spec fn kucoin_order_spec(req: OrderInput, generated: Seq<char>) -> Result<(KuCoinEndpoint, JsonV), Seq<char>> {
    kucoin_order_body(req, order_text(req, generated))
}

fn kc_head(req: &OrderInput, oid: &str, ty: &str) -> (r: Vec<(String, Json)>)
    ensures
        members_view(r@) == kc_head_v(*req, oid@, ty@),
{
    let mut m: Vec<(String, Json)> = Vec::new();
    push_member(&mut m, "clientOid", Json::string(oid));
    push_member(&mut m, "symbol", Json::string(req.symbol.as_str()));
    push_member(&mut m, "side", Json::string(match req.side {
        OrderSide::Buy => "buy",
        OrderSide::Sell => "sell",
    }));
    push_member(&mut m, "type", Json::string(ty));
    push_member(&mut m, "size", Json::string(req.amount.as_str()));
    assert(members_view(m@) =~= kc_head_v(*req, oid@, ty@));
    m
}

fn kc_refuse(msg: &str) -> (r: ExchangeError)
    ensures
        r == ExchangeError::UnsupportedOperation(r->UnsupportedOperation_0),
        r->UnsupportedOperation_0@ == msg@,
{
    ExchangeError::UnsupportedOperation(msg.to_owned())
}

/// The endpoint and JSON body of a KuCoin order (`clientOid` is the client
/// order id, or `generated_oid` without one). Spot and margin go to the spot
/// endpoint, the rest to futures; OCO orders, spot only, to the OCO endpoint.
/// Stop orders fire `up` for a buy and `down` for a sell. Reduce-only orders
/// are refused on spot, and order types KuCoin has no request for.
pub fn kucoin_order_request(req: &OrderInput, generated_oid: &str) -> (r: Result<(KuCoinEndpoint, Json), ExchangeError>)
    ensures
        match r {
            Ok((e, j)) => kucoin_order_spec(*req, generated_oid@) == Ok::<(KuCoinEndpoint, JsonV), Seq<char>>((e, j@)),
            Err(ExchangeError::UnsupportedOperation(m)) => kucoin_order_spec(*req, generated_oid@) == Err::<
                (KuCoinEndpoint, JsonV),
                Seq<char>,
            >(m@),
            Err(_) => false,
        },
{
    let oid: &str = match &req.client_order_id {
        Some(c) => c.as_str(),
        None => generated_oid,
    };
    let spot = spot_account(req.account_type);
    let ep = if spot { KuCoinEndpoint::SpotCreateOrder } else { KuCoinEndpoint::FuturesCreateOrder };
    match &req.kind {
        OrderKind::Market => {
            let m = kc_head(req, oid, "market");
            Ok((ep, Json::Object(m)))
        },
        OrderKind::Limit { price } => {
            let tif = match req.time_in_force {
                TimeInForce::PostOnly => "limit",
                TimeInForce::Ioc => "IOC",
                TimeInForce::Fok => "FOK",
                _ => "GTC",
            };
            let post_only = match req.time_in_force {
                TimeInForce::PostOnly => true,
                _ => false,
            };
            let mut m = kc_head(req, oid, "limit");
            let ghost h = members_view(m@);
            push_member(&mut m, "price", Json::string(price.as_str()));
            push_member(&mut m, "timeInForce", Json::string(tif));
            push_member(&mut m, "postOnly", Json::Bool(post_only));
            assert(members_view(m@) =~= h + seq![
                ("price"@, s_v(price@)),
                ("timeInForce"@, s_v(limit_tif(req.time_in_force))),
                ("postOnly"@, JsonV::Bool(req.time_in_force == TimeInForce::PostOnly)),
            ]);
            Ok((ep, Json::Object(m)))
        },
        OrderKind::PostOnly { price } => {
            let mut m = kc_head(req, oid, "limit");
            let ghost h = members_view(m@);
            push_member(&mut m, "price", Json::string(price.as_str()));
            push_member(&mut m, "postOnly", Json::Bool(true));
            assert(members_view(m@) =~= h + seq![("price"@, s_v(price@)), ("postOnly"@, JsonV::Bool(true))]);
            Ok((ep, Json::Object(m)))
        },
        OrderKind::Ioc { price } => {
            let px: &str = match price {
                Some(p) => p.as_str(),
                None => "0",
            };
            let mut m = kc_head(req, oid, "limit");
            let ghost h = members_view(m@);
            push_member(&mut m, "price", Json::string(px));
            push_member(&mut m, "timeInForce", Json::string("IOC"));
            assert(members_view(m@) =~= h + seq![
                ("price"@, s_v(kc_price_or_zero(*price))),
                ("timeInForce"@, s_v("IOC"@)),
            ]);
            Ok((ep, Json::Object(m)))
        },
        OrderKind::Fok { price } => {
            let mut m = kc_head(req, oid, "limit");
            let ghost h = members_view(m@);
            push_member(&mut m, "price", Json::string(price.as_str()));
            push_member(&mut m, "timeInForce", Json::string("FOK"));
            assert(members_view(m@) =~= h + seq![("price"@, s_v(price@)), ("timeInForce"@, s_v("FOK"@))]);
            Ok((ep, Json::Object(m)))
        },
        OrderKind::StopMarket { stop_price } => {
            let dir = match req.side {
                OrderSide::Buy => "up",
                OrderSide::Sell => "down",
            };
            let mut m = kc_head(req, oid, "market");
            let ghost h = members_view(m@);
            push_member(&mut m, "stop", Json::string(dir));
            push_member(&mut m, "stopPrice", Json::string(stop_price.as_str()));
            push_member(&mut m, "stopPriceType", Json::string("TP"));
            assert(members_view(m@) =~= h + seq![
                ("stop"@, s_v(stop_dir(req.side))),
                ("stopPrice"@, s_v(stop_price@)),
                ("stopPriceType"@, s_v("TP"@)),
            ]);
            Ok((ep, Json::Object(m)))
        },
        OrderKind::StopLimit { stop_price, limit_price } => {
            let dir = match req.side {
                OrderSide::Buy => "up",
                OrderSide::Sell => "down",
            };
            let mut m = kc_head(req, oid, "limit");
            let ghost h = members_view(m@);
            push_member(&mut m, "price", Json::string(limit_price.as_str()));
            push_member(&mut m, "stop", Json::string(dir));
            push_member(&mut m, "stopPrice", Json::string(stop_price.as_str()));
            push_member(&mut m, "stopPriceType", Json::string("TP"));
            assert(members_view(m@) =~= h + seq![
                ("price"@, s_v(limit_price@)),
                ("stop"@, s_v(stop_dir(req.side))),
                ("stopPrice"@, s_v(stop_price@)),
                ("stopPriceType"@, s_v("TP"@)),
            ]);
            Ok((ep, Json::Object(m)))
        },
        OrderKind::ReduceOnly { price } => {
            if spot {
                return Err(kc_refuse("ReduceOnly orders only supported for futures on KuCoin"));
            }
            let mut m = kc_head(req, oid, if price.is_some() { "limit" } else { "market" });
            push_member(&mut m, "reduceOnly", Json::Bool(true));
            if let Some(px) = price {
                push_member(&mut m, "price", Json::string(px.as_str()));
            }
            Ok((ep, Json::Object(m)))
        },
        OrderKind::Gtd { price, .. } => {
            let mut m = kc_head(req, oid, "limit");
            let ghost h = members_view(m@);
            push_member(&mut m, "price", Json::string(price.as_str()));
            push_member(&mut m, "timeInForce", Json::string("GTC"));
            assert(members_view(m@) =~= h + seq![("price"@, s_v(price@)), ("timeInForce"@, s_v("GTC"@))]);
            Ok((ep, Json::Object(m)))
        },
        OrderKind::Oco { price, stop_price, stop_limit_price } => {
            if !spot {
                return Err(kc_refuse("OCO orders are only supported for Spot on KuCoin"));
            }
            let limit: &str = match stop_limit_price {
                Some(l) => l.as_str(),
                None => stop_price.as_str(),
            };
            let mut m: Vec<(String, Json)> = Vec::new();
            push_member(&mut m, "clientOid", Json::string(oid));
            push_member(&mut m, "symbol", Json::string(req.symbol.as_str()));
            push_member(&mut m, "side", Json::string(match req.side {
                OrderSide::Buy => "buy",
                OrderSide::Sell => "sell",
            }));
            push_member(&mut m, "price", Json::string(price.as_str()));
            push_member(&mut m, "size", Json::string(req.amount.as_str()));
            push_member(&mut m, "stopPrice", Json::string(stop_price.as_str()));
            push_member(&mut m, "limitPrice", Json::string(limit));
            push_member(&mut m, "tradeType", Json::string("TRADE"));
            assert(members_view(m@) =~= seq![
                ("clientOid"@, s_v(oid@)),
                ("symbol"@, s_v(req.symbol@)),
                ("side"@, s_v(kc_side(req.side))),
                ("price"@, s_v(price@)),
                ("size"@, s_v(req.amount@)),
                ("stopPrice"@, s_v(stop_price@)),
                (
                    "limitPrice"@,
                    s_v(
                        match *stop_limit_price {
                            Some(l) => l@,
                            None => stop_price@,
                        },
                    ),
                ),
                ("tradeType"@, s_v("TRADE"@)),
            ]);
            Ok((KuCoinEndpoint::SpotOcoOrder, Json::Object(m)))
        },
        OrderKind::Iceberg { price, display_amount, .. } => {
            let tif = match req.time_in_force {
                TimeInForce::Ioc => "IOC",
                TimeInForce::Fok => "FOK",
                _ => "GTC",
            };
            let mut m = kc_head(req, oid, "limit");
            let ghost h = members_view(m@);
            push_member(&mut m, "price", Json::string(price.as_str()));
            push_member(&mut m, "timeInForce", Json::string(tif));
            push_member(&mut m, "iceberg", Json::Bool(true));
            push_member(&mut m, "visibleSize", Json::string(display_amount.as_str()));
            assert(members_view(m@) =~= h + seq![
                ("price"@, s_v(price@)),
                ("timeInForce"@, s_v(iceberg_tif(req.time_in_force))),
                ("iceberg"@, JsonV::Bool(true)),
                ("visibleSize"@, s_v(display_amount@)),
            ]);
            Ok((ep, Json::Object(m)))
        },
        OrderKind::TrailingStop { .. } => Err(kc_refuse("TrailingStop order type not supported on KuCoin")),
        OrderKind::Bracket { .. } => Err(kc_refuse("Bracket order type not supported on KuCoin")),
        OrderKind::Unsupported { name } => {
            let n = name.as_str();
            if str_eq(n, "TrailingStop") || str_eq(n, "Bracket") || str_eq(n, "Twap") {
                Err(ExchangeError::UnsupportedOperation(concat(n, " order type not supported on KuCoin")))
            } else {
                Err(kc_refuse("Order type not supported on KuCoin"))
            }
        },
    }
}

/// Where a KuCoin position change is posted.
#[derive(Debug, Clone, Copy, PartialEq, Eq, Structural)]
pub enum KuCoinPositionEndpoint {
    /// `/api/v2/changeCrossUserLeverage`
    FuturesSetLeverage,
    /// `/api/v1/position/margin/auto-deposit-status`
    AutoDepositStatus,
    /// `/api/v1/position/margin/deposit-margin`
    DepositMargin,
    /// `/api/v1/orders` (futures)
    FuturesCreateOrder,
}

/// A closing stop order for take-profit (`up`) or stop-loss (`down`).
pub open spec fn close_stop_v(oid: Seq<char>, sym: Seq<char>, dir: Seq<char>, price: Seq<char>) -> JsonV {
    JsonV::Object(
        seq![
            ("clientOid"@, s_v(oid)),
            ("symbol"@, s_v(sym)),
            ("side"@, s_v("sell"@)),
            ("type"@, s_v("market"@)),
            ("size"@, JsonV::Number(seq!['0'])),
            ("closeOrder"@, JsonV::Bool(true)),
            ("stop"@, s_v(dir)),
            ("stopPrice"@, s_v(price)),
            ("stopPriceType"@, s_v("TP"@)),
        ],
    )
}

/// The requests of a KuCoin position change, in order (ids made from the
/// time text `stamp`), or the error message.
pub open spec fn kucoin_position_spec(req: PositionInput, stamp: Seq<char>) -> Result<
    Seq<(KuCoinPositionEndpoint, JsonV)>,
    Seq<char>,
> {
    let spot = is_spot_account(req.account_type);
    let sym = req.symbol@;
    match req.change {
        PositionChange::SetLeverage { leverage } => if spot {
            Err("Leverage not supported for Spot/Margin"@)
        } else {
            Ok(
                seq![
                    (
                        KuCoinPositionEndpoint::FuturesSetLeverage,
                        JsonV::Object(
                            seq![("symbol"@, s_v(sym)), ("level"@, JsonV::Number(decimal_text(leverage as nat)))],
                        ),
                    ),
                ],
            )
        },
        PositionChange::SetMarginMode { margin_type } => if spot {
            Err("SetMarginMode not supported for Spot/Margin on KuCoin"@)
        } else {
            Ok(
                seq![
                    (
                        KuCoinPositionEndpoint::AutoDepositStatus,
                        JsonV::Object(
                            seq![("symbol"@, s_v(sym)), ("autoDeposit"@, JsonV::Bool(margin_type == MarginType::Cross))],
                        ),
                    ),
                ],
            )
        },
        PositionChange::AddMargin { amount } => if spot {
            Err("AddMargin only supported for futures on KuCoin"@)
        } else {
            Ok(
                seq![
                    (
                        KuCoinPositionEndpoint::DepositMargin,
                        JsonV::Object(
                            seq![
                                ("symbol"@, s_v(sym)),
                                ("bizNo"@, s_v("cc_"@ + stamp)),
                                ("margin"@, JsonV::Number(amount@)),
                            ],
                        ),
                    ),
                ],
            )
        },
        PositionChange::RemoveMargin { .. } => Err("KuCoin does not support RemoveMargin on futures positions"@),
        PositionChange::ClosePosition => if spot {
            Err("ClosePosition only supported for futures on KuCoin"@)
        } else {
            Ok(
                seq![
                    (
                        KuCoinPositionEndpoint::FuturesCreateOrder,
                        JsonV::Object(
                            seq![
                                ("clientOid"@, s_v("cc_"@ + stamp)),
                                ("symbol"@, s_v(sym)),
                                ("side"@, s_v("buy"@)),
                                ("type"@, s_v("market"@)),
                                ("size"@, JsonV::Number(seq!['0'])),
                                ("closeOrder"@, JsonV::Bool(true)),
                            ],
                        ),
                    ),
                ],
            )
        },
        PositionChange::SetTpSl { take_profit, stop_loss } => if spot {
            Err("SetTpSl only supported for futures on KuCoin"@)
        } else {
            let a: Seq<(KuCoinPositionEndpoint, JsonV)> = match take_profit {
                Some(tp) => seq![
                    (KuCoinPositionEndpoint::FuturesCreateOrder, close_stop_v("tp_"@ + stamp, sym, "up"@, tp@)),
                ],
                None => Seq::empty(),
            };
            let b: Seq<(KuCoinPositionEndpoint, JsonV)> = match stop_loss {
                Some(sl) => seq![
                    (KuCoinPositionEndpoint::FuturesCreateOrder, close_stop_v("sl_"@ + stamp, sym, "down"@, sl@)),
                ],
                None => Seq::empty(),
            };
            Ok(a + b)
        },
        _ => Err("This position modification is not supported by KuCoin"@),
    }
}

pub open spec fn requests_view(v: Seq<(KuCoinPositionEndpoint, Json)>) -> Seq<(KuCoinPositionEndpoint, JsonV)> {
    v.map_values(|p: (KuCoinPositionEndpoint, Json)| (p.0, p.1@))
}

fn close_stop(oid: &str, sym: &str, dir: &str, price: &str) -> (r: Json)
    ensures
        r@ == close_stop_v(oid@, sym@, dir@, price@),
{
    let mut m: Vec<(String, Json)> = Vec::new();
    push_member(&mut m, "clientOid", Json::string(oid));
    push_member(&mut m, "symbol", Json::string(sym));
    push_member(&mut m, "side", Json::string("sell"));
    push_member(&mut m, "type", Json::string("market"));
    push_member(&mut m, "size", Json::from_u64(0));
    push_member(&mut m, "closeOrder", Json::Bool(true));
    push_member(&mut m, "stop", Json::string(dir));
    push_member(&mut m, "stopPrice", Json::string(price));
    push_member(&mut m, "stopPriceType", Json::string("TP"));
    assert(members_view(m@) =~= close_stop_v(oid@, sym@, dir@, price@)->Object_0);
    Json::Object(m)
}

fn one_request(e: KuCoinPositionEndpoint, j: Json) -> (r: Vec<(KuCoinPositionEndpoint, Json)>)
    ensures
        requests_view(r@) == seq![(e, j@)],
{
    let mut v: Vec<(KuCoinPositionEndpoint, Json)> = Vec::new();
    let ghost jv = j@;
    v.push((e, j));
    assert(requests_view(v@) =~= seq![(e, jv)]);
    v
}

/// The requests of a KuCoin position change, in the order they are sent:
/// leverage, auto-deposit (on for cross margin), a margin deposit, a
/// zero-size closing order, or a closing stop order for each of take-profit
/// (`up`) and stop-loss (`down`) that is given. Client ids are `cc_`, `tp_` or
/// `sl_` and `stamp` (the time). Every change is for futures only; removing
/// margin and the changes KuCoin lacks are refused.
pub fn kucoin_position_request(req: &PositionInput, stamp: &str) -> (r: Result<
    Vec<(KuCoinPositionEndpoint, Json)>,
    ExchangeError,
>)
    ensures
        match r {
            Ok(v) => kucoin_position_spec(*req, stamp@) == Ok::<Seq<(KuCoinPositionEndpoint, JsonV)>, Seq<char>>(
                requests_view(v@),
            ),
            Err(ExchangeError::UnsupportedOperation(m)) => kucoin_position_spec(*req, stamp@) == Err::<
                Seq<(KuCoinPositionEndpoint, JsonV)>,
                Seq<char>,
            >(m@),
            Err(_) => false,
        },
{
    let spot = spot_account(req.account_type);
    let sym = req.symbol.as_str();
    match &req.change {
        PositionChange::SetLeverage { leverage } => {
            if spot {
                return Err(kc_refuse("Leverage not supported for Spot/Margin"));
            }
            let mut m: Vec<(String, Json)> = Vec::new();
            push_member(&mut m, "symbol", Json::string(sym));
            push_member(&mut m, "level", Json::from_u64(*leverage as u64));
            assert(members_view(m@) =~= seq![
                ("symbol"@, s_v(sym@)),
                ("level"@, JsonV::Number(decimal_text(*leverage as nat))),
            ]);
            Ok(one_request(KuCoinPositionEndpoint::FuturesSetLeverage, Json::Object(m)))
        },
        PositionChange::SetMarginMode { margin_type } => {
            if spot {
                return Err(kc_refuse("SetMarginMode not supported for Spot/Margin on KuCoin"));
            }
            let auto = match margin_type {
                MarginType::Isolated => false,
                MarginType::Cross => true,
            };
            let mut m: Vec<(String, Json)> = Vec::new();
            push_member(&mut m, "symbol", Json::string(sym));
            push_member(&mut m, "autoDeposit", Json::Bool(auto));
            assert(members_view(m@) =~= seq![
                ("symbol"@, s_v(sym@)),
                ("autoDeposit"@, JsonV::Bool(*margin_type == MarginType::Cross)),
            ]);
            Ok(one_request(KuCoinPositionEndpoint::AutoDepositStatus, Json::Object(m)))
        },
        PositionChange::AddMargin { amount } => {
            if spot {
                return Err(kc_refuse("AddMargin only supported for futures on KuCoin"));
            }
            let biz = concat("cc_", stamp);
            let mut m: Vec<(String, Json)> = Vec::new();
            push_member(&mut m, "symbol", Json::string(sym));
            push_member(&mut m, "bizNo", Json::string(biz.as_str()));
            push_member(&mut m, "margin", Json::Number(amount.as_str().to_owned()));
            assert(members_view(m@) =~= seq![
                ("symbol"@, s_v(sym@)),
                ("bizNo"@, s_v("cc_"@ + stamp@)),
                ("margin"@, JsonV::Number(amount@)),
            ]);
            Ok(one_request(KuCoinPositionEndpoint::DepositMargin, Json::Object(m)))
        },
        PositionChange::RemoveMargin { .. } => Err(kc_refuse("KuCoin does not support RemoveMargin on futures positions")),
        PositionChange::ClosePosition => {
            if spot {
                return Err(kc_refuse("ClosePosition only supported for futures on KuCoin"));
            }
            let oid = concat("cc_", stamp);
            let mut m: Vec<(String, Json)> = Vec::new();
            push_member(&mut m, "clientOid", Json::string(oid.as_str()));
            push_member(&mut m, "symbol", Json::string(sym));
            push_member(&mut m, "side", Json::string("buy"));
            push_member(&mut m, "type", Json::string("market"));
            push_member(&mut m, "size", Json::from_u64(0));
            push_member(&mut m, "closeOrder", Json::Bool(true));
            assert(members_view(m@) =~= seq![
                ("clientOid"@, s_v("cc_"@ + stamp@)),
                ("symbol"@, s_v(sym@)),
                ("side"@, s_v("buy"@)),
                ("type"@, s_v("market"@)),
                ("size"@, JsonV::Number(seq!['0'])),
                ("closeOrder"@, JsonV::Bool(true)),
            ]);
            Ok(one_request(KuCoinPositionEndpoint::FuturesCreateOrder, Json::Object(m)))
        },
        PositionChange::SetTpSl { take_profit, stop_loss } => {
            if spot {
                return Err(kc_refuse("SetTpSl only supported for futures on KuCoin"));
            }
            let mut v: Vec<(KuCoinPositionEndpoint, Json)> = Vec::new();
            assert(requests_view(v@) =~= Seq::<(KuCoinPositionEndpoint, JsonV)>::empty());
            if let Some(tp) = take_profit {
                let oid = concat("tp_", stamp);
                let j = close_stop(oid.as_str(), sym, "up", tp.as_str());
                let ghost jv = j@;
                v.push((KuCoinPositionEndpoint::FuturesCreateOrder, j));
                assert(requests_view(v@) =~= seq![(KuCoinPositionEndpoint::FuturesCreateOrder, jv)]);
            }
            let ghost before = requests_view(v@);
            if let Some(sl) = stop_loss {
                let oid = concat("sl_", stamp);
                let j = close_stop(oid.as_str(), sym, "down", sl.as_str());
                let ghost jv = j@;
                v.push((KuCoinPositionEndpoint::FuturesCreateOrder, j));
                assert(requests_view(v@) =~= before + seq![(KuCoinPositionEndpoint::FuturesCreateOrder, jv)]);
            } else {
                assert(requests_view(v@) =~= before + Seq::<(KuCoinPositionEndpoint, JsonV)>::empty());
            }
            Ok(v)
        },
        _ => Err(kc_refuse("This position modification is not supported by KuCoin")),
    }
}

/// Where a KuCoin funds history is read.
#[derive(Debug, Clone, Copy, PartialEq, Eq, Structural)]
pub enum KuCoinFundsEndpoint {
    /// `/api/v1/deposits`
    DepositHistory,
    /// `/api/v1/withdrawals`
    WithdrawalHistory,
}

/// The query pairs of a KuCoin funds history: `currency`, `startAt`,
/// `endAt` (milliseconds) and `pageSize` (at most 500), each when given.
pub open spec fn kucoin_funds_pairs(f: FundsFilter) -> Seq<(Seq<char>, Seq<char>)> {
    funds_pairs(f, "currency"@, "startAt"@, "endAt"@, "pageSize"@, 1, 500)
}

/// Endpoint and query of a KuCoin funds history: deposits (also for both
/// kinds) or withdrawals; the query is `?` and the pairs joined, or empty
/// when there are none.
pub open spec fn kucoin_funds_spec(f: FundsFilter) -> (KuCoinFundsEndpoint, Seq<char>) {
    (
        if f.record_type is Withdrawal {
            KuCoinFundsEndpoint::WithdrawalHistory
        } else {
            KuCoinFundsEndpoint::DepositHistory
        },
        if kucoin_funds_pairs(f).len() == 0 {
            Seq::empty()
        } else {
            "?"@ + joined(kucoin_funds_pairs(f))
        },
    )
}

/// The endpoint and query (with its `?`) of a KuCoin funds history request.
pub fn kucoin_funds_query(filter: &FundsFilter) -> (r: (KuCoinFundsEndpoint, String))
    ensures
        (r.0, r.1@) == kucoin_funds_spec(*filter),
{
    let ep = match filter.record_type {
        FundsRecordType::Withdrawal => KuCoinFundsEndpoint::WithdrawalHistory,
        _ => KuCoinFundsEndpoint::DepositHistory,
    };
    let pairs = funds_query_pairs(filter, "currency", "startAt", "endAt", "pageSize", 1, 500);
    if pairs.len() == 0 {
        proof {
            reveal_strlit("");
        }
        (ep, "".to_owned())
    } else {
        let q = join_pairs(&pairs);
        (ep, concat("?", q.as_str()))
    }
}

/// The items of `data["items"]` when it is an array; none otherwise.
pub open spec fn kc_items(data: JsonV) -> Seq<JsonV> {
    match crate::common::json::member(data, "items"@) {
        Some(JsonV::Array(items)) => items,
        _ => Seq::empty(),
    }
}

/// The record's time in milliseconds, 0 when absent.
pub open spec fn kc_time(item: JsonV) -> int {
    match int_member(item, "createdAt"@) {
        Some(t) => t,
        None => 0,
    }
}

pub open spec fn kc_record(item: JsonV, record_type: FundsRecordType) -> FundsRecordV {
    record_of(
        item,
        !(record_type is Withdrawal),
        kc_time(item),
        "txId"@,
        str_or(item, "address"@, Seq::empty()),
    )
}

/// The records of a KuCoin funds history reply's `data`.
pub open spec fn kucoin_funds_records_spec(data: JsonV, record_type: FundsRecordType) -> Seq<FundsRecordV> {
    kc_items(data).map_values(|item: JsonV| kc_record(item, record_type))
}

/// The deposit or withdrawal records in `data["items"]`, one per item, in
/// order (`Both` reads deposits).
pub fn kucoin_funds_records(data: &Json, record_type: FundsRecordType) -> (r: Vec<FundsRecord>)
    ensures
        records_view(r@) == kucoin_funds_records_spec(data@, record_type),
{
    proof {
        reveal_strlit("");
    }
    let mut out: Vec<FundsRecord> = Vec::new();
    let deposit = match record_type {
        FundsRecordType::Withdrawal => false,
        _ => true,
    };
    let arr = match data.get("items") {
        Some(m) => m.as_array(),
        None => None,
    };
    if let Some(items) = arr {
        let ghost spec_items = kc_items(data@);
        proof {
            crate::common::json::lemma_items_view(items@);
        }
        let mut i: usize = 0;
        while i < items.len()
            invariant
                0 <= i <= items.len(),
                spec_items == crate::common::json::items_view(items@),
                spec_items.len() == items.len(),
                forall|k: int| 0 <= k < items.len() ==> #[trigger] spec_items[k] == items@[k]@,
                deposit == !(record_type is Withdrawal),
                records_view(out@) == spec_items.take(i as int).map_values(|item: JsonV| kc_record(item, record_type)),
            decreases items.len() - i,
        {
            let item = &items[i];
            assert(spec_items[i as int] == item@);
            let ts: i64 = match read_i64(item, "createdAt") {
                Some(t) => t,
                None => 0,
            };
            let address = read_str_or(item, "address", "");
            proof {
                reveal_strlit("");
            }
            let rec = record_from(item, deposit, ts, "txId", address);
            assert(ts as int == kc_time(item@));
            assert(address@ == str_or(item@, "address"@, Seq::empty()));
            assert(record_view(rec) == kc_record(spec_items[i as int], record_type));
            let ghost before = out@;
            out.push(rec);
            proof {
                assert(records_view(out@) =~= records_view(before).push(record_view(rec)));
                assert(spec_items.take(i as int + 1) =~= spec_items.take(i as int).push(spec_items[i as int]));
                assert(records_view(out@) =~= spec_items.take(i as int + 1).map_values(
                    |item: JsonV| kc_record(item, record_type),
                ));
            }
            i = i + 1;
        }
        proof {
            assert(spec_items.take(items.len() as int) =~= spec_items);
        }
    } else {
        proof {
            assert(records_view(out@) =~= kucoin_funds_records_spec(data@, record_type));
        }
    }
    out
}

/// Where a KuCoin sub-account operation is sent: creating (POST), listing
/// (GET), transferring (POST) and reading a balance (GET, the sub-user id in
/// the path).
#[derive(Debug, Clone, Copy, PartialEq, Eq, Structural)]
pub enum KuCoinSubEndpoint {
    /// `/api/v2/sub/user/created`
    SubAccountCreate,
    /// `/api/v2/sub/user`
    SubAccountList,
    /// `/api/v2/accounts/sub-transfer`
    SubAccountTransfer,
    /// `/api/v1/sub-accounts/{subUserId}`
    SubAccountBalance,
}

/// Endpoint, path argument and body of a KuCoin sub-account operation; the
/// transfer's client id is `cc_` and the time text `stamp`, its direction
/// `OUT` to the sub-account and `IN` from it.
pub open spec fn kucoin_sub_account_spec(op: SubAccountOperation, stamp: Seq<char>) -> (
    KuCoinSubEndpoint,
    Option<Seq<char>>,
    Option<JsonV>,
) {
    match op {
        SubAccountOperation::Create { label } => (
            KuCoinSubEndpoint::SubAccountCreate,
            None,
            Some(JsonV::Object(seq![("subName"@, s_v(label@)), ("access"@, s_v("All"@))])),
        ),
        SubAccountOperation::List => (KuCoinSubEndpoint::SubAccountList, None, None),
        SubAccountOperation::Transfer { sub_account_id, asset, amount, to_sub } => (
            KuCoinSubEndpoint::SubAccountTransfer,
            None,
            Some(
                JsonV::Object(
                    seq![
                        ("clientOid"@, s_v("cc_"@ + stamp)),
                        ("currency"@, s_v(asset@)),
                        ("amount"@, s_v(amount@)),
                        ("direction"@, s_v(if to_sub { "OUT"@ } else { "IN"@ })),
                        ("subUserId"@, s_v(sub_account_id@)),
                        ("accountType"@, s_v("MAIN"@)),
                    ],
                ),
            ),
        ),
        SubAccountOperation::GetBalance { sub_account_id } => (
            KuCoinSubEndpoint::SubAccountBalance,
            Some(sub_account_id@),
            None,
        ),
    }
}

pub open spec fn opt_json_view(o: Option<Json>) -> Option<JsonV> {
    match o {
        Some(j) => Some(j@),
        None => None,
    }
}

pub open spec fn opt_string_view(o: Option<String>) -> Option<Seq<char>> {
    match o {
        Some(s) => Some(s@),
        None => None,
    }
}

/// The endpoint, path argument and JSON body of a KuCoin sub-account operation.
pub fn kucoin_sub_account_request(op: &SubAccountOperation, stamp: &str) -> (r: (
    KuCoinSubEndpoint,
    Option<String>,
    Option<Json>,
))
    ensures
        (r.0, opt_string_view(r.1), opt_json_view(r.2)) == kucoin_sub_account_spec(*op, stamp@),
{
    match op {
        SubAccountOperation::Create { label } => {
            let mut m: Vec<(String, Json)> = Vec::new();
            push_member(&mut m, "subName", Json::string(label.as_str()));
            push_member(&mut m, "access", Json::string("All"));
            proof {
                assert(members_view(m@) =~= seq![("subName"@, s_v(label@)), ("access"@, s_v("All"@))]);
            }
            (KuCoinSubEndpoint::SubAccountCreate, None, Some(Json::Object(m)))
        },
        SubAccountOperation::List => (KuCoinSubEndpoint::SubAccountList, None, None),
        SubAccountOperation::Transfer { sub_account_id, asset, amount, to_sub } => {
            let oid = concat("cc_", stamp);
            let mut m: Vec<(String, Json)> = Vec::new();
            push_member(&mut m, "clientOid", Json::string(oid.as_str()));
            push_member(&mut m, "currency", Json::string(asset.as_str()));
            push_member(&mut m, "amount", Json::string(amount.as_str()));
            push_member(&mut m, "direction", Json::string(if *to_sub { "OUT" } else { "IN" }));
            push_member(&mut m, "subUserId", Json::string(sub_account_id.as_str()));
            push_member(&mut m, "accountType", Json::string("MAIN"));
            proof {
                assert(members_view(m@) =~= seq![
                    ("clientOid"@, s_v("cc_"@ + stamp@)),
                    ("currency"@, s_v(asset@)),
                    ("amount"@, s_v(amount@)),
                    ("direction"@, s_v(if *to_sub { "OUT"@ } else { "IN"@ })),
                    ("subUserId"@, s_v(sub_account_id@)),
                    ("accountType"@, s_v("MAIN"@)),
                ]);
            }
            (KuCoinSubEndpoint::SubAccountTransfer, None, Some(Json::Object(m)))
        },
        SubAccountOperation::GetBalance { sub_account_id } => (
            KuCoinSubEndpoint::SubAccountBalance,
            Some(sub_account_id.clone()),
            None,
        ),
    }
}

pub open spec fn sub_accounts_view(v: Seq<SubAccount>) -> Seq<(Seq<char>, Seq<char>, Seq<char>)> {
    v.map_values(|a: SubAccount| (a.id@, a.name@, a.status@))
}

/// The view of a result: id, name, listed accounts, transaction id.
pub open spec fn sub_result_view(r: SubAccountResult) -> (
    Option<Seq<char>>,
    Option<Seq<char>>,
    Seq<(Seq<char>, Seq<char>, Seq<char>)>,
    Option<Seq<char>>,
) {
    (opt_string_view(r.id), opt_string_view(r.name), sub_accounts_view(r.accounts@), opt_string_view(r.transaction_id))
}

/// One listed sub-account: `userId`, `subName` (empty when absent) and
/// `status` (`Normal` when absent).
pub open spec fn listed_account(item: JsonV) -> (Seq<char>, Seq<char>, Seq<char>) {
    (str_or(item, "userId"@, Seq::empty()), str_or(item, "subName"@, Seq::empty()), str_or(item, "status"@, "Normal"@))
}

pub open spec fn data_items(data: JsonV) -> Seq<JsonV> {
    match data {
        JsonV::Array(items) => items,
        _ => Seq::empty(),
    }
}

/// What a KuCoin sub-account operation reports, read from the reply's `data`:
/// a created account's `uid` (else `userId`, else empty) and `subName` (else
/// the label); the listed accounts; a transfer's `orderId` (else its client id).
pub open spec fn kucoin_sub_account_result_spec(op: SubAccountOperation, data: JsonV, stamp: Seq<char>) -> (
    Option<Seq<char>>,
    Option<Seq<char>>,
    Seq<(Seq<char>, Seq<char>, Seq<char>)>,
    Option<Seq<char>>,
) {
    match op {
        SubAccountOperation::Create { label } => (
            Some(
                match crate::common::json::str_member(data, "uid"@) {
                    Some(u) => u,
                    None => str_or(data, "userId"@, Seq::empty()),
                },
            ),
            Some(str_or(data, "subName"@, label@)),
            Seq::empty(),
            None,
        ),
        SubAccountOperation::List => (
            None,
            None,
            data_items(data).map_values(|item: JsonV| listed_account(item)),
            None,
        ),
        SubAccountOperation::Transfer { sub_account_id, .. } => (
            Some(sub_account_id@),
            None,
            Seq::empty(),
            Some(str_or(data, "orderId"@, "cc_"@ + stamp)),
        ),
        SubAccountOperation::GetBalance { sub_account_id } => (Some(sub_account_id@), None, Seq::empty(), None),
    }
}

fn listed_accounts(data: &Json) -> (r: Vec<SubAccount>)
    ensures
        sub_accounts_view(r@) == data_items(data@).map_values(|item: JsonV| listed_account(item)),
{
    let mut out: Vec<SubAccount> = Vec::new();
    if let Some(items) = data.as_array() {
        let ghost spec_items = data_items(data@);
        proof {
            crate::common::json::lemma_items_view(items@);
        }
        let mut i: usize = 0;
        while i < items.len()
            invariant
                0 <= i <= items.len(),
                spec_items == crate::common::json::items_view(items@),
                spec_items.len() == items.len(),
                forall|k: int| 0 <= k < items.len() ==> #[trigger] spec_items[k] == items@[k]@,
                sub_accounts_view(out@) == spec_items.take(i as int).map_values(|item: JsonV| listed_account(item)),
            decreases items.len() - i,
        {
            let item = &items[i];
            proof {
                reveal_strlit("");
            }
            let a = SubAccount {
                id: read_str_or(item, "userId", ""),
                name: read_str_or(item, "subName", ""),
                status: read_str_or(item, "status", "Normal"),
            };
            assert((a.id@, a.name@, a.status@) == listed_account(spec_items[i as int]));
            let ghost before = out@;
            out.push(a);
            proof {
                assert(sub_accounts_view(out@) =~= sub_accounts_view(before).push((a.id@, a.name@, a.status@)));
                assert(spec_items.take(i as int + 1) =~= spec_items.take(i as int).push(spec_items[i as int]));
                assert(sub_accounts_view(out@) =~= spec_items.take(i as int + 1).map_values(
                    |item: JsonV| listed_account(item),
                ));
            }
            i = i + 1;
        }
        proof {
            assert(spec_items.take(items.len() as int) =~= spec_items);
        }
    } else {
        proof {
            assert(sub_accounts_view(out@) =~= data_items(data@).map_values(|item: JsonV| listed_account(item)));
        }
    }
    out
}

/// What a KuCoin sub-account operation reports, from the reply's `data`
/// (`stamp` is the time text the request's client id was made from).
pub fn kucoin_sub_account_result(op: &SubAccountOperation, data: &Json, stamp: &str) -> (r: SubAccountResult)
    ensures
        sub_result_view(r) == kucoin_sub_account_result_spec(*op, data@, stamp@),
{
    proof {
        reveal_strlit("");
    }
    let none: Vec<SubAccount> = Vec::new();
    proof {
        assert(sub_accounts_view(none@) =~= Seq::empty());
    }
    match op {
        SubAccountOperation::Create { label } => {
            let uid = match data.get_str("uid") {
                Some(u) => u.to_owned(),
                None => read_str_or(data, "userId", ""),
            };
            let name = read_str_or(data, "subName", label.as_str());
            SubAccountResult { id: Some(uid), name: Some(name), accounts: none, transaction_id: None }
        },
        SubAccountOperation::List => {
            let accounts = listed_accounts(data);
            SubAccountResult { id: None, name: None, accounts, transaction_id: None }
        },
        SubAccountOperation::Transfer { sub_account_id, .. } => {
            let oid = concat("cc_", stamp);
            let order_id = read_str_or(data, "orderId", oid.as_str());
            SubAccountResult {
                id: Some(sub_account_id.clone()),
                name: None,
                accounts: none,
                transaction_id: Some(order_id),
            }
        },
        SubAccountOperation::GetBalance { sub_account_id } => SubAccountResult {
            id: Some(sub_account_id.clone()),
            name: None,
            accounts: none,
            transaction_id: None,
        },
    }
}

/// Where a single KuCoin order is cancelled.
#[derive(Debug, Clone, Copy, PartialEq, Eq, Structural)]
pub enum KuCoinCancelEndpoint {
    /// `/api/v1/orders/{orderId}` (spot)
    SpotCancelOrder,
    /// `/api/v1/orders/{orderId}` (futures)
    FuturesCancelOrder,
}

/// What a KuCoin cancel does.
#[derive(Debug)]
pub enum KuCoinCancelPlan {
    /// Deletes one order by id.
    One { endpoint: KuCoinCancelEndpoint, order_id: String },
    /// Cancels every open order, of the symbol when one is given.
    All { symbol: Option<String> },
}

pub ghost enum KuCoinCancelPlanV {
    One { endpoint: KuCoinCancelEndpoint, order_id: Seq<char> },
    All { symbol: Option<Seq<char>> },
}

pub open spec fn kc_cancel_view(p: KuCoinCancelPlan) -> KuCoinCancelPlanV {
    match p {
        KuCoinCancelPlan::One { endpoint, order_id } => KuCoinCancelPlanV::One { endpoint, order_id: order_id@ },
        KuCoinCancelPlan::All { symbol } => KuCoinCancelPlanV::All { symbol: opt_string_view(symbol) },
    }
}

/// What a KuCoin cancel does, or the error (invalid request flag and
/// message): one order needs a symbol; batches and other scopes are refused.
pub open spec fn kucoin_cancel_spec(req: CancelInput) -> Result<KuCoinCancelPlanV, (bool, Seq<char>)> {
    match req.scope {
        CancelScope::Single { order_id } => if req.symbol is None {
            Err((true, "Symbol required for cancel"@))
        } else {
            Ok(
                KuCoinCancelPlanV::One {
                    endpoint: if is_spot_account(req.account_type) {
                        KuCoinCancelEndpoint::SpotCancelOrder
                    } else {
                        KuCoinCancelEndpoint::FuturesCancelOrder
                    },
                    order_id: order_id@,
                },
            )
        },
        CancelScope::All { symbol } => Ok(KuCoinCancelPlanV::All { symbol: opt_string_view(symbol) }),
        CancelScope::BySymbol { symbol } => Ok(KuCoinCancelPlanV::All { symbol: Some(symbol@) }),
        CancelScope::Batch { .. } => Err((false, "KuCoin does not support batch cancel. Cancel orders individually."@)),
        CancelScope::Other => Err((false, "This cancel scope is not supported by KuCoin"@)),
    }
}

/// What a KuCoin cancel request does (see `kucoin_cancel_spec`).
pub fn kucoin_cancel_request(req: &CancelInput) -> (r: Result<KuCoinCancelPlan, ExchangeError>)
    ensures
        match r {
            Ok(p) => kucoin_cancel_spec(*req) == Ok::<KuCoinCancelPlanV, (bool, Seq<char>)>(kc_cancel_view(p)),
            Err(e) => kucoin_cancel_spec(*req) is Err && error_matches(e, kucoin_cancel_spec(*req)->Err_0),
        },
{
    match &req.scope {
        CancelScope::Single { order_id } => {
            if req.symbol.is_none() {
                return Err(ExchangeError::InvalidRequest("Symbol required for cancel".to_owned()));
            }
            let endpoint = if spot_account(req.account_type) {
                KuCoinCancelEndpoint::SpotCancelOrder
            } else {
                KuCoinCancelEndpoint::FuturesCancelOrder
            };
            Ok(KuCoinCancelPlan::One { endpoint, order_id: order_id.clone() })
        },
        CancelScope::All { symbol } => Ok(KuCoinCancelPlan::All { symbol: symbol.clone() }),
        CancelScope::BySymbol { symbol } => Ok(KuCoinCancelPlan::All { symbol: Some(symbol.clone()) }),
        CancelScope::Batch { .. } => Err(
            ExchangeError::UnsupportedOperation(
                "KuCoin does not support batch cancel. Cancel orders individually.".to_owned(),
            ),
        ),
        CancelScope::Other => Err(
            ExchangeError::UnsupportedOperation("This cancel scope is not supported by KuCoin".to_owned()),
        ),
    }
}

/// Where a KuCoin order batch is posted.
#[derive(Debug, Clone, Copy, PartialEq, Eq, Structural)]
pub enum KuCoinBatchEndpoint {
    /// `/api/v1/hf/orders/multi`
    SpotBatchOrders,
    /// `/api/v1/orders/multi` (futures)
    FuturesBatchOrders,
}

/// A spot batch order's `timeInForce`: IOC and FOK by name, the rest `GTC`.
pub open spec fn batch_tif(t: TimeInForce) -> Seq<char> {
    match t {
        TimeInForce::Ioc => "IOC"@,
        TimeInForce::Fok => "FOK"@,
        _ => "GTC"@,
    }
}

/// One order of a KuCoin batch (client id `oid`): spot orders are limit
/// orders (with their price when they have one); futures orders are market
/// orders unless limit, marked `reduceOnly` when reduce-only.
pub open spec fn kc_batch_item(req: OrderInput, oid: Seq<char>, spot: bool) -> JsonV {
    let head = seq![("clientOid"@, s_v(oid)), ("symbol"@, s_v(req.symbol@)), ("side"@, s_v(kc_side(req.side)))];
    if spot {
        let base = head + seq![
            ("type"@, s_v("limit"@)),
            ("timeInForce"@, s_v(batch_tif(req.time_in_force))),
            ("size"@, s_v(req.amount@)),
        ];
        JsonV::Object(
            match req.kind {
                OrderKind::Limit { price } => base.push(("price"@, s_v(price@))),
                _ => base,
            },
        )
    } else {
        let base = head.push(("size"@, s_v(req.amount@)));
        let typed = match req.kind {
            OrderKind::Limit { price } => base.push(("type"@, s_v("limit"@))).push(("price"@, s_v(price@))),
            _ => base.push(("type"@, s_v("market"@))),
        };
        JsonV::Object(if req.reduce_only { typed.push(("reduceOnly"@, JsonV::Bool(true))) } else { typed })
    }
}

/// How many orders one KuCoin batch holds: 20 on futures, 5 otherwise.
pub open spec fn kc_batch_limit(at: crate::common::types::AccountType) -> nat {
    if at is FuturesCross || at is FuturesIsolated {
        20
    } else {
        5
    }
}

/// Endpoint and body of a KuCoin order batch (all orders in the first
/// order's account type; ids `cc_` and `stamp` where the order has none),
/// `None` for no orders, or the error: more orders than the account type's
/// limit (invalid), or an account type with no batch endpoint (unsupported).
pub open spec fn kucoin_batch_spec(orders: Seq<OrderInput>, stamp: Seq<char>) -> Result<
    Option<(KuCoinBatchEndpoint, JsonV)>,
    (bool, Seq<char>),
> {
    if orders.len() == 0 {
        Ok(None)
    } else if orders.len() > kc_batch_limit(orders[0].account_type) {
        Err(
            (
                true,
                "Batch size "@ + decimal_text(orders.len()) + " exceeds KuCoin limit of "@ + decimal_text(
                    kc_batch_limit(orders[0].account_type),
                ),
            ),
        )
    } else {
        let at = orders[0].account_type;
        if !(is_spot_account(at) || at is FuturesCross || at is FuturesIsolated) {
            Err((false, "This account type is not supported for batch orders on KuCoin"@))
        } else {
            let spot = is_spot_account(at);
            Ok(
                Some(
                    (
                        if spot { KuCoinBatchEndpoint::SpotBatchOrders } else { KuCoinBatchEndpoint::FuturesBatchOrders },
                        JsonV::Array(
                            orders.map_values(|req: OrderInput| kc_batch_item(req, order_text(req, "cc_"@ + stamp), spot)),
                        ),
                    ),
                ),
            )
        }
    }
}

fn kc_batch_order(req: &OrderInput, oid: &str, spot: bool) -> (r: Json)
    ensures
        r@ == kc_batch_item(*req, oid@, spot),
{
    let mut m: Vec<(String, Json)> = Vec::new();
    push_member(&mut m, "clientOid", Json::string(oid));
    push_member(&mut m, "symbol", Json::string(req.symbol.as_str()));
    push_member(&mut m, "side", Json::string(match req.side {
        OrderSide::Buy => "buy",
        OrderSide::Sell => "sell",
    }));
    if spot {
        push_member(&mut m, "type", Json::string("limit"));
        push_member(&mut m, "timeInForce", Json::string(match req.time_in_force {
            TimeInForce::Ioc => "IOC",
            TimeInForce::Fok => "FOK",
            _ => "GTC",
        }));
        push_member(&mut m, "size", Json::string(req.amount.as_str()));
        if let OrderKind::Limit { price } = &req.kind {
            push_member(&mut m, "price", Json::string(price.as_str()));
        }
    } else {
        push_member(&mut m, "size", Json::string(req.amount.as_str()));
        match &req.kind {
            OrderKind::Limit { price } => {
                push_member(&mut m, "type", Json::string("limit"));
                push_member(&mut m, "price", Json::string(price.as_str()));
            },
            _ => push_member(&mut m, "type", Json::string("market")),
        }
        if req.reduce_only {
            push_member(&mut m, "reduceOnly", Json::Bool(true));
        }
    }
    proof {
        let rq = *req;
        let head = seq![("clientOid"@, s_v(oid@)), ("symbol"@, s_v(rq.symbol@)), ("side"@, s_v(kc_side(rq.side)))];
        if spot {
            let base = head + seq![
                ("type"@, s_v("limit"@)),
                ("timeInForce"@, s_v(batch_tif(rq.time_in_force))),
                ("size"@, s_v(rq.amount@)),
            ];
            let whole = match rq.kind {
                OrderKind::Limit { price } => base.push(("price"@, s_v(price@))),
                _ => base,
            };
            assert(members_view(m@) =~= whole);
        } else {
            let base = head.push(("size"@, s_v(rq.amount@)));
            let typed = match rq.kind {
                OrderKind::Limit { price } => base.push(("type"@, s_v("limit"@))).push(("price"@, s_v(price@))),
                _ => base.push(("type"@, s_v("market"@))),
            };
            let whole = if rq.reduce_only { typed.push(("reduceOnly"@, JsonV::Bool(true))) } else { typed };
            assert(members_view(m@) =~= whole);
        }
    }
    Json::Object(m)
}

/// The endpoint and JSON body of a KuCoin order batch (see `kucoin_batch_spec`).
pub fn kucoin_batch_request(orders: &Vec<OrderInput>, stamp: &str) -> (r: Result<
    Option<(KuCoinBatchEndpoint, Json)>,
    ExchangeError,
>)
    ensures
        match r {
            Ok(None) => kucoin_batch_spec(orders@, stamp@) == Ok::<
                Option<(KuCoinBatchEndpoint, JsonV)>,
                (bool, Seq<char>),
            >(None),
            Ok(Some((e, j))) => kucoin_batch_spec(orders@, stamp@) == Ok::<
                Option<(KuCoinBatchEndpoint, JsonV)>,
                (bool, Seq<char>),
            >(Some((e, j@))),
            Err(e) => kucoin_batch_spec(orders@, stamp@) is Err && error_matches(
                e,
                kucoin_batch_spec(orders@, stamp@)->Err_0,
            ),
        },
{
    if orders.len() == 0 {
        return Ok(None);
    }
    let at = orders[0].account_type;
    let spot = spot_account(at);
    let futures = match at {
        crate::common::types::AccountType::FuturesCross | crate::common::types::AccountType::FuturesIsolated => true,
        _ => false,
    };
    let limit: usize = if futures { 20 } else { 5 };
    if orders.len() > limit {
        let mut msg = concat("Batch size ", u64_text(orders.len() as u64).as_str());
        crate::common::text::push_str(&mut msg, " exceeds KuCoin limit of ");
        crate::common::text::push_str(&mut msg, u64_text(limit as u64).as_str());
        return Err(ExchangeError::InvalidRequest(msg));
    }
    if !spot && !futures {
        return Err(
            ExchangeError::UnsupportedOperation("This account type is not supported for batch orders on KuCoin".to_owned()),
        );
    }
    let generated = concat("cc_", stamp);
    let mut items: Vec<Json> = Vec::new();
    let mut i: usize = 0;
    while i < orders.len()
        invariant
            0 <= i <= orders.len(),
            spot == is_spot_account(orders@[0].account_type),
            generated@ == "cc_"@ + stamp@,
            crate::common::json::items_view(items@) == orders@.take(i as int).map_values(
                |req: OrderInput| kc_batch_item(req, order_text(req, "cc_"@ + stamp@), spot),
            ),
        decreases orders.len() - i,
    {
        let req = &orders[i];
        let oid: &str = match &req.client_order_id {
            Some(c) => c.as_str(),
            None => generated.as_str(),
        };
        let item = kc_batch_order(req, oid, spot);
        crate::common::json::push_item(&mut items, item);
        assert(orders@.take(i as int + 1) =~= orders@.take(i as int).push(orders@[i as int]));
        assert(crate::common::json::items_view(items@) =~= orders@.take(i as int + 1).map_values(
            |req: OrderInput| kc_batch_item(req, order_text(req, "cc_"@ + stamp@), spot),
        ));
        i = i + 1;
    }
    assert(orders@.take(orders.len() as int) =~= orders@);
    let endpoint = if spot { KuCoinBatchEndpoint::SpotBatchOrders } else { KuCoinBatchEndpoint::FuturesBatchOrders };
    Ok(Some((endpoint, Json::Array(items))))
}

/// The query of a KuCoin transfer history: `?` and `startAt`, `endAt`
/// (milliseconds) and `pageSize` (at most 500) joined, each when given; empty
/// when none is.
pub open spec fn kucoin_transfer_query_spec(f: TransferFilter) -> Seq<char> {
    let ps = transfer_pairs(f, "startAt"@, "endAt"@, "pageSize"@, 1, 500);
    if ps.len() == 0 {
        Seq::empty()
    } else {
        "?"@ + joined(ps)
    }
}

/// The query (with its `?`) of a KuCoin transfer history request.
pub fn kucoin_transfer_query(filter: &TransferFilter) -> (r: String)
    ensures
        r@ == kucoin_transfer_query_spec(*filter),
{
    let pairs = transfer_query_pairs(filter, "startAt", "endAt", "pageSize", 1, 500);
    if pairs.len() == 0 {
        proof {
            reveal_strlit("");
        }
        "".to_owned()
    } else {
        let q = join_pairs(&pairs);
        concat("?", q.as_str())
    }
}

/// One KuCoin transfer: `orderId`, `status` (`DONE` when absent), the
/// currency, the amount text and `createdAt`.
pub open spec fn kc_transfer(item: JsonV) -> (Seq<char>, Seq<char>, Seq<char>, Option<Seq<char>>, Option<int>) {
    (
        str_or(item, "orderId"@, Seq::empty()),
        str_or(item, "status"@, "DONE"@),
        str_or(item, "currency"@, Seq::empty()),
        crate::common::json::str_member(item, "amount"@),
        int_member(item, "createdAt"@),
    )
}

/// The transfers in a KuCoin transfer history reply's `data["items"]`.
pub open spec fn kucoin_transfers_spec(data: JsonV) -> Seq<(Seq<char>, Seq<char>, Seq<char>, Option<Seq<char>>, Option<int>)> {
    kc_items(data).map_values(|item: JsonV| kc_transfer(item))
}

/// The transfers in `data["items"]`, one per item, in order.
pub fn kucoin_transfer_records(data: &Json) -> (r: Vec<TransferRecord>)
    ensures
        transfers_view(r@) == kucoin_transfers_spec(data@),
{
    let mut out: Vec<TransferRecord> = Vec::new();
    let arr = match data.get("items") {
        Some(m) => m.as_array(),
        None => None,
    };
    if let Some(items) = arr {
        let ghost spec_items = kc_items(data@);
        proof {
            crate::common::json::lemma_items_view(items@);
        }
        let mut i: usize = 0;
        while i < items.len()
            invariant
                0 <= i <= items.len(),
                spec_items == crate::common::json::items_view(items@),
                spec_items.len() == items.len(),
                forall|k: int| 0 <= k < items.len() ==> #[trigger] spec_items[k] == items@[k]@,
                transfers_view(out@) == spec_items.take(i as int).map_values(|item: JsonV| kc_transfer(item)),
            decreases items.len() - i,
        {
            let item = &items[i];
            proof {
                reveal_strlit("");
            }
            let rec = TransferRecord {
                transfer_id: read_str_or(item, "orderId", ""),
                status: read_str_or(item, "status", "DONE"),
                asset: read_str_or(item, "currency", ""),
                amount: read_str(item, "amount"),
                timestamp: read_i64(item, "createdAt"),
            };
            assert(transfer_view(rec) == kc_transfer(spec_items[i as int]));
            let ghost before = out@;
            out.push(rec);
            proof {
                assert(transfers_view(out@) =~= transfers_view(before).push(transfer_view(rec)));
                assert(spec_items.take(i as int + 1) =~= spec_items.take(i as int).push(spec_items[i as int]));
                assert(transfers_view(out@) =~= spec_items.take(i as int + 1).map_values(
                    |item: JsonV| kc_transfer(item),
                ));
            }
            i = i + 1;
        }
        proof {
            assert(spec_items.take(items.len() as int) =~= spec_items);
        }
    } else {
        proof {
            assert(transfers_view(out@) =~= kucoin_transfers_spec(data@));
        }
    }
    out
}

/// The time in force KuCoin reports for an order type: IOC and FOK by type,
/// the rest good till cancelled.
pub open spec fn kucoin_placed_tif(kind: OrderKind) -> TimeInForce {
    match kind {
        OrderKind::Ioc { .. } => TimeInForce::Ioc,
        OrderKind::Fok { .. } => TimeInForce::Fok,
        _ => TimeInForce::Gtc,
    }
}

/// The order KuCoin's placement reports once the exchange gave `order_id`:
/// the client id sent (the request's own, or `generated_oid`), type, symbol,
/// side and amount, status `New`, its prices, and the time in force of its type.
pub fn kucoin_placed_order(req: OrderInput, order_id: String, generated_oid: &str) -> (r: PlacedOrder)
    ensures
        r.id == order_id,
        opt_view(r.client_order_id) == Some(order_text(req, generated_oid@)),
        r.symbol == req.symbol && r.side == req.side && r.kind == req.kind && r.amount == req.amount,
        r.status == OrderStatus::New,
        (opt_view(r.price), opt_view(r.stop_price)) == order_prices(req.kind),
        r.time_in_force == kucoin_placed_tif(req.kind),
{
    let tif = match &req.kind {
        OrderKind::Ioc { .. } => TimeInForce::Ioc,
        OrderKind::Fok { .. } => TimeInForce::Fok,
        _ => TimeInForce::Gtc,
    };
    let client = match &req.client_order_id {
        Some(c) => c.clone(),
        None => generated_oid.to_owned(),
    };
    placed_order(req, order_id, Some(client), tif)
}

/// What a KuCoin cancel reports: the one order by id, or all orders under
/// `batch_cancel_` and the time text `stamp`, their amount the number of
/// orders cancelled.
pub fn kucoin_cancel_summary(req: &CancelInput, stamp: &str, cancelled: u64) -> (r: Option<PlacedOrder>)
    ensures
        reports_cancel(r, cancel_summary_spec(*req, "batch_cancel_"@, stamp@, decimal_text(cancelled as nat))),
{
    let count = u64_text(cancelled);
    cancel_summary(req, "batch_cancel_", stamp, count.as_str())
}

/// The body of a KuCoin futures amend (`/api/v1/orders/{orderId}` amend),
/// or the error: spot and margin cannot amend (unsupported), and an amend
/// needs a price or a quantity (invalid). The quantity is a contract count.
pub open spec fn kucoin_amend_spec(req: AmendInput) -> Result<JsonV, (bool, Seq<char>)> {
    if is_spot_account(req.account_type) {
        Err((false, "Amend order is not supported for Spot/Margin on KuCoin (futures only)"@))
    } else if req.price is None && req.quantity is None {
        Err((true, empty_amend_message()))
    } else {
        Ok(
            JsonV::Object(
                (match req.price {
                    Some(p) => seq![("price"@, s_v(p@))],
                    None => Seq::<(Seq<char>, JsonV)>::empty(),
                }) + (match req.quantity {
                    Some(q) => seq![("size"@, JsonV::Number(crate::common::text::signed_decimal_text(q.contracts as int)))],
                    None => Seq::empty(),
                }),
            ),
        )
    }
}

/// The JSON body of a KuCoin futures amend (see `kucoin_amend_spec`).
pub fn kucoin_amend_request(req: &AmendInput) -> (r: Result<Json, ExchangeError>)
    ensures
        match r {
            Ok(j) => kucoin_amend_spec(*req) == Ok::<JsonV, (bool, Seq<char>)>(j@),
            Err(e) => kucoin_amend_spec(*req) is Err && error_matches(e, kucoin_amend_spec(*req)->Err_0),
        },
{
    if spot_account(req.account_type) {
        return Err(
            ExchangeError::UnsupportedOperation(
                "Amend order is not supported for Spot/Margin on KuCoin (futures only)".to_owned(),
            ),
        );
    }
    if req.price.is_none() && req.quantity.is_none() {
        return Err(ExchangeError::InvalidRequest("At least one of price or quantity must be provided for amend".to_owned()));
    }
    let mut m: Vec<(String, Json)> = Vec::new();
    if let Some(p) = &req.price {
        push_member(&mut m, "price", Json::string(p.as_str()));
    }
    let ghost m1 = members_view(m@);
    if let Some(q) = &req.quantity {
        push_member(&mut m, "size", Json::from_i64(q.contracts));
    }
    proof {
        let rq = *req;
        assert(m1 =~= (match rq.price {
            Some(p) => seq![("price"@, s_v(p@))],
            None => Seq::<(Seq<char>, JsonV)>::empty(),
        }));
        assert(members_view(m@) =~= m1 + (match rq.quantity {
            Some(q) => seq![("size"@, JsonV::Number(crate::common::text::signed_decimal_text(q.contracts as int)))],
            None => Seq::<(Seq<char>, JsonV)>::empty(),
        }));
    }
    Ok(Json::Object(m))
}

/// A KuCoin stop order fires in the direction its side wants: the body's
/// `stop` is `up` for a buy and `down` for a sell, and `stopPrice` is the
/// order's stop price.
#[verifier::spinoff_prover]
#[verifier::rlimit(40)]
pub proof fn lemma_kucoin_stop_direction(req: OrderInput, generated: Seq<char>)
    requires
        req.kind is StopMarket || req.kind is StopLimit,
    ensures
        ({
            let stop = match req.kind {
                OrderKind::StopMarket { stop_price } => stop_price@,
                OrderKind::StopLimit { stop_price, .. } => stop_price@,
                _ => Seq::empty(),
            };
            &&& kucoin_order_spec(req, generated) is Ok
            &&& crate::common::json::member(kucoin_order_spec(req, generated)->Ok_0.1, "stop"@) == Some(
                JsonV::Str(if req.side == OrderSide::Buy { "up"@ } else { "down"@ }),
            )
            &&& crate::common::json::member(kucoin_order_spec(req, generated)->Ok_0.1, "stopPrice"@) == Some(
                JsonV::Str(stop),
            )
        }),
{
    reveal_strlit("clientOid");
    reveal_strlit("symbol");
    reveal_strlit("side");
    reveal_strlit("type");
    reveal_strlit("size");
    reveal_strlit("price");
    reveal_strlit("stop");
    reveal_strlit("stopPrice");
    reveal_strlit("up");
    reveal_strlit("down");
    reveal_with_fuel(crate::common::json::member_from, 9);
    assert("clientOid"@.len() == 9 && "symbol"@.len() == 6 && "side"@.len() == 4 && "type"@.len() == 4);
    assert("size"@.len() == 4 && "price"@.len() == 5 && "stop"@.len() == 4 && "stopPrice"@.len() == 9);
    assert("side"@[1] != "stop"@[1] && "type"@[0] != "stop"@[0] && "size"@[1] != "stop"@[1]);
    assert("clientOid"@[0] != "stopPrice"@[0]);
    assert("clientOid"@ != "stop"@ && "symbol"@ != "stop"@ && "side"@ != "stop"@ && "type"@ != "stop"@);
    assert("size"@ != "stop"@ && "price"@ != "stop"@);
    assert("clientOid"@ != "stopPrice"@ && "symbol"@ != "stopPrice"@ && "side"@ != "stopPrice"@);
    assert("type"@ != "stopPrice"@ && "size"@ != "stopPrice"@ && "price"@ != "stopPrice"@ && "stop"@ != "stopPrice"@);
    let oid = order_text(req, generated);
    let body = kucoin_order_spec(req, generated)->Ok_0.1;
    let dir = stop_dir(req.side);
    match req.kind {
        OrderKind::StopMarket { stop_price } => {
            let ms = kc_head_v(req, oid, "market"@) + seq![
                ("stop"@, s_v(dir)),
                ("stopPrice"@, s_v(stop_price@)),
                ("stopPriceType"@, s_v("TP"@)),
            ];
            assert(body == JsonV::Object(ms));
            assert(ms[5] == ("stop"@, s_v(dir)));
            assert(ms[6] == ("stopPrice"@, s_v(stop_price@)));
        },
        OrderKind::StopLimit { stop_price, limit_price } => {
            let ms = kc_head_v(req, oid, "limit"@) + seq![
                ("price"@, s_v(limit_price@)),
                ("stop"@, s_v(dir)),
                ("stopPrice"@, s_v(stop_price@)),
                ("stopPriceType"@, s_v("TP"@)),
            ];
            assert(body == JsonV::Object(ms));
            assert(ms[6] == ("stop"@, s_v(dir)));
            assert(ms[7] == ("stopPrice"@, s_v(stop_price@)));
        },
        _ => {},
    }
}

/// Every KuCoin order body names the instrument and the order's side:
/// `symbol` is the request's symbol and `side` is `buy` for a buy and `sell`
/// for a sell; the client id is the request's own, else the generated one.
#[verifier::spinoff_prover]
#[verifier::rlimit(40)]
pub proof fn lemma_kucoin_body_side(req: OrderInput, generated: Seq<char>)
    requires
        kucoin_order_spec(req, generated) is Ok,
    ensures
        ({
            let body = kucoin_order_spec(req, generated)->Ok_0.1;
            &&& crate::common::json::member(body, "side"@) == Some(
                JsonV::Str(if req.side == OrderSide::Buy { "buy"@ } else { "sell"@ }),
            )
            &&& crate::common::json::member(body, "symbol"@) == Some(JsonV::Str(req.symbol@))
            &&& crate::common::json::member(body, "clientOid"@) == Some(
                JsonV::Str(
                    match req.client_order_id {
                        Some(c) => c@,
                        None => generated,
                    },
                ),
            )
        }),
{
    reveal_strlit("clientOid");
    reveal_strlit("symbol");
    reveal_strlit("side");
    reveal_strlit("buy");
    reveal_strlit("sell");
    assert("clientOid"@.len() == 9 && "symbol"@.len() == 6 && "side"@.len() == 4);
    assert("clientOid"@ != "symbol"@ && "clientOid"@ != "side"@ && "symbol"@ != "side"@);
    reveal_with_fuel(crate::common::json::member_from, 4);
    let oid = order_text(req, generated);
    let body = kucoin_order_spec(req, generated)->Ok_0.1;
    let ms = body->Object_0;
    assert(body is Object);
    assert(ms.len() >= 3);
    assert(ms[0] == ("clientOid"@, s_v(oid)));
    assert(ms[1] == ("symbol"@, s_v(req.symbol@)));
    assert(ms[2] == ("side"@, s_v(kc_side(req.side))));
}

/// A KuCoin limit order rests at its price: the body's `price` is the limit
/// price, `postOnly` is set exactly when the time in force is post-only, and
/// `timeInForce` is `IOC` for IOC and `FOK` for FOK.
#[verifier::spinoff_prover]
#[verifier::rlimit(40)]
pub proof fn lemma_kucoin_limit_order(req: OrderInput, generated: Seq<char>)
    requires
        req.kind is Limit,
    ensures
        kucoin_order_spec(req, generated) is Ok,
        crate::common::json::member(kucoin_order_spec(req, generated)->Ok_0.1, "price"@) == Some(
            JsonV::Str(req.kind->Limit_price@),
        ),
        crate::common::json::member(kucoin_order_spec(req, generated)->Ok_0.1, "postOnly"@) == Some(
            JsonV::Bool(req.time_in_force == TimeInForce::PostOnly),
        ),
        req.time_in_force == TimeInForce::Ioc ==> crate::common::json::member(
            kucoin_order_spec(req, generated)->Ok_0.1,
            "timeInForce"@,
        ) == Some(JsonV::Str("IOC"@)),
        req.time_in_force == TimeInForce::Fok ==> crate::common::json::member(
            kucoin_order_spec(req, generated)->Ok_0.1,
            "timeInForce"@,
        ) == Some(JsonV::Str("FOK"@)),
{
    reveal_strlit("clientOid");
    reveal_strlit("symbol");
    reveal_strlit("side");
    reveal_strlit("type");
    reveal_strlit("size");
    reveal_strlit("price");
    reveal_strlit("timeInForce");
    reveal_strlit("postOnly");
    assert("clientOid"@.len() == 9 && "symbol"@.len() == 6 && "side"@.len() == 4 && "type"@.len() == 4);
    assert("size"@.len() == 4 && "price"@.len() == 5 && "timeInForce"@.len() == 11 && "postOnly"@.len() == 8);
    assert("clientOid"@[0] != "timeInForce"@[0] && "symbol"@[0] != "postOnly"@[0] && "clientOid"@[0] != "postOnly"@[0]);
    assert("side"@[0] != "price"@[0] && "symbol"@[0] != "price"@[0]);
    reveal_with_fuel(crate::common::json::member_from, 9);
    let oid = order_text(req, generated);
    let ms = kc_head_v(req, oid, "limit"@) + seq![
        ("price"@, s_v(req.kind->Limit_price@)),
        ("timeInForce"@, s_v(limit_tif(req.time_in_force))),
        ("postOnly"@, JsonV::Bool(req.time_in_force == TimeInForce::PostOnly)),
    ];
    assert(kucoin_order_spec(req, generated)->Ok_0.1 == JsonV::Object(ms));
    assert(ms[5] == ("price"@, s_v(req.kind->Limit_price@)));
    assert(ms[6] == ("timeInForce"@, s_v(limit_tif(req.time_in_force))));
    assert(ms[7] == ("postOnly"@, JsonV::Bool(req.time_in_force == TimeInForce::PostOnly)));
}

} // verus!
