//! Kraken naming rules: asset codes (`BTC` → `XXBT`, `USD` → `ZUSD`) and the
//! full form of a pair (`XBTUSD` → `XXBTZUSD`); the parameters of orders,
//! order batches, cancels and position changes.

use vstd::prelude::*;
use crate::common::encoding::pairs_view;
use crate::common::orders::{
    CancelInput, CancelScope, ExchangeError, OrderInput, OrderKind, OrderSide, error_matches, is_spot_account,
};
use crate::common::params::{pairs_map, sorted_entries, sorted_merge, lemma_sorted_entries_exist, lemma_sorted_lookup};
use crate::common::orders::{AmendInput, empty_amend_message, UserTradeFilter};
use crate::common::text::{contains_text, text_contains};
use crate::common::orders::{
    PositionChange, PositionInput, PlacedOrder, TimeInForce, cancel_summary, cancel_summary_spec, opt_view, order_prices,
    placed_order, reports_cancel, OrderStatus,
};
use crate::common::json::{Json, JsonV, members_view, push_member};
use crate::common::text::{decimal_text, u64_text,
    chars_of, concat, ends_with_text, has_prefix, has_suffix, starts_with_text, str_eq, str_upper,
    string_of, to_upper,
};

verus! {

/// Kraken's code for an upper-cased asset name; unknown names pass through.
pub open spec fn kraken_asset_of(u: Seq<char>) -> Seq<char> {
    if u == "BTC"@ || u == "XBT"@ {
        "XXBT"@
    } else if u == "ETH"@ {
        "XETH"@
    } else if u == "LTC"@ {
        "XLTC"@
    } else if u == "XRP"@ {
        "XXRP"@
    } else if u == "USD"@ {
        "ZUSD"@
    } else if u == "EUR"@ {
        "ZEUR"@
    } else if u == "GBP"@ {
        "ZGBP"@
    } else if u == "CAD"@ {
        "ZCAD"@
    } else if u == "JPY"@ {
        "ZJPY"@
    } else {
        u
    }
}

/// Kraken's asset code for `asset` (compared upper-cased).
pub fn map_asset_to_kraken(asset: &str) -> (r: String)
    ensures
        r@ == kraken_asset_of(str_upper(asset@)),
{
    let u = to_upper(asset);
    let s = u.as_str();
    if str_eq(s, "BTC") || str_eq(s, "XBT") {
        "XXBT".to_owned()
    } else if str_eq(s, "ETH") {
        "XETH".to_owned()
    } else if str_eq(s, "LTC") {
        "XLTC".to_owned()
    } else if str_eq(s, "XRP") {
        "XXRP".to_owned()
    } else if str_eq(s, "USD") {
        "ZUSD".to_owned()
    } else if str_eq(s, "EUR") {
        "ZEUR".to_owned()
    } else if str_eq(s, "GBP") {
        "ZGBP".to_owned()
    } else if str_eq(s, "CAD") {
        "ZCAD".to_owned()
    } else if str_eq(s, "JPY") {
        "ZJPY".to_owned()
    } else {
        u
    }
}

/// An `X` in front of a pair that starts with `XBT`, `ETH` or `LTC` without one.
pub open spec fn with_crypto_prefix(s: Seq<char>) -> Seq<char> {
    if (has_prefix(s, "XBT"@) && !has_prefix(s, "XXBT"@)) || ((has_prefix(s, "ETH"@) || has_prefix(
        s,
        "LTC"@,
    )) && !has_prefix(s, "XETH"@) && !has_prefix(s, "XLTC"@)) {
        seq!['X'] + s
    } else {
        s
    }
}

/// A trailing `USD` or `EUR` written `ZUSD` or `ZEUR`.
pub open spec fn with_fiat_prefix(s: Seq<char>) -> Seq<char> {
    if has_suffix(s, "USD"@) && !has_suffix(s, "ZUSD"@) {
        s.take(s.len() - 3) + "ZUSD"@
    } else if has_suffix(s, "EUR"@) && !has_suffix(s, "ZEUR"@) {
        s.take(s.len() - 3) + "ZEUR"@
    } else {
        s
    }
}

/// The full ISO form of a simplified pair name.
pub open spec fn full_format(s: Seq<char>) -> Seq<char> {
    with_fiat_prefix(with_crypto_prefix(s))
}

/// The first three characters of `s` are `a`, `b`, `c`.
pub open spec fn starts3(s: Seq<char>, a: char, b: char, c: char) -> bool {
    s.len() >= 3 && s[0] == a && s[1] == b && s[2] == c
}

proof fn lemma_prefix_text(s: Seq<char>, lit: Seq<char>)
    requires
        3 <= lit.len() <= 4,
    ensures
        has_prefix(s, lit) == (s.len() >= lit.len() && forall|i: int| 0 <= i < lit.len() ==> s[i] == lit[i]),
{
    if s.len() >= lit.len() {
        if forall|i: int| 0 <= i < lit.len() ==> s[i] == lit[i] {
            assert(s.subrange(0, lit.len() as int) =~= lit);
        }
        if has_prefix(s, lit) {
            assert forall|i: int| 0 <= i < lit.len() implies s[i] == lit[i] by {
                assert(s.subrange(0, lit.len() as int)[i] == s[i]);
            }
        }
    }
}

proof fn lemma_prefix_chars(s: Seq<char>)
    ensures
        has_prefix(s, "XBT"@) == starts3(s, 'X', 'B', 'T'),
        has_prefix(s, "ETH"@) == starts3(s, 'E', 'T', 'H'),
        has_prefix(s, "LTC"@) == starts3(s, 'L', 'T', 'C'),
        has_prefix(s, "XXBT"@) == (s.len() >= 4 && starts3(s, 'X', 'X', 'B') && s[3] == 'T'),
        has_prefix(s, "XETH"@) == (s.len() >= 4 && starts3(s, 'X', 'E', 'T') && s[3] == 'H'),
        has_prefix(s, "XLTC"@) == (s.len() >= 4 && starts3(s, 'X', 'L', 'T') && s[3] == 'C'),
{
    reveal_strlit("XBT");
    reveal_strlit("ETH");
    reveal_strlit("LTC");
    reveal_strlit("XXBT");
    reveal_strlit("XETH");
    reveal_strlit("XLTC");
    lemma_prefix_text(s, "XBT"@);
    lemma_prefix_text(s, "ETH"@);
    lemma_prefix_text(s, "LTC"@);
    lemma_prefix_text(s, "XXBT"@);
    lemma_prefix_text(s, "XETH"@);
    lemma_prefix_text(s, "XLTC"@);
}

/// Writing a pair name in full form twice gives what writing it once gives:
/// a name already in full form is left as it is.
pub proof fn lemma_full_format_idempotent(s: Seq<char>)
    ensures
        full_format(full_format(s)) == full_format(s),
{
    reveal_strlit("USD");
    reveal_strlit("ZUSD");
    reveal_strlit("EUR");
    reveal_strlit("ZEUR");
    let t = with_crypto_prefix(s);
    let u = with_fiat_prefix(t);
    lemma_prefix_chars(s);
    lemma_prefix_chars(t);
    lemma_prefix_chars(u);
    // the prefix step leaves `u` alone
    if t != s {
        assert(t == seq!['X'] + s);
        assert(t[0] == 'X');
        assert(t[1] == s[0]);
    }
    if u != t {
        let k = t.len() - 3;
        assert(u.len() == k + 4);
        assert(forall|i: int| 0 <= i < k ==> u[i] == t[i]);
        assert(u[k] == 'Z');
        assert(u[k + 1] == 'U' || u[k + 1] == 'E');
    }
    assert(!starts3(u, 'X', 'B', 'T') || starts3(u, 'X', 'X', 'B'));
    assert(with_crypto_prefix(u) == u);
    // the suffix step leaves `u` alone
    if u != t {
        let n = u.len();
        let k = t.len() - 3;
        if has_suffix(t, "USD"@) && !has_suffix(t, "ZUSD"@) {
            assert(u == t.take(k) + "ZUSD"@);
            assert(u.subrange(n - 4, n as int) =~= "ZUSD"@);
            assert(u.subrange(n - 3, n as int) =~= "USD"@);
            assert(has_suffix(u, "USD"@) && has_suffix(u, "ZUSD"@));
            assert(u.subrange(n - 3, n as int)[0] != "EUR"@[0]);
            assert(!has_suffix(u, "EUR"@));
        } else {
            assert(u == t.take(k) + "ZEUR"@);
            assert(u.subrange(n - 4, n as int) =~= "ZEUR"@);
            assert(u.subrange(n - 3, n as int) =~= "EUR"@);
            assert(u.subrange(n - 3, n as int)[0] != "USD"@[0]);
            assert(!has_suffix(u, "USD"@));
            assert(has_suffix(u, "EUR"@) && has_suffix(u, "ZEUR"@));
        }
    }
    assert(with_fiat_prefix(u) == u);
}

/// `s` without its last `n` characters.
fn drop_last_chars(s: &str, n: usize) -> (r: String)
    requires
        n <= s@.len(),
    ensures
        r@ == s@.take(s@.len() - n),
{
    let v = chars_of(s);
    let keep = v.len() - n;
    let mut w: Vec<char> = Vec::new();
    for i in 0..keep
        invariant
            v@ == s@,
            keep == s@.len() - n,
            w@ == s@.take(i as int),
    {
        w.push(v[i]);
        assert(w@ =~= s@.take(i + 1));
    }
    string_of(&w)
}

/// Kraken REST connector naming rules.
pub struct KrakenConnector {
    testnet: bool,
}

impl KrakenConnector {
    pub closed spec fn on_testnet(&self) -> bool {
        self.testnet
    }

    /// A connector for mainnet or testnet.
    pub fn new(testnet: bool) -> (r: Self)
        ensures
            r.on_testnet() == testnet,
    {
        KrakenConnector { testnet }
    }

    /// Whether the connector talks to testnet.
    pub fn is_testnet(&self) -> (r: bool)
        ensures
            r == self.on_testnet(),
    {
        self.testnet
    }

    /// The full ISO form of a simplified pair name: `XBTUSD` → `XXBTZUSD`,
    /// `ETHEUR` → `XETHZEUR`; a name already in full form is left as it is.
    pub fn to_full_format(symbol: &str) -> (r: String)
        ensures
            r@ == full_format(symbol@),
            full_format(r@) == r@,
    {
        proof {
            lemma_full_format_idempotent(symbol@);
        }
        let s = symbol;
        let crypto = (starts_with_text(s, "XBT") && !starts_with_text(s, "XXBT")) || ((starts_with_text(
            s,
            "ETH",
        ) || starts_with_text(s, "LTC")) && !starts_with_text(s, "XETH") && !starts_with_text(s, "XLTC"));
        let result = if crypto {
            concat("X", s)
        } else {
            s.to_owned()
        };
        proof {
            reveal_strlit("X");
        }
        assert(result@ == with_crypto_prefix(symbol@));
        let r = result.as_str();
        if ends_with_text(r, "USD") && !ends_with_text(r, "ZUSD") {
            proof {
                reveal_strlit("USD");
            }
            let base = drop_last_chars(r, 3);
            concat(base.as_str(), "ZUSD")
        } else if ends_with_text(r, "EUR") && !ends_with_text(r, "ZEUR") {
            proof {
                reveal_strlit("EUR");
            }
            let base = drop_last_chars(r, 3);
            concat(base.as_str(), "ZEUR")
        } else {
            result
        }
    }
}

/// Where a Kraken order is posted.
#[derive(Debug, Clone, Copy, PartialEq, Eq, Structural)]
pub enum KrakenEndpoint {
    /// `/0/private/AddOrder`
    SpotAddOrder,
    /// `/derivatives/api/v3/sendorder`
    FuturesSendOrder,
}

pub open spec fn kraken_side(side: OrderSide) -> Seq<char> {
    match side {
        OrderSide::Buy => "buy"@,
        OrderSide::Sell => "sell"@,
    }
}

/// Pair, side and order type, the opening of every spot-form order.
pub open spec fn head_params(req: OrderInput, ordertype: Seq<char>) -> Seq<(Seq<char>, Seq<char>)> {
    seq![("pair"@, req.symbol@), ("type"@, kraken_side(req.side)), ("ordertype"@, ordertype)]
}

/// An optional price, `"0"` when absent.
pub open spec fn kraken_price_or_zero(p: Option<String>) -> Seq<char> {
    match p {
        Some(x) => x@,
        None => "0"@,
    }
}

/// The order's parameters as first written (spot names), or the error message.
pub open spec fn kraken_order_fields(req: OrderInput) -> Result<Seq<(Seq<char>, Seq<char>)>, Seq<char>> {
    let vol = ("volume"@, req.amount@);
    match req.kind {
        OrderKind::Market => Ok(head_params(req, "market"@).push(vol)),
        OrderKind::Limit { price } => Ok(head_params(req, "limit"@).push(("price"@, price@)).push(vol)),
        OrderKind::PostOnly { price } => Ok(
            head_params(req, "limit"@).push(("price"@, price@)).push(vol).push(("oflags"@, "post"@)),
        ),
        OrderKind::Ioc { price } => Ok(
            head_params(req, "limit"@).push(("price"@, kraken_price_or_zero(price))).push(vol).push(
                ("timeinforce"@, "IOC"@),
            ),
        ),
        OrderKind::Fok { price } => Ok(
            head_params(req, "limit"@).push(("price"@, price@)).push(vol).push(("timeinforce"@, "IOC"@)),
        ),
        OrderKind::StopMarket { stop_price } => Ok(
            head_params(req, "stop-loss"@).push(("price"@, stop_price@)).push(vol),
        ),
        OrderKind::StopLimit { stop_price, limit_price } => Ok(
            head_params(req, "stop-loss-limit"@).push(("price"@, stop_price@)).push(("price2"@, limit_price@)).push(
                vol,
            ),
        ),
        OrderKind::Gtd { price, expire_time } => Ok(
            head_params(req, "limit"@).push(("price"@, price@)).push(vol).push(("timeinforce"@, "GTD"@)).push(
                ("expiretm"@, decimal_text((expire_time / 1000) as nat)),
            ),
        ),
        OrderKind::ReduceOnly { price } => if is_spot_account(req.account_type) {
            Err("ReduceOnly not supported for spot on Kraken"@)
        } else {
            let base = seq![
                ("symbol"@, req.symbol@),
                ("side"@, kraken_side(req.side)),
                ("orderType"@, if price is Some { "lmt"@ } else { "mkt"@ }),
                ("size"@, req.amount@),
                ("reduceOnly"@, "true"@),
            ];
            Ok(
                match price {
                    Some(px) => base.push(("limitPrice"@, px@)),
                    None => base,
                },
            )
        },
        OrderKind::Iceberg { price, display_amount, .. } => Ok(
            head_params(req, "iceberg"@).push(("price"@, price@)).push(vol).push(("displayvol"@, display_amount@)),
        ),
        OrderKind::Oco { .. } => Err("Oco order type not supported on Kraken"@),
        OrderKind::TrailingStop { .. } => Err("TrailingStop order type not supported on Kraken"@),
        OrderKind::Bracket { .. } => Err("Bracket order type not supported on Kraken"@),
        OrderKind::Unsupported { name } => Err(name@ + " order type not supported on Kraken"@),
    }
}

/// A spot parameter name as Kraken Futures names it.
pub open spec fn futures_key(k: Seq<char>) -> Seq<char> {
    if k == "pair"@ {
        "symbol"@
    } else if k == "type"@ {
        "side"@
    } else if k == "ordertype"@ {
        "orderType"@
    } else if k == "volume"@ {
        "size"@
    } else if k == "price"@ {
        "limitPrice"@
    } else {
        k
    }
}

/// A spot parameter value as Kraken Futures takes it: order types become
/// `mkt`, `stp` or `lmt`; other values are kept.
pub open spec fn futures_value(k: Seq<char>, v: Seq<char>) -> Seq<char> {
    if k == "ordertype"@ {
        if v == "market"@ {
            "mkt"@
        } else if v == "stop-loss"@ {
            "stp"@
        } else {
            "lmt"@
        }
    } else {
        v
    }
}

pub open spec fn futures_pair(p: (Seq<char>, Seq<char>)) -> (Seq<char>, Seq<char>) {
    (futures_key(p.0), futures_value(p.0, p.1))
}

/// Futures accounts (cross or isolated) get futures parameter names.
pub open spec fn renamed_for(at: crate::common::types::AccountType, ps: Seq<(Seq<char>, Seq<char>)>) -> Seq<
    (Seq<char>, Seq<char>),
> {
    if at is FuturesCross || at is FuturesIsolated {
        ps.map_values(|p: (Seq<char>, Seq<char>)| futures_pair(p))
    } else {
        ps
    }
}

/// Endpoint and parameters (sorted by name) of a Kraken order, or the error message.
pub open spec fn kraken_order_spec(req: OrderInput) -> Result<(KrakenEndpoint, Seq<(Seq<char>, Seq<char>)>), Seq<char>> {
    match kraken_order_fields(req) {
        Err(m) => Err(m),
        Ok(fields) => {
            let renamed = renamed_for(req.account_type, fields);
            let all = match req.client_order_id {
                Some(c) => renamed.push(("cl_ord_id"@, c@)),
                None => renamed,
            };
            Ok(
                (
                    if is_spot_account(req.account_type) {
                        KrakenEndpoint::SpotAddOrder
                    } else {
                        KrakenEndpoint::FuturesSendOrder
                    },
                    sorted_entries(pairs_map(all)),
                ),
            )
        },
    }
}

fn push_pair(v: &mut Vec<(String, String)>, k: &str, x: &str)
    ensures
        pairs_view(final(v)@) == pairs_view(old(v)@).push((k@, x@)),
{
    v.push((k.to_owned(), x.to_owned()));
    assert(pairs_view(v@) =~= pairs_view(old(v)@).push((k@, x@)));
}

fn head(req: &OrderInput, ordertype: &str) -> (r: Vec<(String, String)>)
    ensures
        pairs_view(r@) == head_params(*req, ordertype@),
{
    let mut v: Vec<(String, String)> = Vec::new();
    push_pair(&mut v, "pair", req.symbol.as_str());
    push_pair(&mut v, "type", match req.side {
        OrderSide::Buy => "buy",
        OrderSide::Sell => "sell",
    });
    push_pair(&mut v, "ordertype", ordertype);
    assert(pairs_view(v@) =~= head_params(*req, ordertype@));
    v
}

fn order_fields(req: &OrderInput) -> (r: Result<Vec<(String, String)>, ExchangeError>)
    ensures
        match r {
            Ok(v) => kraken_order_fields(*req) == Ok::<Seq<(Seq<char>, Seq<char>)>, Seq<char>>(pairs_view(v@)),
            Err(ExchangeError::UnsupportedOperation(m)) => kraken_order_fields(*req) == Err::<
                Seq<(Seq<char>, Seq<char>)>,
                Seq<char>,
            >(m@),
            Err(_) => false,
        },
{
    let amount = req.amount.as_str();
    match &req.kind {
        OrderKind::Market => {
            let mut v = head(req, "market");
            push_pair(&mut v, "volume", amount);
            Ok(v)
        },
        OrderKind::Limit { price } => {
            let mut v = head(req, "limit");
            push_pair(&mut v, "price", price.as_str());
            push_pair(&mut v, "volume", amount);
            Ok(v)
        },
        OrderKind::PostOnly { price } => {
            let mut v = head(req, "limit");
            push_pair(&mut v, "price", price.as_str());
            push_pair(&mut v, "volume", amount);
            push_pair(&mut v, "oflags", "post");
            Ok(v)
        },
        OrderKind::Ioc { price } => {
            let mut v = head(req, "limit");
            let px: &str = match price {
                Some(p) => p.as_str(),
                None => "0",
            };
            push_pair(&mut v, "price", px);
            push_pair(&mut v, "volume", amount);
            push_pair(&mut v, "timeinforce", "IOC");
            Ok(v)
        },
        OrderKind::Fok { price } => {
            let mut v = head(req, "limit");
            push_pair(&mut v, "price", price.as_str());
            push_pair(&mut v, "volume", amount);
            push_pair(&mut v, "timeinforce", "IOC");
            Ok(v)
        },
        OrderKind::StopMarket { stop_price } => {
            let mut v = head(req, "stop-loss");
            push_pair(&mut v, "price", stop_price.as_str());
            push_pair(&mut v, "volume", amount);
            Ok(v)
        },
        OrderKind::StopLimit { stop_price, limit_price } => {
            let mut v = head(req, "stop-loss-limit");
            push_pair(&mut v, "price", stop_price.as_str());
            push_pair(&mut v, "price2", limit_price.as_str());
            push_pair(&mut v, "volume", amount);
            Ok(v)
        },
        OrderKind::Gtd { price, expire_time } => {
            let mut v = head(req, "limit");
            push_pair(&mut v, "price", price.as_str());
            push_pair(&mut v, "volume", amount);
            push_pair(&mut v, "timeinforce", "GTD");
            let t = u64_text(*expire_time / 1000);
            push_pair(&mut v, "expiretm", t.as_str());
            Ok(v)
        },
        OrderKind::ReduceOnly { price } => {
            if crate::common::orders::spot_account(req.account_type) {
                return Err(ExchangeError::UnsupportedOperation("ReduceOnly not supported for spot on Kraken".to_owned()));
            }
            let mut v: Vec<(String, String)> = Vec::new();
            push_pair(&mut v, "symbol", req.symbol.as_str());
            push_pair(&mut v, "side", match req.side {
                OrderSide::Buy => "buy",
                OrderSide::Sell => "sell",
            });
            push_pair(&mut v, "orderType", if price.is_some() { "lmt" } else { "mkt" });
            push_pair(&mut v, "size", amount);
            push_pair(&mut v, "reduceOnly", "true");
            assert(pairs_view(v@) =~= seq![
                ("symbol"@, req.symbol@),
                ("side"@, kraken_side(req.side)),
                ("orderType"@, if price is Some { "lmt"@ } else { "mkt"@ }),
                ("size"@, req.amount@),
                ("reduceOnly"@, "true"@),
            ]);
            if let Some(px) = price {
                push_pair(&mut v, "limitPrice", px.as_str());
            }
            Ok(v)
        },
        OrderKind::Iceberg { price, display_amount, .. } => {
            let mut v = head(req, "iceberg");
            push_pair(&mut v, "price", price.as_str());
            push_pair(&mut v, "volume", amount);
            push_pair(&mut v, "displayvol", display_amount.as_str());
            Ok(v)
        },
        OrderKind::Oco { .. } => Err(
            ExchangeError::UnsupportedOperation("Oco order type not supported on Kraken".to_owned()),
        ),
        OrderKind::TrailingStop { .. } => Err(
            ExchangeError::UnsupportedOperation("TrailingStop order type not supported on Kraken".to_owned()),
        ),
        OrderKind::Bracket { .. } => Err(
            ExchangeError::UnsupportedOperation("Bracket order type not supported on Kraken".to_owned()),
        ),
        OrderKind::Unsupported { name } => Err(
            ExchangeError::UnsupportedOperation(concat(name.as_str(), " order type not supported on Kraken")),
        ),
    }
}

fn futures_name(k: &str) -> (r: &str)
    ensures
        r@ == futures_key(k@),
{
    if str_eq(k, "pair") {
        "symbol"
    } else if str_eq(k, "type") {
        "side"
    } else if str_eq(k, "ordertype") {
        "orderType"
    } else if str_eq(k, "volume") {
        "size"
    } else if str_eq(k, "price") {
        "limitPrice"
    } else {
        k
    }
}

fn futures_val<'a>(k: &str, v: &'a str) -> (r: &'a str)
    ensures
        r@ == futures_value(k@, v@),
{
    if str_eq(k, "ordertype") {
        if str_eq(v, "market") {
            "mkt"
        } else if str_eq(v, "stop-loss") {
            "stp"
        } else {
            "lmt"
        }
    } else {
        v
    }
}

/// The endpoint and parameters, sorted by name, of a Kraken order. Spot and
/// margin orders go to `AddOrder`, the rest to the futures `sendorder`;
/// cross and isolated futures orders carry Kraken Futures' parameter names
/// and order types; a client order id is sent as `cl_ord_id`. Reduce-only
/// orders are refused on spot, and order types Kraken has no request for by name.
pub fn kraken_order_params(req: &OrderInput) -> (r: Result<(KrakenEndpoint, Vec<(String, String)>), ExchangeError>)
    ensures
        match r {
            Ok((e, v)) => kraken_order_spec(*req) == Ok::<
                (KrakenEndpoint, Seq<(Seq<char>, Seq<char>)>),
                Seq<char>,
            >((e, pairs_view(v@))),
            Err(ExchangeError::UnsupportedOperation(m)) => kraken_order_spec(*req) == Err::<
                (KrakenEndpoint, Seq<(Seq<char>, Seq<char>)>),
                Seq<char>,
            >(m@),
            Err(_) => false,
        },
{
    let fields = match order_fields(req) {
        Ok(v) => v,
        Err(e) => return Err(e),
    };
    let ghost fv = pairs_view(fields@);
    let futures = match req.account_type {
        crate::common::types::AccountType::FuturesCross | crate::common::types::AccountType::FuturesIsolated => true,
        _ => false,
    };
    let mut all: Vec<(String, String)> = Vec::new();
    if futures {
        let mut i: usize = 0;
        while i < fields.len()
            invariant
                i <= fields.len(),
                fv == pairs_view(fields@),
                pairs_view(all@) == fv.take(i as int).map_values(|p: (Seq<char>, Seq<char>)| futures_pair(p)),
            decreases fields.len() - i,
        {
            let k = fields[i].0.as_str();
            let x = fields[i].1.as_str();
            push_pair(&mut all, futures_name(k), futures_val(k, x));
            assert(fv.take(i + 1).map_values(|p: (Seq<char>, Seq<char>)| futures_pair(p)) =~= fv.take(
                i as int,
            ).map_values(|p: (Seq<char>, Seq<char>)| futures_pair(p)).push(futures_pair(fv[i as int])));
            i = i + 1;
        }
        assert(fv.take(fields.len() as int) =~= fv);
    } else {
        all = fields;
    }
    if let Some(c) = &req.client_order_id {
        push_pair(&mut all, "cl_ord_id", c.as_str());
    }
    let none: Vec<(String, String)> = Vec::new();
    let sorted = sorted_merge(&all, &none);
    assert(pairs_view(all@) + pairs_view(none@) =~= pairs_view(all@));
    let endpoint = if crate::common::orders::spot_account(req.account_type) {
        KrakenEndpoint::SpotAddOrder
    } else {
        KrakenEndpoint::FuturesSendOrder
    };
    Ok((endpoint, sorted))
}

/// Where a Kraken cancel is posted.
#[derive(Debug, Clone, Copy, PartialEq, Eq, Structural)]
pub enum KrakenCancelEndpoint {
    /// `/0/private/CancelOrder`
    SpotCancelOrder,
    /// `/derivatives/api/v3/cancelorder`
    FuturesCancelOrder,
}

pub open spec fn is_futures_margin_account(at: crate::common::types::AccountType) -> bool {
    at is FuturesCross || at is FuturesIsolated
}

pub open spec fn cancel_all_endpoint(at: crate::common::types::AccountType) -> KrakenCancelEndpoint {
    if is_spot_account(at) {
        KrakenCancelEndpoint::SpotCancelOrder
    } else {
        KrakenCancelEndpoint::FuturesCancelOrder
    }
}

/// Endpoint and parameters of a Kraken cancel, or the error (invalid request
/// flag and message).
pub open spec fn kraken_cancel_spec(req: CancelInput) -> Result<
    (KrakenCancelEndpoint, Seq<(Seq<char>, Seq<char>)>),
    (bool, Seq<char>),
> {
    let at = req.account_type;
    match req.scope {
        CancelScope::Single { order_id } => match req.symbol {
            None => Err((true, "Symbol required for cancel"@)),
            Some(_) => Ok((KrakenCancelEndpoint::SpotCancelOrder, seq![("txid"@, order_id@)])),
        },
        CancelScope::All { symbol } => Ok(
            (
                cancel_all_endpoint(at),
                match symbol {
                    Some(s) => if is_futures_margin_account(at) {
                        seq![("symbol"@, s@)]
                    } else {
                        Seq::empty()
                    },
                    None => Seq::empty(),
                },
            ),
        ),
        CancelScope::BySymbol { symbol } => Ok(
            (
                cancel_all_endpoint(at),
                if is_futures_margin_account(at) {
                    seq![("symbol"@, symbol@)]
                } else {
                    Seq::empty()
                },
            ),
        ),
        CancelScope::Batch { .. } => if req.symbol is None {
            Err((true, "Symbol required for batch cancel"@))
        } else if is_spot_account(at) {
            Err((false, "Kraken Spot does not support batch cancel. Cancel orders individually."@))
        } else {
            Err((false, "Kraken Futures batch cancel requires individual cancels. Use CancelScope::Single."@))
        },
        CancelScope::Other => Err((false, "Kraken does not support this cancel scope"@)),
    }
}

/// The endpoint and parameters of a Kraken cancel: a single order by `txid`
/// (a symbol is required), or all orders (of a symbol, named only on cross
/// and isolated futures). Batches and other scopes are refused.
pub fn kraken_cancel_request(req: &CancelInput) -> (r: Result<(KrakenCancelEndpoint, Vec<(String, String)>), ExchangeError>)
    ensures
        match r {
            Ok((e, v)) => kraken_cancel_spec(*req) == Ok::<
                (KrakenCancelEndpoint, Seq<(Seq<char>, Seq<char>)>),
                (bool, Seq<char>),
            >((e, pairs_view(v@))),
            Err(e) => kraken_cancel_spec(*req) is Err && error_matches(e, kraken_cancel_spec(*req)->Err_0),
        },
{
    let spot = crate::common::orders::spot_account(req.account_type);
    let futures = match req.account_type {
        crate::common::types::AccountType::FuturesCross | crate::common::types::AccountType::FuturesIsolated => true,
        _ => false,
    };
    let endpoint = if spot {
        KrakenCancelEndpoint::SpotCancelOrder
    } else {
        KrakenCancelEndpoint::FuturesCancelOrder
    };
    let mut v: Vec<(String, String)> = Vec::new();
    assert(pairs_view(v@) =~= Seq::<(Seq<char>, Seq<char>)>::empty());
    match &req.scope {
        CancelScope::Single { order_id } => {
            if req.symbol.is_none() {
                return Err(ExchangeError::InvalidRequest("Symbol required for cancel".to_owned()));
            }
            push_pair(&mut v, "txid", order_id.as_str());
            assert(pairs_view(v@) =~= seq![("txid"@, order_id@)]);
            Ok((KrakenCancelEndpoint::SpotCancelOrder, v))
        },
        CancelScope::All { symbol } => {
            if let Some(s) = symbol {
                if futures {
                    push_pair(&mut v, "symbol", s.as_str());
                    assert(pairs_view(v@) =~= seq![("symbol"@, s@)]);
                }
            }
            Ok((endpoint, v))
        },
        CancelScope::BySymbol { symbol } => {
            if futures {
                push_pair(&mut v, "symbol", symbol.as_str());
                assert(pairs_view(v@) =~= seq![("symbol"@, symbol@)]);
            }
            Ok((endpoint, v))
        },
        CancelScope::Batch { .. } => {
            if req.symbol.is_none() {
                Err(ExchangeError::InvalidRequest("Symbol required for batch cancel".to_owned()))
            } else if spot {
                Err(
                    ExchangeError::UnsupportedOperation(
                        "Kraken Spot does not support batch cancel. Cancel orders individually.".to_owned(),
                    ),
                )
            } else {
                Err(
                    ExchangeError::UnsupportedOperation(
                        "Kraken Futures batch cancel requires individual cancels. Use CancelScope::Single.".to_owned(),
                    ),
                )
            }
        },
        CancelScope::Other => Err(
            ExchangeError::UnsupportedOperation("Kraken does not support this cancel scope".to_owned()),
        ),
    }
}

/// Where a Kraken position change is posted.
#[derive(Debug, Clone, Copy, PartialEq, Eq, Structural)]
pub enum KrakenPositionEndpoint {
    /// `/derivatives/api/v3/leveragepreferences`
    FuturesSetLeverage,
    /// `/derivatives/api/v3/sendorder`
    FuturesSendOrder,
}

/// Endpoint and parameters of a Kraken position change, or the error
/// message: leverage (`maxLeverage`) and closing (a reduce-only market order
/// of size 0) on futures; nothing on spot or margin, and no other change.
pub open spec fn kraken_position_spec(req: PositionInput) -> Result<
    (KrakenPositionEndpoint, Seq<(Seq<char>, Seq<char>)>),
    Seq<char>,
> {
    let spot = is_spot_account(req.account_type);
    match req.change {
        PositionChange::SetLeverage { leverage } => if spot {
            Err("Leverage not supported for Spot/Margin"@)
        } else {
            Ok(
                (
                    KrakenPositionEndpoint::FuturesSetLeverage,
                    seq![("symbol"@, req.symbol@), ("maxLeverage"@, decimal_text(leverage as nat))],
                ),
            )
        },
        PositionChange::ClosePosition => if spot {
            Err("ClosePosition only supported for futures on Kraken"@)
        } else {
            Ok(
                (
                    KrakenPositionEndpoint::FuturesSendOrder,
                    seq![
                        ("symbol"@, req.symbol@),
                        ("orderType"@, "mkt"@),
                        ("reduceOnly"@, "true"@),
                        ("side"@, "buy"@),
                        ("size"@, "0"@),
                    ],
                ),
            )
        },
        _ => Err("This position modification is not supported on Kraken"@),
    }
}

/// The endpoint and parameters of a Kraken position change (see `kraken_position_spec`).
pub fn kraken_position_request(req: &PositionInput) -> (r: Result<(KrakenPositionEndpoint, Vec<(String, String)>), ExchangeError>)
    ensures
        match r {
            Ok((e, v)) => kraken_position_spec(*req) == Ok::<
                (KrakenPositionEndpoint, Seq<(Seq<char>, Seq<char>)>),
                Seq<char>,
            >((e, pairs_view(v@))),
            Err(ExchangeError::UnsupportedOperation(m)) => kraken_position_spec(*req) == Err::<
                (KrakenPositionEndpoint, Seq<(Seq<char>, Seq<char>)>),
                Seq<char>,
            >(m@),
            Err(_) => false,
        },
{
    let spot = crate::common::orders::spot_account(req.account_type);
    let mut v: Vec<(String, String)> = Vec::new();
    match &req.change {
        PositionChange::SetLeverage { leverage } => {
            if spot {
                return Err(ExchangeError::UnsupportedOperation("Leverage not supported for Spot/Margin".to_owned()));
            }
            push_pair(&mut v, "symbol", req.symbol.as_str());
            let l = u64_text(*leverage as u64);
            push_pair(&mut v, "maxLeverage", l.as_str());
            assert(pairs_view(v@) =~= seq![("symbol"@, req.symbol@), ("maxLeverage"@, decimal_text(*leverage as nat))]);
            Ok((KrakenPositionEndpoint::FuturesSetLeverage, v))
        },
        PositionChange::ClosePosition => {
            if spot {
                return Err(
                    ExchangeError::UnsupportedOperation("ClosePosition only supported for futures on Kraken".to_owned()),
                );
            }
            push_pair(&mut v, "symbol", req.symbol.as_str());
            push_pair(&mut v, "orderType", "mkt");
            push_pair(&mut v, "reduceOnly", "true");
            push_pair(&mut v, "side", "buy");
            push_pair(&mut v, "size", "0");
            assert(pairs_view(v@) =~= seq![
                ("symbol"@, req.symbol@),
                ("orderType"@, "mkt"@),
                ("reduceOnly"@, "true"@),
                ("side"@, "buy"@),
                ("size"@, "0"@),
            ]);
            Ok((KrakenPositionEndpoint::FuturesSendOrder, v))
        },
        _ => Err(ExchangeError::UnsupportedOperation("This position modification is not supported on Kraken".to_owned())),
    }
}

/// One order of a Kraken Futures batch: `send`, the symbol, side and
/// contract count, `mkt` unless a limit order (`lmt` with its price), marked
/// reduce-only and given its client id when it has them.
pub open spec fn kraken_batch_item(req: OrderInput) -> JsonV {
    let head = seq![
        ("order"@, JsonV::Str("send"@)),
        ("symbol"@, JsonV::Str(req.symbol@)),
        ("side"@, JsonV::Str(kraken_side(req.side))),
        ("size"@, JsonV::Number(crate::common::text::signed_decimal_text(req.contracts as int))),
    ];
    let typed = match req.kind {
        OrderKind::Limit { price } => head.push(("orderType"@, JsonV::Str("lmt"@))).push(("limitPrice"@, JsonV::Str(price@))),
        _ => head.push(("orderType"@, JsonV::Str("mkt"@))),
    };
    let reduced = if req.reduce_only { typed.push(("reduceOnly"@, JsonV::Bool(true))) } else { typed };
    JsonV::Object(
        match req.client_order_id {
            Some(c) => reduced.push(("cl_ord_id"@, JsonV::Str(c@))),
            None => reduced,
        },
    )
}

/// The orders of a Kraken Futures batch, `None` for no orders, or the error:
/// spot and margin have no batch (unsupported), and at most 10 orders go in
/// one (invalid).
pub open spec fn kraken_batch_spec(orders: Seq<OrderInput>) -> Result<Option<JsonV>, (bool, Seq<char>)> {
    if orders.len() == 0 {
        Ok(None)
    } else if is_spot_account(orders[0].account_type) {
        Err((false, "Batch orders not supported on Kraken Spot (futures only)"@))
    } else if orders.len() > 10 {
        Err((true, "Batch size "@ + decimal_text(orders.len()) + " exceeds Kraken Futures limit of 10"@))
    } else {
        Ok(Some(JsonV::Array(orders.map_values(|req: OrderInput| kraken_batch_item(req)))))
    }
}

fn kraken_batch_order(req: &OrderInput) -> (r: Json)
    ensures
        r@ == kraken_batch_item(*req),
{
    let mut m: Vec<(String, Json)> = Vec::new();
    push_member(&mut m, "order", Json::string("send"));
    push_member(&mut m, "symbol", Json::string(req.symbol.as_str()));
    push_member(&mut m, "side", Json::string(match req.side {
        OrderSide::Buy => "buy",
        OrderSide::Sell => "sell",
    }));
    push_member(&mut m, "size", Json::from_i64(req.contracts));
    match &req.kind {
        OrderKind::Limit { price } => {
            push_member(&mut m, "orderType", Json::string("lmt"));
            push_member(&mut m, "limitPrice", Json::string(price.as_str()));
        },
        _ => push_member(&mut m, "orderType", Json::string("mkt")),
    }
    if req.reduce_only {
        push_member(&mut m, "reduceOnly", Json::Bool(true));
    }
    if let Some(c) = &req.client_order_id {
        push_member(&mut m, "cl_ord_id", Json::string(c.as_str()));
    }
    proof {
        let rq = *req;
        let head = seq![
            ("order"@, JsonV::Str("send"@)),
            ("symbol"@, JsonV::Str(rq.symbol@)),
            ("side"@, JsonV::Str(kraken_side(rq.side))),
            ("size"@, JsonV::Number(crate::common::text::signed_decimal_text(rq.contracts as int))),
        ];
        let typed = match rq.kind {
            OrderKind::Limit { price } => head.push(("orderType"@, JsonV::Str("lmt"@))).push(
                ("limitPrice"@, JsonV::Str(price@)),
            ),
            _ => head.push(("orderType"@, JsonV::Str("mkt"@))),
        };
        let reduced = if rq.reduce_only { typed.push(("reduceOnly"@, JsonV::Bool(true))) } else { typed };
        let whole = match rq.client_order_id {
            Some(c) => reduced.push(("cl_ord_id"@, JsonV::Str(c@))),
            None => reduced,
        };
        assert(members_view(m@) =~= whole);
    }
    Json::Object(m)
}

/// The JSON orders array of a Kraken Futures batch (see `kraken_batch_spec`).
pub fn kraken_batch_request(orders: &Vec<OrderInput>) -> (r: Result<Option<Json>, ExchangeError>)
    ensures
        match r {
            Ok(None) => kraken_batch_spec(orders@) == Ok::<Option<JsonV>, (bool, Seq<char>)>(None),
            Ok(Some(j)) => kraken_batch_spec(orders@) == Ok::<Option<JsonV>, (bool, Seq<char>)>(Some(j@)),
            Err(e) => kraken_batch_spec(orders@) is Err && error_matches(e, kraken_batch_spec(orders@)->Err_0),
        },
{
    if orders.len() == 0 {
        return Ok(None);
    }
    if crate::common::orders::spot_account(orders[0].account_type) {
        return Err(
            ExchangeError::UnsupportedOperation("Batch orders not supported on Kraken Spot (futures only)".to_owned()),
        );
    }
    if orders.len() > 10 {
        let mut msg = concat("Batch size ", u64_text(orders.len() as u64).as_str());
        crate::common::text::push_str(&mut msg, " exceeds Kraken Futures limit of 10");
        return Err(ExchangeError::InvalidRequest(msg));
    }
    let mut items: Vec<Json> = Vec::new();
    let mut i: usize = 0;
    while i < orders.len()
        invariant
            0 <= i <= orders.len(),
            crate::common::json::items_view(items@) == orders@.take(i as int).map_values(
                |req: OrderInput| kraken_batch_item(req),
            ),
        decreases orders.len() - i,
    {
        let item = kraken_batch_order(&orders[i]);
        crate::common::json::push_item(&mut items, item);
        assert(orders@.take(i as int + 1) =~= orders@.take(i as int).push(orders@[i as int]));
        assert(crate::common::json::items_view(items@) =~= orders@.take(i as int + 1).map_values(
            |req: OrderInput| kraken_batch_item(req),
        ));
        i = i + 1;
    }
    assert(orders@.take(orders.len() as int) =~= orders@);
    Ok(Some(Json::Array(items)))
}

/// The time in force Kraken reports for an order type: IOC, FOK and GTD by
/// type, the rest good till cancelled.
pub open spec fn kraken_placed_tif(kind: OrderKind) -> TimeInForce {
    match kind {
        OrderKind::Ioc { .. } => TimeInForce::Ioc,
        OrderKind::Fok { .. } => TimeInForce::Fok,
        OrderKind::Gtd { .. } => TimeInForce::Gtd,
        _ => TimeInForce::Gtc,
    }
}

/// The order Kraken's placement reports once the exchange gave `order_id`:
/// the request's own client id, type, symbol, side and amount, status `New`,
/// its prices, and the time in force of its type.
pub fn kraken_placed_order(req: OrderInput, order_id: String) -> (r: PlacedOrder)
    ensures
        r.id == order_id,
        opt_view(r.client_order_id) == opt_view(req.client_order_id),
        r.symbol == req.symbol && r.side == req.side && r.kind == req.kind && r.amount == req.amount,
        r.status == OrderStatus::New,
        (opt_view(r.price), opt_view(r.stop_price)) == order_prices(req.kind),
        r.time_in_force == kraken_placed_tif(req.kind),
{
    let tif = match &req.kind {
        OrderKind::Ioc { .. } => TimeInForce::Ioc,
        OrderKind::Fok { .. } => TimeInForce::Fok,
        OrderKind::Gtd { .. } => TimeInForce::Gtd,
        _ => TimeInForce::Gtc,
    };
    let client = match &req.client_order_id {
        Some(c) => Some(c.clone()),
        None => None,
    };
    placed_order(req, order_id, client, tif)
}

/// What a Kraken cancel reports: the one order by id, or all orders under
/// `cancel_all_` and the time text `stamp`, with amount `0`.
pub fn kraken_cancel_summary(req: &CancelInput, stamp: &str) -> (r: Option<PlacedOrder>)
    ensures
        reports_cancel(r, cancel_summary_spec(*req, "cancel_all_"@, stamp@, "0"@)),
{
    cancel_summary(req, "cancel_all_", stamp, "0")
}

/// Where a Kraken amend is posted.
#[derive(Debug, Clone, Copy, PartialEq, Eq, Structural)]
pub enum KrakenAmendEndpoint {
    /// `/0/private/EditOrder`
    SpotEditOrder,
    /// `/derivatives/api/v3/editorder`
    FuturesEditOrder,
}

pub open spec fn opt_pair_of(k: Seq<char>, v: Option<Seq<char>>) -> Seq<(Seq<char>, Seq<char>)> {
    match v {
        Some(x) => seq![(k, x)],
        None => Seq::empty(),
    }
}

/// Endpoint and parameters of a Kraken amend, or the error message (neither
/// price nor quantity given): spot and margin edit by `txid` and `pair`
/// (`price`, `volume`), futures by `orderId` and `symbol` (`limitPrice`, `size`).
pub open spec fn kraken_amend_spec(req: AmendInput) -> Result<(KrakenAmendEndpoint, Seq<(Seq<char>, Seq<char>)>), Seq<char>> {
    let price = crate::common::orders::opt_view(req.price);
    let qty = match req.quantity {
        Some(q) => Some(q.amount@),
        None => None,
    };
    if req.price is None && req.quantity is None {
        Err(empty_amend_message())
    } else if is_spot_account(req.account_type) {
        Ok(
            (
                KrakenAmendEndpoint::SpotEditOrder,
                seq![("txid"@, req.order_id@), ("pair"@, req.symbol@)] + opt_pair_of("price"@, price) + opt_pair_of(
                    "volume"@,
                    qty,
                ),
            ),
        )
    } else {
        Ok(
            (
                KrakenAmendEndpoint::FuturesEditOrder,
                seq![("orderId"@, req.order_id@), ("symbol"@, req.symbol@)] + opt_pair_of("limitPrice"@, price)
                    + opt_pair_of("size"@, qty),
            ),
        )
    }
}

/// The endpoint and parameters of a Kraken amend (see `kraken_amend_spec`).
pub fn kraken_amend_request(req: &AmendInput) -> (r: Result<(KrakenAmendEndpoint, Vec<(String, String)>), ExchangeError>)
    ensures
        match r {
            Ok((e, v)) => kraken_amend_spec(*req) == Ok::<
                (KrakenAmendEndpoint, Seq<(Seq<char>, Seq<char>)>),
                Seq<char>,
            >((e, pairs_view(v@))),
            Err(ExchangeError::InvalidRequest(m)) => kraken_amend_spec(*req) == Err::<
                (KrakenAmendEndpoint, Seq<(Seq<char>, Seq<char>)>),
                Seq<char>,
            >(m@),
            Err(_) => false,
        },
{
    if req.price.is_none() && req.quantity.is_none() {
        return Err(ExchangeError::InvalidRequest("At least one of price or quantity must be provided for amend".to_owned()));
    }
    let spot = crate::common::orders::spot_account(req.account_type);
    let mut v: Vec<(String, String)> = Vec::new();
    push_pair(&mut v, if spot { "txid" } else { "orderId" }, req.order_id.as_str());
    push_pair(&mut v, if spot { "pair" } else { "symbol" }, req.symbol.as_str());
    let ghost v0 = pairs_view(v@);
    if let Some(p) = &req.price {
        push_pair(&mut v, if spot { "price" } else { "limitPrice" }, p.as_str());
    }
    let ghost v1 = pairs_view(v@);
    if let Some(q) = &req.quantity {
        push_pair(&mut v, if spot { "volume" } else { "size" }, q.amount.as_str());
    }
    proof {
        let rq = *req;
        let price = crate::common::orders::opt_view(rq.price);
        let qty = match rq.quantity {
            Some(q) => Some(q.amount@),
            None => None,
        };
        if spot {
            assert(v0 =~= seq![("txid"@, rq.order_id@), ("pair"@, rq.symbol@)]);
            assert(v1 =~= v0 + opt_pair_of("price"@, price));
            assert(pairs_view(v@) =~= v1 + opt_pair_of("volume"@, qty));
        } else {
            assert(v0 =~= seq![("orderId"@, rq.order_id@), ("symbol"@, rq.symbol@)]);
            assert(v1 =~= v0 + opt_pair_of("limitPrice"@, price));
            assert(pairs_view(v@) =~= v1 + opt_pair_of("size"@, qty));
        }
    }
    let ep = if spot { KrakenAmendEndpoint::SpotEditOrder } else { KrakenAmendEndpoint::FuturesEditOrder };
    Ok((ep, v))
}

/// A trade (its order id and pair) passes the filter: the order id when one
/// is given, and the pair containing the filter's symbol, both upper-cased.
pub open spec fn trade_matches(t: (Seq<char>, Seq<char>), f: UserTradeFilter) -> bool {
    &&& match f.order_id {
        Some(o) => t.0 == o@,
        None => true,
    }
    &&& match f.symbol {
        Some(sym) => text_contains(str_upper(t.1), str_upper(sym@)),
        None => true,
    }
}

/// The indices of the first `n` trades of a page that pass the filter, in order.
pub open spec fn matching_indices(page: Seq<(Seq<char>, Seq<char>)>, f: UserTradeFilter, n: int) -> Seq<int>
    decreases n,
{
    if n <= 0 {
        Seq::empty()
    } else {
        let rest = matching_indices(page, f, n - 1);
        if trade_matches(page[n - 1], f) {
            rest.push(n - 1)
        } else {
            rest
        }
    }
}

/// The trades a filter keeps are exactly those of its order (when it names
/// one) whose pair, upper-cased, contains its symbol upper-cased (when it
/// names one), listed in page order.
pub proof fn lemma_kept_trades(page: Seq<(Seq<char>, Seq<char>)>, f: UserTradeFilter, n: int)
    requires
        0 <= n <= page.len(),
    ensures
        forall|j: int| 0 <= j < matching_indices(page, f, n).len() ==> {
            let k = #[trigger] matching_indices(page, f, n)[j];
            &&& 0 <= k < n
            &&& (f.order_id matches Some(o) ==> page[k].0 == o@)
            &&& (f.symbol matches Some(sym) ==> text_contains(str_upper(page[k].1), str_upper(sym@)))
        },
        forall|k: int|
            0 <= k < n && (f.order_id matches Some(o) ==> page[k].0 == o@) && (f.symbol matches Some(sym)
                ==> text_contains(str_upper(page[k].1), str_upper(sym@))) ==> matching_indices(page, f, n).contains(k),
        forall|a: int, b: int|
            0 <= a < b < matching_indices(page, f, n).len() ==> matching_indices(page, f, n)[a] < matching_indices(
                page,
                f,
                n,
            )[b],
    decreases n,
{
    if n > 0 {
        lemma_kept_trades(page, f, n - 1);
        let rest = matching_indices(page, f, n - 1);
        let m = matching_indices(page, f, n);
        if trade_matches(page[n - 1], f) {
            assert(m == rest.push(n - 1));
            assert forall|k: int|
                0 <= k < n && (f.order_id matches Some(o) ==> page[k].0 == o@) && (f.symbol matches Some(sym)
                    ==> text_contains(str_upper(page[k].1), str_upper(sym@))) implies m.contains(k) by {
                if k < n - 1 {
                    assert(rest.contains(k));
                    let i = choose|i: int| 0 <= i < rest.len() && rest[i] == k;
                    assert(m[i] == k);
                } else {
                    assert(m[m.len() - 1] == k);
                }
            }
        } else {
            assert(m == rest);
        }
    }
}

/// Where a Kraken user-trade history stands between pages: how many trades
/// are wanted, how many were kept so far, and the offset of the next page.
/// Kraken serves 50 trades a page.
pub struct KrakenTradePaging {
    max: u32,
    collected: u64,
    offset: u32,
}

impl KrakenTradePaging {
    pub closed spec fn wanted(&self) -> nat {
        self.max as nat
    }

    pub closed spec fn kept(&self) -> nat {
        self.collected as nat
    }

    pub closed spec fn next_offset(&self) -> nat {
        self.offset as nat
    }

    /// Paging for a user-trade history: at most `limit` trades (50 when
    /// absent), from offset 0; futures have no such history.
    pub fn start(filter: &UserTradeFilter, account_type: crate::common::types::AccountType) -> (r: Result<
        Self,
        ExchangeError,
    >)
        ensures
            match r {
                Ok(p) => !is_futures_margin_account(account_type) && p.wanted() == (match filter.limit {
                    Some(l) => l as nat,
                    None => 50,
                }) && p.kept() == 0 && p.next_offset() == 0,
                Err(ExchangeError::UnsupportedOperation(m)) => is_futures_margin_account(account_type) && m@
                    == "get_user_trades is not supported for Kraken Futures (use get_order_history)"@,
                Err(_) => false,
            },
    {
        match account_type {
            crate::common::types::AccountType::FuturesCross | crate::common::types::AccountType::FuturesIsolated => {
                return Err(
                    ExchangeError::UnsupportedOperation(
                        "get_user_trades is not supported for Kraken Futures (use get_order_history)".to_owned(),
                    ),
                );
            },
            _ => {},
        }
        let max = match filter.limit {
            Some(l) => l,
            None => 50,
        };
        Ok(KrakenTradePaging { max, collected: 0, offset: 0 })
    }

    /// The parameters of the next `TradesHistory` request: `start` and `end`
    /// in seconds when given, and `ofs` after the first page.
    pub fn page_params(&self, filter: &UserTradeFilter) -> (r: Vec<(String, String)>)
        ensures
            pairs_view(r@) == opt_pair_of(
                "start"@,
                match filter.start_time {
                    Some(t) => Some(decimal_text(t as nat / 1000)),
                    None => None,
                },
            ) + opt_pair_of(
                "end"@,
                match filter.end_time {
                    Some(t) => Some(decimal_text(t as nat / 1000)),
                    None => None,
                },
            ) + opt_pair_of(
                "ofs"@,
                if self.next_offset() > 0 {
                    Some(decimal_text(self.next_offset()))
                } else {
                    None
                },
            ),
    {
        let mut v: Vec<(String, String)> = Vec::new();
        if let Some(t) = filter.start_time {
            let x = u64_text(t / 1000);
            push_pair(&mut v, "start", x.as_str());
        }
        let ghost v1 = pairs_view(v@);
        if let Some(t) = filter.end_time {
            let x = u64_text(t / 1000);
            push_pair(&mut v, "end", x.as_str());
        }
        let ghost v2 = pairs_view(v@);
        if self.offset > 0 {
            let x = u64_text(self.offset as u64);
            push_pair(&mut v, "ofs", x.as_str());
        }
        proof {
            let f = *filter;
            assert(v1 =~= opt_pair_of(
                "start"@,
                match f.start_time {
                    Some(t) => Some(decimal_text(t as nat / 1000)),
                    None => None,
                },
            ));
            assert(v2 =~= v1 + opt_pair_of(
                "end"@,
                match f.end_time {
                    Some(t) => Some(decimal_text(t as nat / 1000)),
                    None => None,
                },
            ));
            assert(pairs_view(v@) =~= v2 + opt_pair_of(
                "ofs"@,
                if self.next_offset() > 0 {
                    Some(decimal_text(self.next_offset()))
                } else {
                    None
                },
            ));
        }
        v
    }

    /// Takes in one page of trades (order id and pair of each): returns the
    /// indices of those kept, the ones passing the filter up to the number
    /// still wanted, and whether paging is done, which it is once enough
    /// trades are kept or the page was not full; otherwise the next page is
    /// 50 further on.
    pub fn take_page(&mut self, page: &Vec<(String, String)>, filter: &UserTradeFilter) -> (r: (Vec<usize>, bool))
        requires
            old(self).kept() <= old(self).wanted(),
            old(self).next_offset() + 50 <= u32::MAX,
        ensures
            ({
                let m = matching_indices(pairs_view(page@), *filter, page@.len() as int);
                let room = old(self).wanted() - old(self).kept();
                let taken = if m.len() <= room { m } else { m.take(room as int) };
                &&& r.0@.map_values(|i: usize| i as int) == taken
                &&& final(self).kept() == old(self).kept() + taken.len()
                &&& final(self).wanted() == old(self).wanted()
                &&& r.1 == (final(self).kept() >= final(self).wanted() || page@.len() < 50)
                &&& final(self).next_offset() == (if r.1 {
                    old(self).next_offset()
                } else {
                    old(self).next_offset() + 50
                })
            }),
            final(self).kept() <= final(self).wanted(),
            forall|j: int| 0 <= j < r.0@.len() ==> {
                let k = #[trigger] r.0@[j] as int;
                &&& 0 <= k < page@.len()
                &&& (filter.order_id matches Some(o) ==> page@[k].0@ == o@)
                &&& (filter.symbol matches Some(sym) ==> text_contains(str_upper(page@[k].1@), str_upper(sym@)))
            },
    {
        let ghost pv = pairs_view(page@);
        proof {
            assert(pv.len() == page@.len());
        }
        let upper_sym = match &filter.symbol {
            Some(sym) => Some(to_upper(sym.as_str())),
            None => None,
        };
        let room: u64 = (self.max as u64) - self.collected;
        let mut kept: Vec<usize> = Vec::new();
        let mut all: Vec<usize> = Vec::new();
        let mut i: usize = 0;
        while i < page.len()
            invariant
                0 <= i <= page.len(),
                pv == pairs_view(page@),
                pv.len() == page@.len(),
                upper_sym matches Some(u) ==> filter.symbol matches Some(sym) && u@ == str_upper(sym@),
                upper_sym is None <==> filter.symbol is None,
                all@.map_values(|k: usize| k as int) == matching_indices(pv, *filter, i as int),
            decreases page.len() - i,
        {
            let t = &page[i];
            assert(pv[i as int] == (t.0@, t.1@));
            let id_ok = match &filter.order_id {
                Some(o) => str_eq(t.0.as_str(), o.as_str()),
                None => true,
            };
            let sym_ok = match &upper_sym {
                Some(u) => {
                    let tu = to_upper(t.1.as_str());
                    contains_text(tu.as_str(), u.as_str())
                },
                None => true,
            };
            let ghost before = all@;
            if id_ok && sym_ok {
                all.push(i);
                assert(all@.map_values(|k: usize| k as int) =~= before.map_values(|k: usize| k as int).push(i as int));
            }
            i = i + 1;
        }
        let ghost m = matching_indices(pv, *filter, page@.len() as int);
        let mut j: usize = 0;
        while j < all.len() && (j as u64) < room
            invariant
                0 <= j <= all.len(),
                all@.map_values(|k: usize| k as int) == m,
                kept@.map_values(|k: usize| k as int) == m.take(j as int),
                j <= room,
            decreases all.len() - j,
        {
            let ghost before = kept@;
            assert(all@.map_values(|k: usize| k as int)[j as int] == all@[j as int] as int);
            kept.push(all[j]);
            assert(kept@.map_values(|k: usize| k as int) =~= before.map_values(|k: usize| k as int).push(m[j as int]));
            j = j + 1;
            assert(kept@.map_values(|k: usize| k as int) =~= m.take(j as int));
        }
        proof {
            if m.len() <= room {
                assert(m.take(j as int) =~= m);
            }
        }
        proof {
            lemma_kept_trades(pv, *filter, page@.len() as int);
            assert forall|x: int| 0 <= x < kept@.len() implies {
                let k = #[trigger] kept@[x] as int;
                &&& 0 <= k < page@.len()
                &&& (filter.order_id matches Some(o) ==> page@[k].0@ == o@)
                &&& (filter.symbol matches Some(sym) ==> text_contains(str_upper(page@[k].1@), str_upper(sym@)))
            } by {
                assert(kept@.map_values(|k: usize| k as int)[x] == kept@[x] as int);
                assert(m.take(j as int)[x] == m[x]);
                assert(pv[kept@[x] as int] == (page@[kept@[x] as int].0@, page@[kept@[x] as int].1@));
            }
        }
        self.collected = self.collected + (j as u64);
        let done = self.collected >= (self.max as u64) || page.len() < 50;
        if !done {
            self.offset = self.offset + 50;
        }
        (kept, done)
    }
}

/// A Kraken spot stop-limit order triggers at its stop price and then rests
/// at its limit price: its parameters carry `ordertype` `stop-loss-limit`,
/// `price` the stop price and `price2` the limit price.
#[verifier::spinoff_prover]
#[verifier::rlimit(40)]
pub proof fn lemma_kraken_stop_limit_prices(req: OrderInput)
    requires
        req.kind is StopLimit,
        is_spot_account(req.account_type),
    ensures
        kraken_order_spec(req) is Ok,
        kraken_order_spec(req)->Ok_0.1.contains(("ordertype"@, "stop-loss-limit"@)),
        kraken_order_spec(req)->Ok_0.1.contains(("price"@, req.kind->StopLimit_stop_price@)),
        kraken_order_spec(req)->Ok_0.1.contains(("price2"@, req.kind->StopLimit_limit_price@)),
{
    reveal_strlit("pair");
    reveal_strlit("type");
    reveal_strlit("ordertype");
    reveal_strlit("price");
    reveal_strlit("price2");
    reveal_strlit("volume");
    reveal_strlit("cl_ord_id");
    let stop = req.kind->StopLimit_stop_price@;
    let limit = req.kind->StopLimit_limit_price@;
    let fields = head_params(req, "stop-loss-limit"@).push(("price"@, stop)).push(("price2"@, limit)).push(
        ("volume"@, req.amount@),
    );
    assert(kraken_order_fields(req) == Ok::<Seq<(Seq<char>, Seq<char>)>, Seq<char>>(fields));
    assert(renamed_for(req.account_type, fields) == fields);
    let all = match req.client_order_id {
        Some(c) => fields.push(("cl_ord_id"@, c@)),
        None => fields,
    };
    assert("price"@.len() == 5 && "price2"@.len() == 6 && "volume"@.len() == 6 && "cl_ord_id"@.len() == 9);
    assert("ordertype"@.len() == 9 && "pair"@.len() == 4 && "type"@.len() == 4);
    assert("volume"@[0] != "price2"@[0] && "cl_ord_id"@[0] != "ordertype"@[0]);
    assert("volume"@ != "price2"@ && "cl_ord_id"@ != "ordertype"@);
    assert("price"@ != "price2"@ && "volume"@ != "price"@ && "cl_ord_id"@ != "price"@ && "cl_ord_id"@ != "price2"@);
    assert("price"@ != "ordertype"@ && "price2"@ != "ordertype"@ && "volume"@ != "ordertype"@);
    reveal_with_fuel(pairs_map, 8);
    let m = pairs_map(all);
    assert(m.contains_key("ordertype"@) && m["ordertype"@] == "stop-loss-limit"@);
    assert(m.contains_key("price"@) && m["price"@] == stop);
    assert(m.contains_key("price2"@) && m["price2"@] == limit);
    lemma_sorted_entries_exist(all);
    let out = sorted_entries(m);
    assert(kraken_order_spec(req)->Ok_0.1 == out);
    lemma_sorted_lookup(out, "ordertype"@);
    lemma_sorted_lookup(out, "price"@);
    lemma_sorted_lookup(out, "price2"@);
}

/// A Kraken spot order states what it trades and which way: its parameters
/// carry `pair` the symbol, `type` `buy` for a buy and `sell` for a sell, and
/// `volume` the amount.
#[verifier::spinoff_prover]
#[verifier::rlimit(80)]
pub proof fn lemma_kraken_spot_order_direction(req: OrderInput)
    requires
        is_spot_account(req.account_type),
        kraken_order_spec(req) is Ok,
    ensures
        kraken_order_spec(req)->Ok_0.0 == KrakenEndpoint::SpotAddOrder,
        kraken_order_spec(req)->Ok_0.1.contains(("pair"@, req.symbol@)),
        kraken_order_spec(req)->Ok_0.1.contains(("type"@, if req.side == OrderSide::Buy { "buy"@ } else { "sell"@ })),
        kraken_order_spec(req)->Ok_0.1.contains(("volume"@, req.amount@)),
{
    reveal_strlit("pair");
    reveal_strlit("type");
    reveal_strlit("ordertype");
    reveal_strlit("price");
    reveal_strlit("price2");
    reveal_strlit("volume");
    reveal_strlit("oflags");
    reveal_strlit("timeinforce");
    reveal_strlit("expiretm");
    reveal_strlit("displayvol");
    reveal_strlit("cl_ord_id");
    reveal_strlit("buy");
    reveal_strlit("sell");
    assert("pair"@.len() == 4 && "type"@.len() == 4 && "volume"@.len() == 6 && "ordertype"@.len() == 9);
    assert("price"@.len() == 5 && "price2"@.len() == 6 && "oflags"@.len() == 6 && "timeinforce"@.len() == 11);
    assert("expiretm"@.len() == 8 && "displayvol"@.len() == 10 && "cl_ord_id"@.len() == 9);
    assert("pair"@[0] != "type"@[0] && "volume"@[0] != "price2"@[0] && "volume"@[0] != "oflags"@[0]);
    assert("pair"@ != "type"@ && "volume"@ != "price2"@ && "volume"@ != "oflags"@);
    let fields = kraken_order_fields(req)->Ok_0;
    assert(renamed_for(req.account_type, fields) == fields);
    let all = match req.client_order_id {
        Some(c) => fields.push(("cl_ord_id"@, c@)),
        None => fields,
    };
    reveal_with_fuel(pairs_map, 10);
    let m = pairs_map(all);
    assert(m.contains_key("pair"@) && m["pair"@] == req.symbol@);
    assert(m.contains_key("type"@) && m["type"@] == kraken_side(req.side));
    assert(m.contains_key("volume"@) && m["volume"@] == req.amount@);
    lemma_sorted_entries_exist(all);
    let out = sorted_entries(m);
    assert(kraken_order_spec(req)->Ok_0.1 == out);
    lemma_sorted_lookup(out, "pair"@);
    lemma_sorted_lookup(out, "type"@);
    lemma_sorted_lookup(out, "volume"@);
}

/// A Kraken Futures market, limit or stop order uses the futures names: its
/// parameters carry `symbol` the symbol, `side` `buy` or `sell` by side,
/// `size` the amount, and `orderType` `mkt`, `lmt` or `stp` by type.
#[verifier::spinoff_prover]
#[verifier::rlimit(80)]
pub proof fn lemma_kraken_futures_order_names(req: OrderInput)
    requires
        req.account_type is FuturesCross || req.account_type is FuturesIsolated,
        req.kind is Market || req.kind is Limit || req.kind is StopMarket,
    ensures
        kraken_order_spec(req) is Ok,
        kraken_order_spec(req)->Ok_0.0 == KrakenEndpoint::FuturesSendOrder,
        kraken_order_spec(req)->Ok_0.1.contains(("symbol"@, req.symbol@)),
        kraken_order_spec(req)->Ok_0.1.contains(("side"@, if req.side == OrderSide::Buy { "buy"@ } else { "sell"@ })),
        kraken_order_spec(req)->Ok_0.1.contains(("size"@, req.amount@)),
        kraken_order_spec(req)->Ok_0.1.contains(
            ("orderType"@, if req.kind is Market { "mkt"@ } else if req.kind is StopMarket { "stp"@ } else { "lmt"@ }),
        ),
{
    reveal_strlit("pair");
    reveal_strlit("type");
    reveal_strlit("ordertype");
    reveal_strlit("price");
    reveal_strlit("volume");
    reveal_strlit("cl_ord_id");
    reveal_strlit("symbol");
    reveal_strlit("side");
    reveal_strlit("orderType");
    reveal_strlit("size");
    reveal_strlit("limitPrice");
    reveal_strlit("market");
    reveal_strlit("limit");
    reveal_strlit("stop-loss");
    reveal_strlit("buy");
    reveal_strlit("sell");
    assert("pair"@.len() == 4 && "type"@.len() == 4 && "volume"@.len() == 6 && "ordertype"@.len() == 9);
    assert("price"@.len() == 5 && "cl_ord_id"@.len() == 9);
    assert("symbol"@.len() == 6 && "side"@.len() == 4 && "orderType"@.len() == 9 && "size"@.len() == 4);
    assert("limitPrice"@.len() == 10 && "market"@.len() == 6 && "limit"@.len() == 5 && "stop-loss"@.len() == 9);
    assert("pair"@[0] != "type"@[0] && "side"@[2] != "size"@[2] && "pair"@[1] != "price"@[1]);
    assert("cl_ord_id"@[0] != "orderType"@[0] && "cl_ord_id"@[0] != "ordertype"@[0]);
    assert("market"@[0] != "stop-loss"@[0] && "limit"@[0] != "stop-loss"@[0]);
    let head = head_params(req, match req.kind {
        OrderKind::Market => "market"@,
        OrderKind::Limit { .. } => "limit"@,
        _ => "stop-loss"@,
    });
    let fields = match req.kind {
        OrderKind::Limit { price } => head.push(("price"@, price@)).push(("volume"@, req.amount@)),
        OrderKind::StopMarket { stop_price } => head.push(("price"@, stop_price@)).push(("volume"@, req.amount@)),
        _ => head.push(("volume"@, req.amount@)),
    };
    assert(kraken_order_fields(req) == Ok::<Seq<(Seq<char>, Seq<char>)>, Seq<char>>(fields));
    let renamed = fields.map_values(|p: (Seq<char>, Seq<char>)| futures_pair(p));
    assert(renamed_for(req.account_type, fields) == renamed);
    let ot: Seq<char> = if req.kind is Market { "mkt"@ } else if req.kind is StopMarket { "stp"@ } else { "lmt"@ };
    let expected = match req.kind {
        OrderKind::Limit { price } => seq![
            ("symbol"@, req.symbol@),
            ("side"@, kraken_side(req.side)),
            ("orderType"@, ot),
            ("limitPrice"@, price@),
            ("size"@, req.amount@),
        ],
        OrderKind::StopMarket { stop_price } => seq![
            ("symbol"@, req.symbol@),
            ("side"@, kraken_side(req.side)),
            ("orderType"@, ot),
            ("limitPrice"@, stop_price@),
            ("size"@, req.amount@),
        ],
        _ => seq![("symbol"@, req.symbol@), ("side"@, kraken_side(req.side)), ("orderType"@, ot), ("size"@, req.amount@)],
    };
    assert(renamed =~= expected);
    let all = match req.client_order_id {
        Some(c) => expected.push(("cl_ord_id"@, c@)),
        None => expected,
    };
    reveal_with_fuel(pairs_map, 7);
    let m = pairs_map(all);
    assert(m.contains_key("symbol"@) && m["symbol"@] == req.symbol@);
    assert(m.contains_key("side"@) && m["side"@] == kraken_side(req.side));
    assert(m.contains_key("size"@) && m["size"@] == req.amount@);
    assert(m.contains_key("orderType"@) && m["orderType"@] == ot);
    lemma_sorted_entries_exist(all);
    let out = sorted_entries(m);
    assert(kraken_order_spec(req)->Ok_0.1 == out);
    lemma_sorted_lookup(out, "symbol"@);
    lemma_sorted_lookup(out, "side"@);
    lemma_sorted_lookup(out, "size"@);
    lemma_sorted_lookup(out, "orderType"@);
}

} // verus!
