//! OKX WebSocket protocol.
//!
//! Data frames: `{"arg":{"channel":"trades","instId":"BTC-USDT"},"data":[...]}`,
//! routed by `arg.channel`.  Ping is the literal text `ping`, answered by `pong`.

use vstd::prelude::*;
use crate::common::types::{
    AccountType, KlineInterval, StreamKind, StreamSpec, Message, WebSocketError, TopicKey, KindV,
    kind_view, kind_label, symbol_text, Credentials,
};
use crate::common::text::{
    chars_of, is_text2, is_text3, str_upper, to_upper, concat, concat3, str_eq, split_on, split_text, texts,
    opt_text, lemma_split_nonempty,
};
use crate::common::json::{
    Json, JsonV, json_text, push_member, push_item, to_text, member, str_member, str_value,
    members_view, items_view,
};
use crate::common::encoding::{hmac_base64, hmac_base64_text};
use crate::common::clock::utc_now_iso8601;
use crate::common::registry::{
    TopicRegistry, EntryV, entries_view, routes_kind, glob_match, star_free, lemma_glob_self,
    lemma_star_free_concat,
};

verus! {

// ─────────────────────────────────────────────────────────────────────────────
// Intervals and channel names
// ─────────────────────────────────────────────────────────────────────────────

/// Internal interval → OKX channel suffix ("1h" → "1H"); other text is kept as is.
pub open spec fn okx_interval_of(s: Seq<char>) -> Seq<char> {
    if is_text2(s, '1', 'm') {
        seq!['1', 'm']
    } else if is_text2(s, '3', 'm') {
        seq!['3', 'm']
    } else if is_text2(s, '5', 'm') {
        seq!['5', 'm']
    } else if is_text3(s, '1', '5', 'm') {
        seq!['1', '5', 'm']
    } else if is_text3(s, '3', '0', 'm') {
        seq!['3', '0', 'm']
    } else if is_text2(s, '1', 'h') {
        seq!['1', 'H']
    } else if is_text2(s, '2', 'h') {
        seq!['2', 'H']
    } else if is_text2(s, '4', 'h') {
        seq!['4', 'H']
    } else if is_text2(s, '6', 'h') {
        seq!['6', 'H']
    } else if is_text3(s, '1', '2', 'h') {
        seq!['1', '2', 'H']
    } else if is_text2(s, '1', 'd') {
        seq!['1', 'D']
    } else if is_text2(s, '2', 'd') {
        seq!['2', 'D']
    } else if is_text2(s, '3', 'd') {
        seq!['3', 'D']
    } else if is_text2(s, '1', 'w') {
        seq!['1', 'W']
    } else if is_text2(s, '1', 'M') {
        seq!['1', 'M']
    } else if is_text2(s, '3', 'M') {
        seq!['3', 'M']
    } else {
        s
    }
}

/// Internal intervals with a kline channel, in registration order.
pub open spec fn kline_internals() -> Seq<Seq<char>> {
    seq![
        seq!['1', 'm'],
        seq!['3', 'm'],
        seq!['5', 'm'],
        seq!['1', '5', 'm'],
        seq!['3', '0', 'm'],
        seq!['1', 'h'],
        seq!['2', 'h'],
        seq!['4', 'h'],
        seq!['6', 'h'],
        seq!['1', '2', 'h'],
        seq!['1', 'd'],
        seq!['2', 'd'],
        seq!['3', 'd'],
        seq!['1', 'w'],
        seq!['1', 'M'],
        seq!['3', 'M'],
    ]
}

/// OKX suffixes of `kline_internals()`, position by position.
pub open spec fn kline_suffixes() -> Seq<Seq<char>> {
    seq![
        seq!['1', 'm'],
        seq!['3', 'm'],
        seq!['5', 'm'],
        seq!['1', '5', 'm'],
        seq!['3', '0', 'm'],
        seq!['1', 'H'],
        seq!['2', 'H'],
        seq!['4', 'H'],
        seq!['6', 'H'],
        seq!['1', '2', 'H'],
        seq!['1', 'D'],
        seq!['2', 'D'],
        seq!['3', 'D'],
        seq!['1', 'W'],
        seq!['1', 'M'],
        seq!['3', 'M'],
    ]
}

pub open spec fn known_interval(interval: Seq<char>) -> bool {
    is_text2(interval, '1', 'm')
        || is_text2(interval, '3', 'm')
        || is_text2(interval, '5', 'm')
        || is_text3(interval, '1', '5', 'm')
        || is_text3(interval, '3', '0', 'm')
        || is_text2(interval, '1', 'h')
        || is_text2(interval, '2', 'h')
        || is_text2(interval, '4', 'h')
        || is_text2(interval, '6', 'h')
        || is_text3(interval, '1', '2', 'h')
        || is_text2(interval, '1', 'd')
        || is_text2(interval, '2', 'd')
        || is_text2(interval, '3', 'd')
        || is_text2(interval, '1', 'w')
        || is_text2(interval, '1', 'M')
        || is_text2(interval, '3', 'M')
}

/// A known interval sits in the interval table; its position is returned.
pub proof fn lemma_interval_position(interval: Seq<char>) -> (k: int)
    requires
        known_interval(interval),
    ensures
        0 <= k < kline_internals().len(),
        kline_internals()[k] == interval,
        kline_suffixes()[k] == okx_interval_of(interval),
        star_free(okx_interval_of(interval)),
{
    if is_text2(interval, '1', 'm') {
        assert(interval =~= seq!['1', 'm']);
        assert(!seq!['1', 'm'].contains('*'));
        0
    } else if is_text2(interval, '3', 'm') {
        assert(interval =~= seq!['3', 'm']);
        assert(!seq!['3', 'm'].contains('*'));
        1
    } else if is_text2(interval, '5', 'm') {
        assert(interval =~= seq!['5', 'm']);
        assert(!seq!['5', 'm'].contains('*'));
        2
    } else if is_text3(interval, '1', '5', 'm') {
        assert(interval =~= seq!['1', '5', 'm']);
        assert(!seq!['1', '5', 'm'].contains('*'));
        3
    } else if is_text3(interval, '3', '0', 'm') {
        assert(interval =~= seq!['3', '0', 'm']);
        assert(!seq!['3', '0', 'm'].contains('*'));
        4
    } else if is_text2(interval, '1', 'h') {
        assert(interval =~= seq!['1', 'h']);
        assert(!seq!['1', 'H'].contains('*'));
        5
    } else if is_text2(interval, '2', 'h') {
        assert(interval =~= seq!['2', 'h']);
        assert(!seq!['2', 'H'].contains('*'));
        6
    } else if is_text2(interval, '4', 'h') {
        assert(interval =~= seq!['4', 'h']);
        assert(!seq!['4', 'H'].contains('*'));
        7
    } else if is_text2(interval, '6', 'h') {
        assert(interval =~= seq!['6', 'h']);
        assert(!seq!['6', 'H'].contains('*'));
        8
    } else if is_text3(interval, '1', '2', 'h') {
        assert(interval =~= seq!['1', '2', 'h']);
        assert(!seq!['1', '2', 'H'].contains('*'));
        9
    } else if is_text2(interval, '1', 'd') {
        assert(interval =~= seq!['1', 'd']);
        assert(!seq!['1', 'D'].contains('*'));
        10
    } else if is_text2(interval, '2', 'd') {
        assert(interval =~= seq!['2', 'd']);
        assert(!seq!['2', 'D'].contains('*'));
        11
    } else if is_text2(interval, '3', 'd') {
        assert(interval =~= seq!['3', 'd']);
        assert(!seq!['3', 'D'].contains('*'));
        12
    } else if is_text2(interval, '1', 'w') {
        assert(interval =~= seq!['1', 'w']);
        assert(!seq!['1', 'W'].contains('*'));
        13
    } else if is_text2(interval, '1', 'M') {
        assert(interval =~= seq!['1', 'M']);
        assert(!seq!['1', 'M'].contains('*'));
        14
    } else if is_text2(interval, '3', 'M') {
        assert(interval =~= seq!['3', 'M']);
        assert(!seq!['3', 'M'].contains('*'));
        15
    } else {
        0
    }
}

/// (internal interval, OKX suffix) pairs.
pub fn kline_pairs() -> (v: Vec<(&'static str, &'static str)>)
    ensures
        v@.len() == kline_internals().len(),
        forall|i: int|
            0 <= i < v@.len() ==> (#[trigger] v@[i]).0@ == kline_internals()[i] && v@[i].1@
                == kline_suffixes()[i],
{
    let v = vec![("1m", "1m"), ("3m", "3m"), ("5m", "5m"), ("15m", "15m"), ("30m", "30m"), ("1h", "1H"), ("2h", "2H"), ("4h", "4H"), ("6h", "6H"), ("12h", "12H"), ("1d", "1D"), ("2d", "2D"), ("3d", "3D"), ("1w", "1W"), ("1M", "1M"), ("3M", "3M")];
    proof {
        reveal_strlit("12H");
        assert("12H"@ =~= seq!['1', '2', 'H']);
        reveal_strlit("12h");
        assert("12h"@ =~= seq!['1', '2', 'h']);
        reveal_strlit("15m");
        assert("15m"@ =~= seq!['1', '5', 'm']);
        reveal_strlit("1D");
        assert("1D"@ =~= seq!['1', 'D']);
        reveal_strlit("1H");
        assert("1H"@ =~= seq!['1', 'H']);
        reveal_strlit("1M");
        assert("1M"@ =~= seq!['1', 'M']);
        reveal_strlit("1W");
        assert("1W"@ =~= seq!['1', 'W']);
        reveal_strlit("1d");
        assert("1d"@ =~= seq!['1', 'd']);
        reveal_strlit("1h");
        assert("1h"@ =~= seq!['1', 'h']);
        reveal_strlit("1m");
        assert("1m"@ =~= seq!['1', 'm']);
        reveal_strlit("1w");
        assert("1w"@ =~= seq!['1', 'w']);
        reveal_strlit("2D");
        assert("2D"@ =~= seq!['2', 'D']);
        reveal_strlit("2H");
        assert("2H"@ =~= seq!['2', 'H']);
        reveal_strlit("2d");
        assert("2d"@ =~= seq!['2', 'd']);
        reveal_strlit("2h");
        assert("2h"@ =~= seq!['2', 'h']);
        reveal_strlit("30m");
        assert("30m"@ =~= seq!['3', '0', 'm']);
        reveal_strlit("3D");
        assert("3D"@ =~= seq!['3', 'D']);
        reveal_strlit("3M");
        assert("3M"@ =~= seq!['3', 'M']);
        reveal_strlit("3d");
        assert("3d"@ =~= seq!['3', 'd']);
        reveal_strlit("3m");
        assert("3m"@ =~= seq!['3', 'm']);
        reveal_strlit("4H");
        assert("4H"@ =~= seq!['4', 'H']);
        reveal_strlit("4h");
        assert("4h"@ =~= seq!['4', 'h']);
        reveal_strlit("5m");
        assert("5m"@ =~= seq!['5', 'm']);
        reveal_strlit("6H");
        assert("6H"@ =~= seq!['6', 'H']);
        reveal_strlit("6h");
        assert("6h"@ =~= seq!['6', 'h']);
    }
    v
}

/// Channel name of the instId-based channels; `None` for kinds that need a
/// custom frame or have no channel.
pub open spec fn channel_of(kind: StreamKind) -> Option<Seq<char>> {
    match kind {
        StreamKind::Ticker => Some("tickers"@),
        StreamKind::Trade => Some("trades"@),
        StreamKind::Orderbook => Some("books"@),
        StreamKind::OrderbookDelta => Some("books-l2-tbt"@),
        StreamKind::MarkPrice => Some("mark-price"@),
        StreamKind::FundingRate => Some("funding-rate"@),
        StreamKind::IndexPrice => Some("index-tickers"@),
        StreamKind::OrderUpdate => Some("orders"@),
        StreamKind::BalanceUpdate => Some("account"@),
        StreamKind::PositionUpdate => Some("positions"@),
        StreamKind::OpenInterest => Some("open-interest"@),
        StreamKind::Kline { interval } => Some("candle"@ + okx_interval_of(interval.value@)),
        StreamKind::MarkPriceKline { interval } => Some(
            "mark-price-candle"@ + okx_interval_of(interval.value@),
        ),
        StreamKind::IndexPriceKline { interval } => Some("index-candle"@ + okx_interval_of(interval.value@)),
        _ => None,
    }
}

/// The instrument family of a raw instrument id: its first two '-'-separated
/// parts upper-cased and re-joined ("BTC-USDT-SWAP" → "BTC-USDT"), or the
/// whole id upper-cased when it has no '-'.
pub open spec fn inst_family_of(raw: Seq<char>) -> Seq<char> {
    let parts = split_on(raw, '-');
    if parts.len() >= 2 {
        str_upper(parts[0]) + "-"@ + str_upper(parts[1])
    } else {
        str_upper(raw)
    }
}

pub struct OkxProtocol {
    account_type: AccountType,
    testnet: bool,
    /// Connect to the business endpoint (mark-price-candle*, index-candle*).
    pub is_business: bool,
}

impl OkxProtocol {
    pub closed spec fn on_testnet(&self) -> bool {
        self.testnet
    }

    pub closed spec fn account(&self) -> AccountType {
        self.account_type
    }

    /// Connected to the business endpoint.
    pub closed spec fn business(&self) -> bool {
        self.is_business
    }

    pub fn new(account_type: AccountType, testnet: bool) -> (r: Self)
        ensures
            r.on_testnet() == testnet,
            r.account() == account_type,
            !r.business(),
    {
        OkxProtocol { account_type, testnet, is_business: false }
    }

    pub fn new_business(account_type: AccountType, testnet: bool) -> (r: Self)
        ensures
            r.on_testnet() == testnet,
            r.account() == account_type,
            r.business(),
    {
        OkxProtocol { account_type, testnet, is_business: true }
    }

    /// Map internal interval → OKX wire suffix (e.g. "1h" → "1H").
    pub fn okx_interval(interval: &KlineInterval) -> (r: &str)
        ensures
            r@ == okx_interval_of(interval.value@),
    {
        let v = chars_of(interval.as_str());
        if v.len() == 2 && v[0] == '1' && v[1] == 'm' {
            proof { reveal_strlit("1m"); assert("1m"@ =~= seq!['1', 'm']); } "1m"
        } else if v.len() == 2 && v[0] == '3' && v[1] == 'm' {
            proof { reveal_strlit("3m"); assert("3m"@ =~= seq!['3', 'm']); } "3m"
        } else if v.len() == 2 && v[0] == '5' && v[1] == 'm' {
            proof { reveal_strlit("5m"); assert("5m"@ =~= seq!['5', 'm']); } "5m"
        } else if v.len() == 3 && v[0] == '1' && v[1] == '5' && v[2] == 'm' {
            proof { reveal_strlit("15m"); assert("15m"@ =~= seq!['1', '5', 'm']); } "15m"
        } else if v.len() == 3 && v[0] == '3' && v[1] == '0' && v[2] == 'm' {
            proof { reveal_strlit("30m"); assert("30m"@ =~= seq!['3', '0', 'm']); } "30m"
        } else if v.len() == 2 && v[0] == '1' && v[1] == 'h' {
            proof { reveal_strlit("1H"); assert("1H"@ =~= seq!['1', 'H']); } "1H"
        } else if v.len() == 2 && v[0] == '2' && v[1] == 'h' {
            proof { reveal_strlit("2H"); assert("2H"@ =~= seq!['2', 'H']); } "2H"
        } else if v.len() == 2 && v[0] == '4' && v[1] == 'h' {
            proof { reveal_strlit("4H"); assert("4H"@ =~= seq!['4', 'H']); } "4H"
        } else if v.len() == 2 && v[0] == '6' && v[1] == 'h' {
            proof { reveal_strlit("6H"); assert("6H"@ =~= seq!['6', 'H']); } "6H"
        } else if v.len() == 3 && v[0] == '1' && v[1] == '2' && v[2] == 'h' {
            proof { reveal_strlit("12H"); assert("12H"@ =~= seq!['1', '2', 'H']); } "12H"
        } else if v.len() == 2 && v[0] == '1' && v[1] == 'd' {
            proof { reveal_strlit("1D"); assert("1D"@ =~= seq!['1', 'D']); } "1D"
        } else if v.len() == 2 && v[0] == '2' && v[1] == 'd' {
            proof { reveal_strlit("2D"); assert("2D"@ =~= seq!['2', 'D']); } "2D"
        } else if v.len() == 2 && v[0] == '3' && v[1] == 'd' {
            proof { reveal_strlit("3D"); assert("3D"@ =~= seq!['3', 'D']); } "3D"
        } else if v.len() == 2 && v[0] == '1' && v[1] == 'w' {
            proof { reveal_strlit("1W"); assert("1W"@ =~= seq!['1', 'W']); } "1W"
        } else if v.len() == 2 && v[0] == '1' && v[1] == 'M' {
            proof { reveal_strlit("1M"); assert("1M"@ =~= seq!['1', 'M']); } "1M"
        } else if v.len() == 2 && v[0] == '3' && v[1] == 'M' {
            proof { reveal_strlit("3M"); assert("3M"@ =~= seq!['3', 'M']); } "3M"
        } else {
            interval.as_str()
        }
    }

    /// Extract the OKX instFamily from a raw instrument ID.
    ///
    /// `"BTC-USDT"` → `"BTC-USDT"`, `"BTC-USDT-SWAP"` → `"BTC-USDT"`, `"BTC-USD-260925"` → `"BTC-USD"`
    pub fn okx_inst_family(raw: &str) -> (r: String)
        ensures
            r@ == inst_family_of(raw@),
    {
        let parts = split_text(raw, '-');
        if parts.len() >= 2 {
            let a = to_upper(parts[0].as_str());
            let b = to_upper(parts[1].as_str());
            concat3(a.as_str(), "-", b.as_str())
        } else {
            to_upper(raw)
        }
    }

    /// Map StreamKind → OKX channel name for standard instId-based channels.
    pub fn channel_name(kind: &StreamKind) -> (r: Option<String>)
        ensures
            opt_text(r) == channel_of(*kind),
    {
        match kind {
            StreamKind::Ticker => Some("tickers".to_owned()),
            StreamKind::Trade => Some("trades".to_owned()),
            StreamKind::Orderbook => Some("books".to_owned()),
            StreamKind::OrderbookDelta => Some("books-l2-tbt".to_owned()),
            StreamKind::MarkPrice => Some("mark-price".to_owned()),
            StreamKind::FundingRate => Some("funding-rate".to_owned()),
            StreamKind::IndexPrice => Some("index-tickers".to_owned()),
            StreamKind::OrderUpdate => Some("orders".to_owned()),
            StreamKind::BalanceUpdate => Some("account".to_owned()),
            StreamKind::PositionUpdate => Some("positions".to_owned()),
            StreamKind::OpenInterest => Some("open-interest".to_owned()),
            StreamKind::Kline { interval } => Some(concat("candle", Self::okx_interval(interval))),
            StreamKind::MarkPriceKline { interval } => Some(
                concat("mark-price-candle", Self::okx_interval(interval)),
            ),
            StreamKind::IndexPriceKline { interval } => Some(
                concat("index-candle", Self::okx_interval(interval)),
            ),
            _ => None,
        }
    }
}


// ─────────────────────────────────────────────────────────────────────────────
// Frames
// ─────────────────────────────────────────────────────────────────────────────

/// `{"channel": c, "instId": inst}`
pub open spec fn inst_arg(c: Seq<char>, inst: Seq<char>) -> JsonV {
    JsonV::Object(seq![("channel"@, JsonV::Str(c)), ("instId"@, JsonV::Str(inst))])
}

/// The single `args` entry of a (un)subscribe request for `kind` on instrument `sym`.
pub open spec fn arg_of(kind: StreamKind, sym: Seq<char>) -> Option<JsonV> {
    match kind {
        StreamKind::Liquidation => Some(
            JsonV::Object(
                seq![("channel"@, JsonV::Str("liquidation-orders"@)), ("instType"@, JsonV::Str("SWAP"@))],
            ),
        ),
        StreamKind::BlockTrade => Some(inst_arg("public-block-trades"@, sym)),
        StreamKind::SettlementEvent => Some(
            JsonV::Object(
                seq![
                    ("channel"@, JsonV::Str("estimated-price"@)),
                    ("instType"@, JsonV::Str("FUTURES"@)),
                    ("instFamily"@, JsonV::Str(inst_family_of(sym))),
                ],
            ),
        ),
        StreamKind::OptionGreeks => Some(
            JsonV::Object(
                seq![("channel"@, JsonV::Str("opt-summary"@)), ("uly"@, JsonV::Str(inst_family_of(sym)))],
            ),
        ),
        _ => match channel_of(kind) {
            Some(c) => Some(inst_arg(c, sym)),
            None => None,
        },
    }
}

/// The channel a request for `kind` subscribes to (the `channel` of its argument).
pub open spec fn sub_channel(kind: StreamKind, sym: Seq<char>) -> Option<Seq<char>> {
    match arg_of(kind, sym) {
        Some(JsonV::Object(ms)) => Some(ms[0].1->Str_0),
        _ => None,
    }
}

/// `{"op": op, "args": [arg]}`
pub open spec fn okx_frame(op: Seq<char>, arg: JsonV) -> JsonV {
    JsonV::Object(seq![("op"@, JsonV::Str(op)), ("args"@, JsonV::Array(seq![arg]))])
}

fn obj2(k1: &str, v1: Json, k2: &str, v2: Json) -> (r: Json)
    ensures
        r@ == JsonV::Object(seq![(k1@, v1@), (k2@, v2@)]),
{
    let mut m: Vec<(String, Json)> = Vec::new();
    push_member(&mut m, k1, v1);
    push_member(&mut m, k2, v2);
    assert(members_view(m@) =~= seq![(k1@, v1@), (k2@, v2@)]);
    Json::Object(m)
}

fn arg_value(kind: &StreamKind, sym: &str) -> (r: Result<Json, WebSocketError>)
    ensures
        match r {
            Ok(j) => arg_of(*kind, sym@) == Some(j@),
            Err(e) => arg_of(*kind, sym@) is None && e is UnsupportedOperation
                && e->UnsupportedOperation_0@ == "okx: unsupported stream kind "@ + kind_label(kind_view(*kind)),
        },
{
    match kind {
        StreamKind::Liquidation => Ok(
            obj2("channel", Json::string("liquidation-orders"), "instType", Json::string("SWAP")),
        ),
        StreamKind::BlockTrade => Ok(obj2("channel", Json::string("public-block-trades"), "instId", Json::string(sym))),
        StreamKind::SettlementEvent => {
            let family = OkxProtocol::okx_inst_family(sym);
            let mut m: Vec<(String, Json)> = Vec::new();
            push_member(&mut m, "channel", Json::string("estimated-price"));
            push_member(&mut m, "instType", Json::string("FUTURES"));
            push_member(&mut m, "instFamily", Json::string(family.as_str()));
            assert(members_view(m@) =~= seq![
                ("channel"@, JsonV::Str("estimated-price"@)),
                ("instType"@, JsonV::Str("FUTURES"@)),
                ("instFamily"@, JsonV::Str(inst_family_of(sym@))),
            ]);
            Ok(Json::Object(m))
        },
        StreamKind::OptionGreeks => {
            let uly = OkxProtocol::okx_inst_family(sym);
            Ok(obj2("channel", Json::string("opt-summary"), "uly", Json::string(uly.as_str())))
        },
        _ => match OkxProtocol::channel_name(kind) {
            Some(c) => Ok(obj2("channel", Json::string(c.as_str()), "instId", Json::string(sym))),
            None => Err(WebSocketError::UnsupportedOperation(concat("okx: unsupported stream kind ", kind.label()))),
        },
    }
}

/// Routing key: `arg.channel` of a frame that is neither the text "pong" nor an event frame.
pub open spec fn spec_topic(raw: JsonV) -> Option<Seq<char>> {
    if str_value(raw) == Some("pong"@) || member(raw, "event"@) is Some {
        None
    } else {
        match member(raw, "arg"@) {
            Some(a) => str_member(a, "channel"@),
            None => None,
        }
    }
}

/// `{"op":"login","args":[{"apiKey":..,"passphrase":..,"timestamp":..,"sign":..}]}`
pub open spec fn login_frame(key: Seq<char>, passphrase: Seq<char>, timestamp: Seq<char>, sign: Seq<char>) -> JsonV {
    okx_frame(
        "login"@,
        JsonV::Object(
            seq![
                ("apiKey"@, JsonV::Str(key)),
                ("passphrase"@, JsonV::Str(passphrase)),
                ("timestamp"@, JsonV::Str(timestamp)),
                ("sign"@, JsonV::Str(sign)),
            ],
        ),
    )
}

/// The login signature: Base64 HMAC-SHA256 of `timestamp + "GET/users/self/verify"`.
pub open spec fn login_sign(secret: Seq<char>, timestamp: Seq<char>) -> Seq<char> {
    hmac_base64_text(secret, timestamp + "GET/users/self/verify"@)
}

pub open spec fn endpoint_of(testnet: bool, business: bool) -> Seq<char> {
    if testnet {
        if business { "wss://wspap.okx.com:8443/ws/v5/business"@ } else { "wss://wspap.okx.com:8443/ws/v5/public"@ }
    } else if business {
        "wss://ws.okx.com:8443/ws/v5/business"@
    } else {
        "wss://ws.okx.com:8443/ws/v5/public"@
    }
}

impl OkxProtocol {
    pub fn name(&self) -> (r: &'static str)
        ensures
            r@ == "okx"@,
    {
        "okx"
    }

    /// Endpoint chosen by the testnet / business flags given at construction.
    pub fn endpoint(&self, account_type: AccountType, testnet: bool) -> (r: &'static str)
        ensures
            r@ == endpoint_of(self.on_testnet(), self.business()),
    {
        if self.testnet {
            if self.is_business {
                "wss://wspap.okx.com:8443/ws/v5/business"
            } else {
                "wss://wspap.okx.com:8443/ws/v5/public"
            }
        } else if self.is_business {
            "wss://ws.okx.com:8443/ws/v5/business"
        } else {
            "wss://ws.okx.com:8443/ws/v5/public"
        }
    }

    /// The literal text `ping`.
    pub fn ping_frame(&self) -> (r: Option<Message>)
        ensures
            r matches Some(Message::Text(t)) && t@ == "ping"@,
    {
        Some(Message::Text("ping".to_owned()))
    }

    pub fn ping_interval(&self) -> (r: u64)
        ensures
            r == 30,
    {
        30
    }

    fn build_frame(op: &str, spec: &StreamSpec) -> (r: Result<Message, WebSocketError>)
        ensures
            match r {
                Ok(m) => arg_of(spec.kind, symbol_text(spec.symbol)) is Some && m == Message::Text(m->Text_0)
                    && m->Text_0@ == json_text(okx_frame(op@, arg_of(spec.kind, symbol_text(spec.symbol))->0)),
                Err(e) => arg_of(spec.kind, symbol_text(spec.symbol)) is None && e is UnsupportedOperation
                    && e->UnsupportedOperation_0@ == "okx: unsupported stream kind "@ + kind_label(kind_view(spec.kind)),
            },
    {
        let arg = match arg_value(&spec.kind, spec.symbol.as_str()) {
            Ok(a) => a,
            Err(e) => return Err(e),
        };
        let ghost av = arg@;
        let mut args: Vec<Json> = Vec::new();
        push_item(&mut args, arg);
        assert(items_view(args@) =~= seq![av]);
        let frame = obj2("op", Json::string(op), "args", Json::Array(args));
        Ok(Message::Text(to_text(&frame)))
    }

    pub fn subscribe_frame(&self, spec: &StreamSpec) -> (r: Result<Message, WebSocketError>)
        ensures
            match r {
                Ok(m) => arg_of(spec.kind, symbol_text(spec.symbol)) is Some && m == Message::Text(m->Text_0)
                    && m->Text_0@ == json_text(okx_frame("subscribe"@, arg_of(spec.kind, symbol_text(spec.symbol))->0)),
                Err(e) => arg_of(spec.kind, symbol_text(spec.symbol)) is None && e is UnsupportedOperation,
            },
    {
        Self::build_frame("subscribe", spec)
    }

    pub fn unsubscribe_frame(&self, spec: &StreamSpec) -> (r: Result<Message, WebSocketError>)
        ensures
            match r {
                Ok(m) => arg_of(spec.kind, symbol_text(spec.symbol)) is Some && m == Message::Text(m->Text_0)
                    && m->Text_0@ == json_text(okx_frame("unsubscribe"@, arg_of(spec.kind, symbol_text(spec.symbol))->0)),
                Err(e) => arg_of(spec.kind, symbol_text(spec.symbol)) is None && e is UnsupportedOperation,
            },
    {
        Self::build_frame("unsubscribe", spec)
    }

    /// The login frame for a connection made at `timestamp`, signed with
    /// `timestamp + "GET/users/self/verify"`; `None` without a passphrase.
    pub fn auth_frame_at(&self, credentials: &Credentials, timestamp: &str) -> (r: Option<
        Result<Message, WebSocketError>,
    >)
        ensures
            match credentials.passphrase {
                None => r is None,
                Some(p) => r matches Some(Ok(Message::Text(t))) && t@ == json_text(
                    login_frame(credentials.api_key@, p@, timestamp@, login_sign(credentials.api_secret@, timestamp@)),
                ),
            },
    {
        let passphrase = match &credentials.passphrase {
            Some(p) => p,
            None => return None,
        };
        let prehash = concat(timestamp, "GET/users/self/verify");
        let sign = hmac_base64(credentials.api_secret.as_str(), prehash.as_str());
        let mut m: Vec<(String, Json)> = Vec::new();
        push_member(&mut m, "apiKey", Json::string(credentials.api_key.as_str()));
        push_member(&mut m, "passphrase", Json::string(passphrase.as_str()));
        push_member(&mut m, "timestamp", Json::string(timestamp));
        push_member(&mut m, "sign", Json::string(sign.as_str()));
        let ghost login_arg = JsonV::Object(
            seq![
                ("apiKey"@, JsonV::Str(credentials.api_key@)),
                ("passphrase"@, JsonV::Str(passphrase@)),
                ("timestamp"@, JsonV::Str(timestamp@)),
                ("sign"@, JsonV::Str(sign@)),
            ],
        );
        assert(members_view(m@) =~= login_arg->Object_0);
        let mut args: Vec<Json> = Vec::new();
        push_item(&mut args, Json::Object(m));
        assert(items_view(args@) =~= seq![login_arg]);
        let frame = obj2("op", Json::string("login"), "args", Json::Array(args));
        Some(Ok(Message::Text(to_text(&frame))))
    }

    /// The login frame for a connection made now; `None` without a passphrase.
    pub fn auth_frame(&self, credentials: &Credentials) -> (r: Option<Result<Message, WebSocketError>>)
        ensures
            match credentials.passphrase {
                None => r is None,
                Some(p) => exists|timestamp: Seq<char>|
                    #![trigger login_sign(credentials.api_secret@, timestamp)]
                    {
                        &&& crate::common::clock::is_millis_text(timestamp)
                        &&& r matches Some(Ok(Message::Text(t)))
                        &&& t@ == json_text(
                            login_frame(credentials.api_key@, p@, timestamp, login_sign(credentials.api_secret@, timestamp)),
                        )
                    },
            },
    {
        if credentials.passphrase.is_none() {
            return None;
        }
        let timestamp = utc_now_iso8601();
        self.auth_frame_at(credentials, timestamp.as_str())
    }

    pub fn is_auth_ack(&self, raw: &Json) -> (r: bool)
        ensures
            r == (str_member(raw@, "event"@) == Some("login"@)),
    {
        match raw.get_str("event") {
            Some(e) => str_eq(e, "login"),
            None => false,
        }
    }

    pub fn is_pong(&self, raw: &Json) -> (r: bool)
        ensures
            r == (str_value(raw@) == Some("pong"@)),
    {
        match raw.as_str() {
            Some(s) => str_eq(s, "pong"),
            None => false,
        }
    }

    pub fn is_subscribe_ack(&self, raw: &Json) -> (r: bool)
        ensures
            r == (str_member(raw@, "event"@) == Some("subscribe"@) || str_member(raw@, "event"@) == Some(
                "unsubscribe"@,
            )),
    {
        match raw.get_str("event") {
            Some(e) => str_eq(e, "subscribe") || str_eq(e, "unsubscribe"),
            None => false,
        }
    }

    /// Routing key (`arg.channel`); `None` for "pong" and event frames.
    pub fn extract_topic(&self, raw: &Json) -> (r: Option<TopicKey>)
        ensures
            match r {
                Some(t) => spec_topic(raw@) == Some(t.key@),
                None => spec_topic(raw@) is None,
            },
    {
        if self.is_pong(raw) {
            return None;
        }
        if raw.get("event").is_some() {
            return None;
        }
        let channel = match raw.get("arg") {
            Some(a) => a.get_str("channel"),
            None => None,
        };
        match channel {
            Some(c) => Some(TopicKey::new(c)),
            None => None,
        }
    }

    /// The single registry (public and business endpoints share channel names).
    pub fn topic_registry(&self, account_type: AccountType) -> (r: TopicRegistry)
        ensures
            r.view_entries() == registry_entries(),
    {
        registry()
    }

    pub fn unsupported_by_exchange(&self, account_type: AccountType) -> (r: Vec<StreamKind>)
        ensures
            r@.len() == 0,
    {
        Vec::new()
    }

    pub fn requires_auth_kinds(&self, account_type: AccountType) -> (r: Vec<StreamKind>)
        ensures
            r@.len() == 3,
            kind_view(r@[0]) == KindV::OrderUpdate,
            kind_view(r@[1]) == KindV::BalanceUpdate,
            kind_view(r@[2]) == KindV::PositionUpdate,
    {
        vec![StreamKind::OrderUpdate, StreamKind::BalanceUpdate, StreamKind::PositionUpdate]
    }
}

// ─────────────────────────────────────────────────────────────────────────────
// Registry
// ─────────────────────────────────────────────────────────────────────────────

/// Named channels (all under `Spot`: one registry serves every account type).
pub open spec fn registry_head() -> Seq<EntryV> {
    seq![
        (KindV::Ticker, AccountType::Spot, "tickers"@),
        (KindV::Trade, AccountType::Spot, "trades"@),
        (KindV::Trade, AccountType::Spot, "trades-all"@),
        (KindV::Orderbook, AccountType::Spot, "books"@),
        (KindV::Orderbook, AccountType::Spot, "books5"@),
        (KindV::Orderbook, AccountType::Spot, "bbo-tbt"@),
        (KindV::OrderbookDelta, AccountType::Spot, "books-l2-tbt"@),
        (KindV::OrderbookDelta, AccountType::Spot, "books50-l2-tbt"@),
        (KindV::MarkPrice, AccountType::Spot, "mark-price"@),
        (KindV::FundingRate, AccountType::Spot, "funding-rate"@),
        (KindV::Liquidation, AccountType::Spot, "liquidation-orders"@),
        (KindV::IndexPrice, AccountType::Spot, "index-tickers"@),
        (KindV::OpenInterest, AccountType::Spot, "open-interest"@),
        (KindV::BlockTrade, AccountType::Spot, "public-block-trades"@),
        (KindV::BlockTrade, AccountType::Spot, "block-trades"@),
        (KindV::SettlementEvent, AccountType::Spot, "estimated-price"@),
        (KindV::OptionGreeks, AccountType::Spot, "opt-summary"@),
        (KindV::Orderbook, AccountType::Spot, "price-limit"@),
        (KindV::Ticker, AccountType::Spot, "instruments"@),
        (KindV::Ticker, AccountType::Spot, "status"@),
        (KindV::OrderUpdate, AccountType::Spot, "orders"@),
        (KindV::BalanceUpdate, AccountType::Spot, "account"@),
        (KindV::PositionUpdate, AccountType::Spot, "positions"@),
    ]
}

/// Kline-family channels: `<prefix><suffix>` for every interval.
pub open spec fn kline_family(prefix: Seq<char>, kind: spec_fn(Seq<char>) -> KindV) -> Seq<EntryV> {
    Seq::new(
        kline_internals().len(),
        |i: int| (kind(kline_internals()[i]), AccountType::Spot, prefix + kline_suffixes()[i]),
    )
}

pub open spec fn registry_klines() -> Seq<EntryV> {
    kline_family("candle"@, |i: Seq<char>| KindV::Kline(i))
}

pub open spec fn registry_mark_klines() -> Seq<EntryV> {
    kline_family("mark-price-candle"@, |i: Seq<char>| KindV::MarkPriceKline(i))
}

pub open spec fn registry_index_klines() -> Seq<EntryV> {
    kline_family("index-candle"@, |i: Seq<char>| KindV::IndexPriceKline(i))
}

pub open spec fn registry_entries() -> Seq<EntryV> {
    registry_head() + registry_klines() + registry_mark_klines() + registry_index_klines()
}

/// The OKX topic registry.
pub fn build_registry() -> (r: TopicRegistry)
    ensures
        r.view_entries() == registry_entries(),
{
    let at = AccountType::Spot;
    let mut b = TopicRegistry::builder();
    b = b.register(StreamKind::Ticker, at, "tickers");
    b = b.register(StreamKind::Trade, at, "trades");
    b = b.register(StreamKind::Trade, at, "trades-all");
    b = b.register(StreamKind::Orderbook, at, "books");
    b = b.register(StreamKind::Orderbook, at, "books5");
    b = b.register(StreamKind::Orderbook, at, "bbo-tbt");
    b = b.register(StreamKind::OrderbookDelta, at, "books-l2-tbt");
    b = b.register(StreamKind::OrderbookDelta, at, "books50-l2-tbt");
    b = b.register(StreamKind::MarkPrice, at, "mark-price");
    b = b.register(StreamKind::FundingRate, at, "funding-rate");
    b = b.register(StreamKind::Liquidation, at, "liquidation-orders");
    b = b.register(StreamKind::IndexPrice, at, "index-tickers");
    b = b.register(StreamKind::OpenInterest, at, "open-interest");
    b = b.register(StreamKind::BlockTrade, at, "public-block-trades");
    b = b.register(StreamKind::BlockTrade, at, "block-trades");
    b = b.register(StreamKind::SettlementEvent, at, "estimated-price");
    b = b.register(StreamKind::OptionGreeks, at, "opt-summary");
    b = b.register(StreamKind::Orderbook, at, "price-limit");
    b = b.register(StreamKind::Ticker, at, "instruments");
    b = b.register(StreamKind::Ticker, at, "status");
    b = b.register(StreamKind::OrderUpdate, at, "orders");
    b = b.register(StreamKind::BalanceUpdate, at, "account");
    b = b.register(StreamKind::PositionUpdate, at, "positions");
    let ghost p1 = entries_view(b.entries@);
    let list = kline_pairs();
    for i in 0..list.len()
        invariant
            list@.len() == kline_internals().len(),
            forall|k: int|
                0 <= k < list@.len() ==> (#[trigger] list@[k]).0@ == kline_internals()[k] && list@[k].1@
                    == kline_suffixes()[k],
            entries_view(b.entries@) == p1 + registry_klines().take(i as int),
            at == AccountType::Spot,
    {
        let (internal, suffix) = list[i];
        let kind = StreamKind::Kline { interval: KlineInterval::new(internal) };
        let pattern = concat("candle", suffix);
        b = b.register(kind, at, pattern.as_str());
        assert(registry_klines().take(i + 1) =~= registry_klines().take(i as int).push(registry_klines()[i as int]));
        assert(entries_view(b.entries@) =~= p1 + registry_klines().take(i + 1));
    }
    assert(registry_klines().take(list.len() as int) =~= registry_klines());
    let ghost p2 = entries_view(b.entries@);
    let list = kline_pairs();
    for i in 0..list.len()
        invariant
            list@.len() == kline_internals().len(),
            forall|k: int|
                0 <= k < list@.len() ==> (#[trigger] list@[k]).0@ == kline_internals()[k] && list@[k].1@
                    == kline_suffixes()[k],
            entries_view(b.entries@) == p2 + registry_mark_klines().take(i as int),
            at == AccountType::Spot,
    {
        let (internal, suffix) = list[i];
        let kind = StreamKind::MarkPriceKline { interval: KlineInterval::new(internal) };
        let pattern = concat("mark-price-candle", suffix);
        b = b.register(kind, at, pattern.as_str());
        assert(registry_mark_klines().take(i + 1) =~= registry_mark_klines().take(i as int).push(registry_mark_klines()[i as int]));
        assert(entries_view(b.entries@) =~= p2 + registry_mark_klines().take(i + 1));
    }
    assert(registry_mark_klines().take(list.len() as int) =~= registry_mark_klines());
    let ghost p3 = entries_view(b.entries@);
    let list = kline_pairs();
    for i in 0..list.len()
        invariant
            list@.len() == kline_internals().len(),
            forall|k: int|
                0 <= k < list@.len() ==> (#[trigger] list@[k]).0@ == kline_internals()[k] && list@[k].1@
                    == kline_suffixes()[k],
            entries_view(b.entries@) == p3 + registry_index_klines().take(i as int),
            at == AccountType::Spot,
    {
        let (internal, suffix) = list[i];
        let kind = StreamKind::IndexPriceKline { interval: KlineInterval::new(internal) };
        let pattern = concat("index-candle", suffix);
        b = b.register(kind, at, pattern.as_str());
        assert(registry_index_klines().take(i + 1) =~= registry_index_klines().take(i as int).push(registry_index_klines()[i as int]));
        assert(entries_view(b.entries@) =~= p3 + registry_index_klines().take(i + 1));
    }
    assert(registry_index_klines().take(list.len() as int) =~= registry_index_klines());
    assert(p1 =~= registry_head());
    assert(registry_entries() =~= p3 + registry_index_klines());
    b.build()
}

fn registry() -> (r: TopicRegistry)
    ensures
        r.view_entries() == registry_entries(),
{
    build_registry()
}


// ─────────────────────────────────────────────────────────────────────────────
// Laws
// ─────────────────────────────────────────────────────────────────────────────

/// What a subscription asks for is what the registry routes back: the
/// channel a request subscribes to is registered for the same kind (kline
/// families need an interval OKX has a channel for).
pub proof fn lemma_channel_routed(kind: StreamKind, sym: Seq<char>)
    requires
        arg_of(kind, sym) is Some,
        kind matches StreamKind::Kline { interval } ==> known_interval(interval.value@),
        kind matches StreamKind::MarkPriceKline { interval } ==> known_interval(interval.value@),
        kind matches StreamKind::IndexPriceKline { interval } ==> known_interval(interval.value@),
    ensures
        sub_channel(kind, sym) is Some,
        routes_kind(registry_entries(), kind_view(kind), sub_channel(kind, sym)->0),
{
    let ch = sub_channel(kind, sym)->0;
    let es = registry_entries();
    assert(registry_head().len() == 23);
    assert(registry_klines().len() == 16);
    assert(registry_mark_klines().len() == 16);
    match kind {
        StreamKind::Ticker => {
            reveal_strlit("tickers");
            assert(star_free("tickers"@));
            lemma_glob_self("tickers"@);
            assert(ch == "tickers"@);
            assert(es[0] == registry_head()[0]);
            assert(es[0].0 == KindV::Ticker && glob_match(es[0].2, ch));
        },
        StreamKind::Trade => {
            reveal_strlit("trades");
            assert(star_free("trades"@));
            lemma_glob_self("trades"@);
            assert(ch == "trades"@);
            assert(es[1] == registry_head()[1]);
            assert(es[1].0 == KindV::Trade && glob_match(es[1].2, ch));
        },
        StreamKind::Orderbook => {
            reveal_strlit("books");
            assert(star_free("books"@));
            lemma_glob_self("books"@);
            assert(ch == "books"@);
            assert(es[3] == registry_head()[3]);
            assert(es[3].0 == KindV::Orderbook && glob_match(es[3].2, ch));
        },
        StreamKind::OrderbookDelta => {
            reveal_strlit("books-l2-tbt");
            assert(star_free("books-l2-tbt"@));
            lemma_glob_self("books-l2-tbt"@);
            assert(ch == "books-l2-tbt"@);
            assert(es[6] == registry_head()[6]);
            assert(es[6].0 == KindV::OrderbookDelta && glob_match(es[6].2, ch));
        },
        StreamKind::MarkPrice => {
            reveal_strlit("mark-price");
            assert(star_free("mark-price"@));
            lemma_glob_self("mark-price"@);
            assert(ch == "mark-price"@);
            assert(es[8] == registry_head()[8]);
            assert(es[8].0 == KindV::MarkPrice && glob_match(es[8].2, ch));
        },
        StreamKind::FundingRate => {
            reveal_strlit("funding-rate");
            assert(star_free("funding-rate"@));
            lemma_glob_self("funding-rate"@);
            assert(ch == "funding-rate"@);
            assert(es[9] == registry_head()[9]);
            assert(es[9].0 == KindV::FundingRate && glob_match(es[9].2, ch));
        },
        StreamKind::Liquidation => {
            reveal_strlit("liquidation-orders");
            assert(star_free("liquidation-orders"@));
            lemma_glob_self("liquidation-orders"@);
            assert(ch == "liquidation-orders"@);
            assert(es[10] == registry_head()[10]);
            assert(es[10].0 == KindV::Liquidation && glob_match(es[10].2, ch));
        },
        StreamKind::IndexPrice => {
            reveal_strlit("index-tickers");
            assert(star_free("index-tickers"@));
            lemma_glob_self("index-tickers"@);
            assert(ch == "index-tickers"@);
            assert(es[11] == registry_head()[11]);
            assert(es[11].0 == KindV::IndexPrice && glob_match(es[11].2, ch));
        },
        StreamKind::OpenInterest => {
            reveal_strlit("open-interest");
            assert(star_free("open-interest"@));
            lemma_glob_self("open-interest"@);
            assert(ch == "open-interest"@);
            assert(es[12] == registry_head()[12]);
            assert(es[12].0 == KindV::OpenInterest && glob_match(es[12].2, ch));
        },
        StreamKind::BlockTrade => {
            reveal_strlit("public-block-trades");
            assert(star_free("public-block-trades"@));
            lemma_glob_self("public-block-trades"@);
            assert(ch == "public-block-trades"@);
            assert(es[13] == registry_head()[13]);
            assert(es[13].0 == KindV::BlockTrade && glob_match(es[13].2, ch));
        },
        StreamKind::SettlementEvent => {
            reveal_strlit("estimated-price");
            assert(star_free("estimated-price"@));
            lemma_glob_self("estimated-price"@);
            assert(ch == "estimated-price"@);
            assert(es[15] == registry_head()[15]);
            assert(es[15].0 == KindV::SettlementEvent && glob_match(es[15].2, ch));
        },
        StreamKind::OptionGreeks => {
            reveal_strlit("opt-summary");
            assert(star_free("opt-summary"@));
            lemma_glob_self("opt-summary"@);
            assert(ch == "opt-summary"@);
            assert(es[16] == registry_head()[16]);
            assert(es[16].0 == KindV::OptionGreeks && glob_match(es[16].2, ch));
        },
        StreamKind::OrderUpdate => {
            reveal_strlit("orders");
            assert(star_free("orders"@));
            lemma_glob_self("orders"@);
            assert(ch == "orders"@);
            assert(es[20] == registry_head()[20]);
            assert(es[20].0 == KindV::OrderUpdate && glob_match(es[20].2, ch));
        },
        StreamKind::BalanceUpdate => {
            reveal_strlit("account");
            assert(star_free("account"@));
            lemma_glob_self("account"@);
            assert(ch == "account"@);
            assert(es[21] == registry_head()[21]);
            assert(es[21].0 == KindV::BalanceUpdate && glob_match(es[21].2, ch));
        },
        StreamKind::PositionUpdate => {
            reveal_strlit("positions");
            assert(star_free("positions"@));
            lemma_glob_self("positions"@);
            assert(ch == "positions"@);
            assert(es[22] == registry_head()[22]);
            assert(es[22].0 == KindV::PositionUpdate && glob_match(es[22].2, ch));
        },
        StreamKind::Kline { interval } => {
            let k = lemma_interval_position(interval.value@);
            reveal_strlit("candle");
            assert(star_free("candle"@));
            lemma_star_free_concat("candle"@, okx_interval_of(interval.value@));
            lemma_glob_self("candle"@ + okx_interval_of(interval.value@));
            assert(es[23 + k] == registry_klines()[k]);
            assert(es[23 + k].0 == kind_view(kind) && glob_match(es[23 + k].2, ch));
        },
        StreamKind::MarkPriceKline { interval } => {
            let k = lemma_interval_position(interval.value@);
            reveal_strlit("mark-price-candle");
            assert(star_free("mark-price-candle"@));
            lemma_star_free_concat("mark-price-candle"@, okx_interval_of(interval.value@));
            lemma_glob_self("mark-price-candle"@ + okx_interval_of(interval.value@));
            assert(es[39 + k] == registry_mark_klines()[k]);
            assert(es[39 + k].0 == kind_view(kind) && glob_match(es[39 + k].2, ch));
        },
        StreamKind::IndexPriceKline { interval } => {
            let k = lemma_interval_position(interval.value@);
            reveal_strlit("index-candle");
            assert(star_free("index-candle"@));
            lemma_star_free_concat("index-candle"@, okx_interval_of(interval.value@));
            lemma_glob_self("index-candle"@ + okx_interval_of(interval.value@));
            assert(es[55 + k] == registry_index_klines()[k]);
            assert(es[55 + k].0 == kind_view(kind) && glob_match(es[55 + k].2, ch));
        },
        _ => {},
    }
}

/// "pong" and event frames (acks, login, errors) never yield a routing key.
pub proof fn lemma_control_frames_have_no_topic(raw: JsonV)
    ensures
        str_value(raw) == Some("pong"@) || member(raw, "event"@) is Some ==> spec_topic(raw) is None,
{
}

/// Every OKX instrument stream subscribes with its instrument: the request's
/// argument carries `instId` equal to the stream's symbol.
pub proof fn lemma_arg_names_instrument(kind: StreamKind, sym: Seq<char>)
    requires
        arg_of(kind, sym) is Some,
        !(kind is Liquidation || kind is SettlementEvent || kind is OptionGreeks),
    ensures
        crate::common::json::member(arg_of(kind, sym)->Some_0, "instId"@) == Some(JsonV::Str(sym)),
{
    reveal_strlit("channel");
    reveal_strlit("instId");
    assert("channel"@.len() == 7 && "instId"@.len() == 6);
    reveal_with_fuel(crate::common::json::member_from, 3);
}

} // verus!
