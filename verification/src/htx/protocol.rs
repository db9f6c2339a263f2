//! HTX WebSocket protocol: topics, subscribe frames, frame classes, gzip decoding.
//!
//! Subscribe: `{"sub":"market.btcusdt.kline.1min","id":"id1"}`; data frames
//! carry their topic in `ch`.  The server sends `{"ping":<ts>}` heartbeats,
//! which carry no topic.

use vstd::prelude::*;
use crate::common::types::{
    AccountType, KlineInterval, StreamKind, StreamSpec, Message, WebSocketError, TopicKey, KindV,
    kind_view, kind_label, symbol_text, Credentials,
};
use crate::common::text::{
    is_text2, is_text3, is_text4, is_text5, concat, concat3, concat4, decimal_text, u64_text,
    str_eq, chars_of,
};
use crate::common::json::{
    Json, JsonV, json_text, push_member, to_text, member, str_member, members_view,
};
use crate::common::registry::{
    TopicRegistry, EntryV, entries_view, routes_kind, glob_match, star_free, lemma_glob_split,
};

verus! {

// ─────────────────────────────────────────────────────────────────────────────
// Kline intervals
// ─────────────────────────────────────────────────────────────────────────────

/// Internal interval → HTX wire interval ("1h" → "60min"); unknown → "1min".
pub open spec fn kline_wire_of(s: Seq<char>) -> Seq<char> {
    if is_text2(s, '1', 'm') {
        seq!['1', 'm', 'i', 'n']
    } else if is_text2(s, '5', 'm') {
        seq!['5', 'm', 'i', 'n']
    } else if is_text3(s, '1', '5', 'm') {
        seq!['1', '5', 'm', 'i', 'n']
    } else if is_text3(s, '3', '0', 'm') {
        seq!['3', '0', 'm', 'i', 'n']
    } else if is_text2(s, '1', 'h') {
        seq!['6', '0', 'm', 'i', 'n']
    } else if is_text2(s, '4', 'h') {
        seq!['4', 'h', 'o', 'u', 'r']
    } else if is_text2(s, '1', 'd') {
        seq!['1', 'd', 'a', 'y']
    } else if is_text2(s, '1', 'w') {
        seq!['1', 'w', 'e', 'e', 'k']
    } else if is_text2(s, '1', 'M') {
        seq!['1', 'm', 'o', 'n']
    } else {
        seq!['1', 'm', 'i', 'n']
    }
}

/// HTX wire intervals, paired position by position with `kline_internals()`.
pub open spec fn kline_wires() -> Seq<Seq<char>> {
    seq![
        seq!['1', 'm', 'i', 'n'],
        seq!['5', 'm', 'i', 'n'],
        seq!['1', '5', 'm', 'i', 'n'],
        seq!['3', '0', 'm', 'i', 'n'],
        seq!['6', '0', 'm', 'i', 'n'],
        seq!['4', 'h', 'o', 'u', 'r'],
        seq!['1', 'd', 'a', 'y'],
        seq!['1', 'w', 'e', 'e', 'k'],
        seq!['1', 'm', 'o', 'n'],
    ]
}

/// Internal intervals HTX has a kline channel for.
pub open spec fn kline_internals() -> Seq<Seq<char>> {
    seq![
        seq!['1', 'm'],
        seq!['5', 'm'],
        seq!['1', '5', 'm'],
        seq!['3', '0', 'm'],
        seq!['1', 'h'],
        seq!['4', 'h'],
        seq!['1', 'd'],
        seq!['1', 'w'],
        seq!['1', 'M'],
    ]
}

/// The internal intervals that have an HTX kline channel.
pub open spec fn known_interval(interval: Seq<char>) -> bool {
    is_text2(interval, '1', 'm')
        || is_text2(interval, '5', 'm')
        || is_text3(interval, '1', '5', 'm')
        || is_text3(interval, '3', '0', 'm')
        || is_text2(interval, '1', 'h')
        || is_text2(interval, '4', 'h')
        || is_text2(interval, '1', 'd')
        || is_text2(interval, '1', 'w')
        || is_text2(interval, '1', 'M')
}

/// Map internal KlineInterval → HTX wire interval string.
pub fn htx_kline_wire(interval: &KlineInterval) -> (r: &'static str)
    ensures
        r@ == kline_wire_of(interval.value@),
{
    let v = crate::common::text::chars_of(interval.as_str());
    if v.len() == 2 && v[0] == '1' && v[1] == 'm' {
        proof { reveal_strlit("1min"); assert("1min"@ =~= seq!['1', 'm', 'i', 'n']); } "1min"
    } else if v.len() == 2 && v[0] == '5' && v[1] == 'm' {
        proof { reveal_strlit("5min"); assert("5min"@ =~= seq!['5', 'm', 'i', 'n']); } "5min"
    } else if v.len() == 3 && v[0] == '1' && v[1] == '5' && v[2] == 'm' {
        proof { reveal_strlit("15min"); assert("15min"@ =~= seq!['1', '5', 'm', 'i', 'n']); } "15min"
    } else if v.len() == 3 && v[0] == '3' && v[1] == '0' && v[2] == 'm' {
        proof { reveal_strlit("30min"); assert("30min"@ =~= seq!['3', '0', 'm', 'i', 'n']); } "30min"
    } else if v.len() == 2 && v[0] == '1' && v[1] == 'h' {
        proof { reveal_strlit("60min"); assert("60min"@ =~= seq!['6', '0', 'm', 'i', 'n']); } "60min"
    } else if v.len() == 2 && v[0] == '4' && v[1] == 'h' {
        proof { reveal_strlit("4hour"); assert("4hour"@ =~= seq!['4', 'h', 'o', 'u', 'r']); } "4hour"
    } else if v.len() == 2 && v[0] == '1' && v[1] == 'd' {
        proof { reveal_strlit("1day"); assert("1day"@ =~= seq!['1', 'd', 'a', 'y']); } "1day"
    } else if v.len() == 2 && v[0] == '1' && v[1] == 'w' {
        proof { reveal_strlit("1week"); assert("1week"@ =~= seq!['1', 'w', 'e', 'e', 'k']); } "1week"
    } else if v.len() == 2 && v[0] == '1' && v[1] == 'M' {
        proof { reveal_strlit("1mon"); assert("1mon"@ =~= seq!['1', 'm', 'o', 'n']); } "1mon"
    } else {
        proof { reveal_strlit("1min"); assert("1min"@ =~= seq!['1', 'm', 'i', 'n']); } "1min"
    }
}

/// HTX wire kline interval → internal KlineInterval string pairs.
pub fn kline_channel_list() -> (v: Vec<(&'static str, &'static str)>)
    ensures
        v@.len() == kline_wires().len(),
        forall|i: int|
            0 <= i < v@.len() ==> (#[trigger] v@[i]).0@ == kline_wires()[i] && v@[i].1@ == kline_internals()[i],
{
    let v = vec![("1min", "1m"), ("5min", "5m"), ("15min", "15m"), ("30min", "30m"), ("60min", "1h"), ("4hour", "4h"), ("1day", "1d"), ("1week", "1w"), ("1mon", "1M")];
    proof {
        reveal_strlit("1min");
        assert("1min"@ =~= seq!['1', 'm', 'i', 'n']);
        reveal_strlit("1m");
        assert("1m"@ =~= seq!['1', 'm']);
        reveal_strlit("5min");
        assert("5min"@ =~= seq!['5', 'm', 'i', 'n']);
        reveal_strlit("5m");
        assert("5m"@ =~= seq!['5', 'm']);
        reveal_strlit("15min");
        assert("15min"@ =~= seq!['1', '5', 'm', 'i', 'n']);
        reveal_strlit("15m");
        assert("15m"@ =~= seq!['1', '5', 'm']);
        reveal_strlit("30min");
        assert("30min"@ =~= seq!['3', '0', 'm', 'i', 'n']);
        reveal_strlit("30m");
        assert("30m"@ =~= seq!['3', '0', 'm']);
        reveal_strlit("60min");
        assert("60min"@ =~= seq!['6', '0', 'm', 'i', 'n']);
        reveal_strlit("1h");
        assert("1h"@ =~= seq!['1', 'h']);
        reveal_strlit("4hour");
        assert("4hour"@ =~= seq!['4', 'h', 'o', 'u', 'r']);
        reveal_strlit("4h");
        assert("4h"@ =~= seq!['4', 'h']);
        reveal_strlit("1day");
        assert("1day"@ =~= seq!['1', 'd', 'a', 'y']);
        reveal_strlit("1d");
        assert("1d"@ =~= seq!['1', 'd']);
        reveal_strlit("1week");
        assert("1week"@ =~= seq!['1', 'w', 'e', 'e', 'k']);
        reveal_strlit("1w");
        assert("1w"@ =~= seq!['1', 'w']);
        reveal_strlit("1mon");
        assert("1mon"@ =~= seq!['1', 'm', 'o', 'n']);
        reveal_strlit("1M");
        assert("1M"@ =~= seq!['1', 'M']);
    }
    v
}

/// Each known interval's wire name sits at the same position as the interval.
pub proof fn lemma_kline_position(interval: Seq<char>) -> (k: int)
    requires
        known_interval(interval),
    ensures
        0 <= k < kline_wires().len(),
        kline_wires()[k] == kline_wire_of(interval),
        kline_internals()[k] == interval,
        star_free(kline_wire_of(interval)),
{
    if is_text2(interval, '1', 'm') {
        assert(interval =~= seq!['1', 'm']);
        assert(!seq!['1', 'm', 'i', 'n'].contains('*'));
        0
    } else if is_text2(interval, '5', 'm') {
        assert(interval =~= seq!['5', 'm']);
        assert(!seq!['5', 'm', 'i', 'n'].contains('*'));
        1
    } else if is_text3(interval, '1', '5', 'm') {
        assert(interval =~= seq!['1', '5', 'm']);
        assert(!seq!['1', '5', 'm', 'i', 'n'].contains('*'));
        2
    } else if is_text3(interval, '3', '0', 'm') {
        assert(interval =~= seq!['3', '0', 'm']);
        assert(!seq!['3', '0', 'm', 'i', 'n'].contains('*'));
        3
    } else if is_text2(interval, '1', 'h') {
        assert(interval =~= seq!['1', 'h']);
        assert(!seq!['6', '0', 'm', 'i', 'n'].contains('*'));
        4
    } else if is_text2(interval, '4', 'h') {
        assert(interval =~= seq!['4', 'h']);
        assert(!seq!['4', 'h', 'o', 'u', 'r'].contains('*'));
        5
    } else if is_text2(interval, '1', 'd') {
        assert(interval =~= seq!['1', 'd']);
        assert(!seq!['1', 'd', 'a', 'y'].contains('*'));
        6
    } else if is_text2(interval, '1', 'w') {
        assert(interval =~= seq!['1', 'w']);
        assert(!seq!['1', 'w', 'e', 'e', 'k'].contains('*'));
        7
    } else if is_text2(interval, '1', 'M') {
        assert(interval =~= seq!['1', 'M']);
        assert(!seq!['1', 'm', 'o', 'n'].contains('*'));
        8
    } else {
        0
    }
}

// ─────────────────────────────────────────────────────────────────────────────
// Topics
// ─────────────────────────────────────────────────────────────────────────────

pub open spec fn is_futures(at: AccountType) -> bool {
    at is FuturesCross || at is FuturesIsolated
}

pub open spec fn agg_trade_message() -> Seq<char> {
    "HTX has no aggregated trade WS channel — subscribe StreamKind::Trade for raw fills via market.{sym}.trade.detail"@
}

pub open spec fn mark_price_message() -> Seq<char> {
    "HTX does not have a direct WS mark price channel — use kline market.{sym}.mark_price.1min or REST mark_price endpoint"@
}

pub open spec fn open_interest_message() -> Seq<char> {
    "HTX does not expose a realtime WS open interest feed — use REST GET /linear-swap-api/v1/swap_open_interest"@
}

pub open spec fn index_kline_message() -> Seq<char> {
    "HTX: IndexPriceKline not available via WebSocket — use REST"@
}

/// The HTX topic of a stream on symbol text `sym`; `Err` carries whether the
/// failure is "not supported by HTX" (`true`) and its message.
pub open spec fn topic_of(kind: StreamKind, at: AccountType, sym: Seq<char>) -> Result<Seq<char>, (bool, Seq<char>)> {
    match kind {
        StreamKind::Ticker => if is_futures(at) {
            Ok("market."@ + sym + ".bbo"@)
        } else {
            Ok("market."@ + sym + ".detail"@)
        },
        StreamKind::Trade => Ok("market."@ + sym + ".trade.detail"@),
        StreamKind::Orderbook => Ok("market."@ + sym + ".depth.step0"@),
        StreamKind::OrderbookDelta => Ok("market."@ + sym + ".mbp.150"@),
        StreamKind::Kline { interval } => Ok("market."@ + sym + ".kline."@ + kline_wire_of(interval.value@)),
        StreamKind::FundingRate => Ok("public."@ + sym + ".funding_rate"@),
        StreamKind::Liquidation => Ok("public."@ + sym + ".liquidation_orders"@),
        StreamKind::AggTrade => Err((true, agg_trade_message())),
        StreamKind::MarkPrice => Err((true, mark_price_message())),
        StreamKind::OpenInterest => Err((true, open_interest_message())),
        StreamKind::IndexPriceKline { .. } => Err((true, index_kline_message())),
        _ => Err((false, "htx: unsupported stream kind "@ + kind_label(kind_view(kind)))),
    }
}

/// The topic of a subscription (its symbol text is already exchange-native).
pub open spec fn spec_topic_for(spec: StreamSpec) -> Result<Seq<char>, (bool, Seq<char>)> {
    topic_of(spec.kind, spec.account_type, symbol_text(spec.symbol))
}

/// The error value matches a (not-supported flag, message) pair.
pub open spec fn error_is(e: WebSocketError, expected: (bool, Seq<char>)) -> bool {
    if expected.0 {
        e is NotSupported && e->NotSupported_0@ == expected.1
    } else {
        e is UnsupportedOperation && e->UnsupportedOperation_0@ == expected.1
    }
}

/// `{"sub": topic, "id": id}` or `{"unsub": topic, "id": id}`.
pub open spec fn sub_frame(subscribe: bool, topic: Seq<char>, id: Seq<char>) -> JsonV {
    JsonV::Object(
        seq![
            (if subscribe { "sub"@ } else { "unsub"@ }, JsonV::Str(topic)),
            ("id"@, JsonV::Str(id)),
        ],
    )
}

/// Request id text for counter value `n`: `id<n>`.
pub open spec fn id_text(n: u64) -> Seq<char> {
    "id"@ + decimal_text(n as nat)
}

/// The counter value after one fetch-and-increment (wrapping at `u64::MAX`).
pub open spec fn next_counter(c: u64) -> u64 {
    if c == u64::MAX { 0 } else { (c + 1) as u64 }
}

/// Declarative HTX WS protocol state.
#[derive(Debug)]
pub struct HtxProtocol {
    account_type: AccountType,
    testnet: bool,
    id_counter: u64,
}

impl HtxProtocol {
    /// The counter value the next subscription id is made from.
    pub closed spec fn counter(&self) -> u64 {
        self.id_counter
    }

    pub fn new(account_type: AccountType, testnet: bool) -> (r: Self)
        ensures
            r.counter() == 1,
    {
        HtxProtocol { account_type, testnet, id_counter: 1 }
    }

    fn next_id(&mut self) -> (r: String)
        ensures
            r@ == id_text(old(self).counter()),
            final(self).counter() == next_counter(old(self).counter()),
    {
        let n = self.id_counter;
        self.id_counter = if n == u64::MAX { 0 } else { n + 1 };
        let t = u64_text(n);
        concat("id", t.as_str())
    }

    /// Build the HTX topic string for a given StreamSpec.
    pub fn topic_for(spec: &StreamSpec) -> (r: Result<String, WebSocketError>)
        ensures
            match r {
                Ok(t) => spec_topic_for(*spec) == Ok::<Seq<char>, (bool, Seq<char>)>(t@),
                Err(e) => spec_topic_for(*spec) is Err && error_is(e, spec_topic_for(*spec)->Err_0),
            },
    {
        let sym = spec.symbol.as_str();
        let futures = match spec.account_type {
            AccountType::FuturesCross | AccountType::FuturesIsolated => true,
            _ => false,
        };
        match &spec.kind {
            StreamKind::Ticker => if futures {
                Ok(concat3("market.", sym, ".bbo"))
            } else {
                Ok(concat3("market.", sym, ".detail"))
            },
            StreamKind::Trade => Ok(concat3("market.", sym, ".trade.detail")),
            StreamKind::Orderbook => Ok(concat3("market.", sym, ".depth.step0")),
            StreamKind::OrderbookDelta => Ok(concat3("market.", sym, ".mbp.150")),
            StreamKind::Kline { interval } => Ok(concat4("market.", sym, ".kline.", htx_kline_wire(interval))),
            StreamKind::FundingRate => Ok(concat3("public.", sym, ".funding_rate")),
            StreamKind::Liquidation => Ok(concat3("public.", sym, ".liquidation_orders")),
            StreamKind::AggTrade => Err(WebSocketError::NotSupported(
                "HTX has no aggregated trade WS channel — subscribe StreamKind::Trade for raw fills via market.{sym}.trade.detail".to_owned(),
            )),
            StreamKind::MarkPrice => Err(WebSocketError::NotSupported(
                "HTX does not have a direct WS mark price channel — use kline market.{sym}.mark_price.1min or REST mark_price endpoint".to_owned(),
            )),
            StreamKind::OpenInterest => Err(WebSocketError::NotSupported(
                "HTX does not expose a realtime WS open interest feed — use REST GET /linear-swap-api/v1/swap_open_interest".to_owned(),
            )),
            StreamKind::IndexPriceKline { .. } => Err(WebSocketError::NotSupported(
                "HTX: IndexPriceKline not available via WebSocket — use REST".to_owned(),
            )),
            other => Err(WebSocketError::UnsupportedOperation(
                concat("htx: unsupported stream kind ", other.label()),
            )),
        }
    }
}


// ─────────────────────────────────────────────────────────────────────────────
// Frames and frame classes
// ─────────────────────────────────────────────────────────────────────────────

/// What `flate2`'s gzip decoder yields for these bytes, read to a UTF-8 string
/// (`None` when they are not valid gzip or not valid UTF-8).
pub uninterp spec fn gunzip_text(bytes: Seq<u8>) -> Option<Seq<char>>;

/// `flate2::read::GzDecoder::new(bytes)` read to the end as a `String`.
/// The contract names the decoded text; its relation to the bytes is not described here.
/// On failure the decoder's error message is returned.
#[verifier::external_body]
fn gunzip(bytes: &[u8]) -> (r: Result<String, String>)
    ensures
        match r {
            Ok(t) => gunzip_text(bytes@) == Some(t@),
            Err(_) => gunzip_text(bytes@) is None,
        },
{
    let mut decoder = flate2::read::GzDecoder::new(bytes);
    let mut text = String::new();
    match std::io::Read::read_to_string(&mut decoder, &mut text) {
        Ok(_) => Ok(text),
        Err(e) => Err(e.to_string()),
    }
}

/// Heartbeat from the server: `{"ping":<ts>}`.
pub open spec fn spec_is_server_ping(raw: JsonV) -> bool {
    member(raw, "ping"@) is Some
}

pub open spec fn spec_is_pong(raw: JsonV) -> bool {
    member(raw, "pong"@) is Some
}

/// (Un)subscription acknowledgement: a `subbed` or `unsubbed` member.
pub open spec fn spec_is_subscribe_ack(raw: JsonV) -> bool {
    member(raw, "subbed"@) is Some || member(raw, "unsubbed"@) is Some
}

/// Routing key: the `ch` of a frame that is not a heartbeat, ack or pong.
pub open spec fn spec_topic(raw: JsonV) -> Option<Seq<char>> {
    if spec_is_server_ping(raw) || spec_is_subscribe_ack(raw) || spec_is_pong(raw) {
        None
    } else {
        str_member(raw, "ch"@)
    }
}

/// Account type a registry is built for: futures lines share one registry.
pub open spec fn registry_account(at: AccountType) -> AccountType {
    if at is FuturesCross || at is FuturesIsolated || at is Options {
        AccountType::FuturesCross
    } else {
        AccountType::Spot
    }
}

impl HtxProtocol {
    pub fn name(&self) -> (r: &'static str)
        ensures
            r@ == "htx"@,
    {
        "htx"
    }

    /// HTX heartbeat is server-initiated: the client sends no pings.
    pub fn ping_frame(&self) -> (r: Option<Message>)
        ensures
            r is None,
    {
        None
    }

    /// Seconds between pings (unused: no client pings are sent).
    pub fn ping_interval(&self) -> (r: u64)
        ensures
            r == 30,
    {
        30
    }

    fn build_frame(&mut self, subscribe: bool, spec: &StreamSpec) -> (r: Result<Message, WebSocketError>)
        ensures
            match r {
                Ok(m) => spec_topic_for(*spec) is Ok && m == Message::Text(m->Text_0)
                    && m->Text_0@ == json_text(
                    sub_frame(subscribe, spec_topic_for(*spec)->Ok_0, id_text(old(self).counter())),
                ) && final(self).counter() == next_counter(old(self).counter()),
                Err(e) => spec_topic_for(*spec) is Err && error_is(e, spec_topic_for(*spec)->Err_0)
                    && final(self).counter() == old(self).counter(),
            },
    {
        let topic = match Self::topic_for(spec) {
            Ok(t) => t,
            Err(e) => return Err(e),
        };
        let id = self.next_id();
        let mut members: Vec<(String, Json)> = Vec::new();
        push_member(&mut members, if subscribe { "sub" } else { "unsub" }, Json::string(topic.as_str()));
        push_member(&mut members, "id", Json::string(id.as_str()));
        assert(members_view(members@) =~= seq![
            (if subscribe { "sub"@ } else { "unsub"@ }, JsonV::Str(topic@)),
            ("id"@, JsonV::Str(id@)),
        ]);
        let frame = Json::Object(members);
        Ok(Message::Text(to_text(&frame)))
    }

    /// `{"sub": topic, "id": "id<n>"}`; consumes one id when the topic exists.
    pub fn subscribe_frame(&mut self, spec: &StreamSpec) -> (r: Result<Message, WebSocketError>)
        ensures
            match r {
                Ok(m) => spec_topic_for(*spec) is Ok && m == Message::Text(m->Text_0)
                    && m->Text_0@ == json_text(
                    sub_frame(true, spec_topic_for(*spec)->Ok_0, id_text(old(self).counter())),
                ) && final(self).counter() == next_counter(old(self).counter()),
                Err(e) => spec_topic_for(*spec) is Err && error_is(e, spec_topic_for(*spec)->Err_0)
                    && final(self).counter() == old(self).counter(),
            },
    {
        self.build_frame(true, spec)
    }

    /// `{"unsub": topic, "id": "id<n>"}`; consumes one id when the topic exists.
    pub fn unsubscribe_frame(&mut self, spec: &StreamSpec) -> (r: Result<Message, WebSocketError>)
        ensures
            match r {
                Ok(m) => spec_topic_for(*spec) is Ok && m == Message::Text(m->Text_0)
                    && m->Text_0@ == json_text(
                    sub_frame(false, spec_topic_for(*spec)->Ok_0, id_text(old(self).counter())),
                ) && final(self).counter() == next_counter(old(self).counter()),
                Err(e) => spec_topic_for(*spec) is Err && error_is(e, spec_topic_for(*spec)->Err_0)
                    && final(self).counter() == old(self).counter(),
            },
    {
        self.build_frame(false, spec)
    }

    /// Public channels only: no auth frame.
    pub fn auth_frame(&self, credentials: &Credentials) -> (r: Option<Result<Message, WebSocketError>>)
        ensures
            r is None,
    {
        None
    }

    pub fn is_auth_ack(&self, raw: &Json) -> (r: bool)
        ensures
            !r,
    {
        false
    }

    pub fn is_pong(&self, raw: &Json) -> (r: bool)
        ensures
            r == spec_is_pong(raw@),
    {
        raw.get("pong").is_some()
    }

    pub fn is_subscribe_ack(&self, raw: &Json) -> (r: bool)
        ensures
            r == spec_is_subscribe_ack(raw@),
    {
        raw.get("subbed").is_some() || raw.get("unsubbed").is_some() || (match raw.get_str("status") {
            Some(s) => str_eq(s, "ok"),
            None => false,
        } && raw.get("subbed").is_some())
    }

    /// Routing key (`ch`) of a data frame; `None` for heartbeats, acks and pongs.
    pub fn extract_topic(&self, raw: &Json) -> (r: Option<TopicKey>)
        ensures
            match r {
                Some(t) => spec_topic(raw@) == Some(t.key@),
                None => spec_topic(raw@) is None,
            },
    {
        if raw.get("ping").is_some() {
            return None;
        }
        if raw.get("subbed").is_some() || raw.get("unsubbed").is_some() {
            return None;
        }
        if raw.get("pong").is_some() {
            return None;
        }
        match raw.get_str("ch") {
            Some(ch) => Some(TopicKey::new(ch)),
            None => None,
        }
    }

    fn spot_registry() -> (r: TopicRegistry)
        ensures
            r.view_entries() == registry_entries(AccountType::Spot),
    {
        build_registry(AccountType::Spot)
    }

    fn futures_registry() -> (r: TopicRegistry)
        ensures
            r.view_entries() == registry_entries(AccountType::FuturesCross),
    {
        build_registry(AccountType::FuturesCross)
    }

    /// Futures and options share the futures registry; everything else uses spot's.
    pub fn topic_registry(&self, account_type: AccountType) -> (r: TopicRegistry)
        ensures
            r.view_entries() == registry_entries(registry_account(account_type)),
    {
        match account_type {
            AccountType::FuturesCross | AccountType::FuturesIsolated | AccountType::Options => {
                Self::futures_registry()
            },
            _ => Self::spot_registry(),
        }
    }

    /// Kinds HTX has no WebSocket feed for.
    pub fn unsupported_by_exchange(&self, account_type: AccountType) -> (r: Vec<StreamKind>)
        ensures
            r@.len() == 2,
            kind_view(r@[0]) == KindV::MarkPrice,
            kind_view(r@[1]) == KindV::IndexPrice,
    {
        vec![StreamKind::MarkPrice, StreamKind::IndexPrice]
    }

    /// Gunzip a binary frame to its JSON text.
    pub fn decode_binary(&self, bytes: &[u8]) -> (r: Result<String, WebSocketError>)
        ensures
            match r {
                Ok(t) => gunzip_text(bytes@) == Some(t@),
                Err(e) => gunzip_text(bytes@) is None && e is Parse,
            },
    {
        match gunzip(bytes) {
            Ok(t) => Ok(t),
            Err(msg) => Err(WebSocketError::Parse(concat("htx gzip decode: ", msg.as_str()))),
        }
    }
}

// ─────────────────────────────────────────────────────────────────────────────
// Registry
// ─────────────────────────────────────────────────────────────────────────────

/// Registrations of the standard channels, for account type `at`.
pub open spec fn registry_head(at: AccountType) -> Seq<EntryV> {
    seq![
        (KindV::Ticker, at, "market.*.detail"@),
        (KindV::Ticker, at, "market.*.bbo"@),
        (KindV::Trade, at, "market.*.trade.detail"@),
        (KindV::Orderbook, at, "market.*.depth.step0"@),
        (KindV::Orderbook, at, "market.*.depth.step1"@),
        (KindV::Orderbook, at, "market.*.depth.step2"@),
        (KindV::Orderbook, at, "market.*.depth.step3"@),
        (KindV::Orderbook, at, "market.*.depth.step4"@),
        (KindV::Orderbook, at, "market.*.depth.step5"@),
        (KindV::OrderbookDelta, at, "market.*.mbp.5"@),
        (KindV::OrderbookDelta, at, "market.*.mbp.10"@),
        (KindV::OrderbookDelta, at, "market.*.mbp.20"@),
        (KindV::OrderbookDelta, at, "market.*.mbp.150"@),
        (KindV::OrderbookDelta, at, "market.*.mbp.400"@),
        (KindV::FundingRate, at, "public.*.funding_rate"@),
        (KindV::Liquidation, at, "public.*.liquidation_orders"@),
    ]
}

/// One registration per kline interval: `market.*.kline.<wire>`.
pub open spec fn registry_klines(at: AccountType) -> Seq<EntryV> {
    Seq::new(
        kline_wires().len(),
        |i: int| (KindV::Kline(kline_internals()[i]), at, "market.*.kline."@ + kline_wires()[i]),
    )
}

pub open spec fn registry_entries(at: AccountType) -> Seq<EntryV> {
    registry_head(at) + registry_klines(at)
}

/// The topic registry for account type `at`.
pub fn build_registry(account_type: AccountType) -> (r: TopicRegistry)
    ensures
        r.view_entries() == registry_entries(account_type),
{
    let mut b = TopicRegistry::builder();
    b = b.register(StreamKind::Ticker, account_type, "market.*.detail");
    b = b.register(StreamKind::Ticker, account_type, "market.*.bbo");
    b = b.register(StreamKind::Trade, account_type, "market.*.trade.detail");
    b = b.register(StreamKind::Orderbook, account_type, "market.*.depth.step0");
    b = b.register(StreamKind::Orderbook, account_type, "market.*.depth.step1");
    b = b.register(StreamKind::Orderbook, account_type, "market.*.depth.step2");
    b = b.register(StreamKind::Orderbook, account_type, "market.*.depth.step3");
    b = b.register(StreamKind::Orderbook, account_type, "market.*.depth.step4");
    b = b.register(StreamKind::Orderbook, account_type, "market.*.depth.step5");
    b = b.register(StreamKind::OrderbookDelta, account_type, "market.*.mbp.5");
    b = b.register(StreamKind::OrderbookDelta, account_type, "market.*.mbp.10");
    b = b.register(StreamKind::OrderbookDelta, account_type, "market.*.mbp.20");
    b = b.register(StreamKind::OrderbookDelta, account_type, "market.*.mbp.150");
    b = b.register(StreamKind::OrderbookDelta, account_type, "market.*.mbp.400");
    b = b.register(StreamKind::FundingRate, account_type, "public.*.funding_rate");
    b = b.register(StreamKind::Liquidation, account_type, "public.*.liquidation_orders");
    assert(entries_view(b.entries@) =~= registry_head(account_type));
    let list = kline_channel_list();
    for i in 0..list.len()
        invariant
            list@.len() == kline_wires().len(),
            forall|k: int|
                0 <= k < list@.len() ==> (#[trigger] list@[k]).0@ == kline_wires()[k] && list@[k].1@
                    == kline_internals()[k],
            entries_view(b.entries@) == registry_head(account_type) + registry_klines(account_type).take(i as int),
    {
        let (wire, internal) = list[i];
        let kind = StreamKind::Kline { interval: KlineInterval::new(internal) };
        let pattern = concat("market.*.kline.", wire);
        b = b.register(kind, account_type, pattern.as_str());
        assert(registry_klines(account_type).take(i + 1) =~= registry_klines(account_type).take(i as int).push(
            registry_klines(account_type)[i as int],
        ));
        assert(entries_view(b.entries@) =~= registry_head(account_type) + registry_klines(account_type).take(i + 1));
    }
    assert(registry_klines(account_type).take(list.len() as int) =~= registry_klines(account_type));
    b.build()
}


// ─────────────────────────────────────────────────────────────────────────────
// Laws
// ─────────────────────────────────────────────────────────────────────────────

/// What a subscription asks for is what the registry routes back: every topic
/// HTX names for a stream is matched by a registry entry of that same kind
/// (klines need an interval HTX has a channel for).
pub proof fn lemma_topic_routed(kind: StreamKind, at: AccountType, sym: Seq<char>)
    requires
        topic_of(kind, at, sym) is Ok,
        kind matches StreamKind::Kline { interval } ==> known_interval(interval.value@),
    ensures
        routes_kind(registry_entries(registry_account(at)), kind_view(kind), topic_of(kind, at, sym)->Ok_0),
{
    let t = topic_of(kind, at, sym)->Ok_0;
    let ra = registry_account(at);
    let es = registry_entries(ra);
    assert(registry_head(ra).len() == 16);
    match kind {
        StreamKind::Ticker => {
            if is_futures(at) {
                reveal_strlit("market.*.bbo");
                reveal_strlit("market.");
                reveal_strlit(".bbo");
                assert("market.*.bbo"@ =~= "market."@ + seq!['*'] + ".bbo"@);
                assert(star_free("market."@));
                assert(star_free(".bbo"@));
                lemma_glob_split("market.*.bbo"@, "market."@, sym, ".bbo"@);
                assert(es[1] == registry_head(ra)[1]);
                assert(es[1].0 == KindV::Ticker && glob_match(es[1].2, t));
            } else {
                reveal_strlit("market.*.detail");
                reveal_strlit("market.");
                reveal_strlit(".detail");
                assert("market.*.detail"@ =~= "market."@ + seq!['*'] + ".detail"@);
                assert(star_free("market."@));
                assert(star_free(".detail"@));
                lemma_glob_split("market.*.detail"@, "market."@, sym, ".detail"@);
                assert(es[0] == registry_head(ra)[0]);
                assert(es[0].0 == KindV::Ticker && glob_match(es[0].2, t));
            }
        },
        StreamKind::Trade => {
            reveal_strlit("market.*.trade.detail");
            reveal_strlit("market.");
            reveal_strlit(".trade.detail");
            assert("market.*.trade.detail"@ =~= "market."@ + seq!['*'] + ".trade.detail"@);
            assert(star_free("market."@));
            assert(star_free(".trade.detail"@));
            lemma_glob_split("market.*.trade.detail"@, "market."@, sym, ".trade.detail"@);
            assert(es[2] == registry_head(ra)[2]);
            assert(es[2].0 == KindV::Trade && glob_match(es[2].2, t));
        },
        StreamKind::Orderbook => {
            reveal_strlit("market.*.depth.step0");
            reveal_strlit("market.");
            reveal_strlit(".depth.step0");
            assert("market.*.depth.step0"@ =~= "market."@ + seq!['*'] + ".depth.step0"@);
            assert(star_free("market."@));
            assert(star_free(".depth.step0"@));
            lemma_glob_split("market.*.depth.step0"@, "market."@, sym, ".depth.step0"@);
            assert(es[3] == registry_head(ra)[3]);
            assert(es[3].0 == KindV::Orderbook && glob_match(es[3].2, t));
        },
        StreamKind::OrderbookDelta => {
            reveal_strlit("market.*.mbp.150");
            reveal_strlit("market.");
            reveal_strlit(".mbp.150");
            assert("market.*.mbp.150"@ =~= "market."@ + seq!['*'] + ".mbp.150"@);
            assert(star_free("market."@));
            assert(star_free(".mbp.150"@));
            lemma_glob_split("market.*.mbp.150"@, "market."@, sym, ".mbp.150"@);
            assert(es[12] == registry_head(ra)[12]);
            assert(es[12].0 == KindV::OrderbookDelta && glob_match(es[12].2, t));
        },
        StreamKind::FundingRate => {
            reveal_strlit("public.*.funding_rate");
            reveal_strlit("public.");
            reveal_strlit(".funding_rate");
            assert("public.*.funding_rate"@ =~= "public."@ + seq!['*'] + ".funding_rate"@);
            assert(star_free("public."@));
            assert(star_free(".funding_rate"@));
            lemma_glob_split("public.*.funding_rate"@, "public."@, sym, ".funding_rate"@);
            assert(es[14] == registry_head(ra)[14]);
            assert(es[14].0 == KindV::FundingRate && glob_match(es[14].2, t));
        },
        StreamKind::Liquidation => {
            reveal_strlit("public.*.liquidation_orders");
            reveal_strlit("public.");
            reveal_strlit(".liquidation_orders");
            assert("public.*.liquidation_orders"@ =~= "public."@ + seq!['*'] + ".liquidation_orders"@);
            assert(star_free("public."@));
            assert(star_free(".liquidation_orders"@));
            lemma_glob_split("public.*.liquidation_orders"@, "public."@, sym, ".liquidation_orders"@);
            assert(es[15] == registry_head(ra)[15]);
            assert(es[15].0 == KindV::Liquidation && glob_match(es[15].2, t));
        },
        StreamKind::Kline { interval } => {
            let iv = interval.value@;
            let k = lemma_kline_position(iv);
            let w = kline_wire_of(iv);
            reveal_strlit("market.*.kline.");
            reveal_strlit("market.");
            reveal_strlit(".kline.");
            assert(star_free("market."@));
            assert(star_free(".kline."@));
            crate::common::registry::lemma_star_free_concat(".kline."@, w);
            let pat = "market.*.kline."@ + w;
            assert(pat =~= "market."@ + seq!['*'] + (".kline."@ + w));
            lemma_glob_split(pat, "market."@, sym, ".kline."@ + w);
            assert(t =~= "market."@ + sym + (".kline."@ + w));
            assert(es[16 + k] == registry_klines(ra)[k]);
            assert(es[16 + k].0 == KindV::Kline(iv) && glob_match(es[16 + k].2, t));
        },
        _ => {},
    }
}

/// Heartbeats, acknowledgements and pongs never yield a routing key.
pub proof fn lemma_control_frames_have_no_topic(raw: JsonV)
    ensures
        spec_is_server_ping(raw) || spec_is_subscribe_ack(raw) || spec_is_pong(raw)
            ==> spec_topic(raw) is None,
{
}

/// Successive subscription ids differ: the counter strictly increases below `u64::MAX`.
pub proof fn lemma_counter_increases(c: u64)
    requires
        c < u64::MAX,
    ensures
        next_counter(c) > c,
{
}

/// Every HTX market or public topic names the stream's instrument: the
/// topic holds `.` + symbol + `.`, between its namespace and its channel.
pub proof fn lemma_topic_names_symbol(kind: StreamKind, at: AccountType, sym: Seq<char>)
    requires
        kind is Ticker || kind is Trade || kind is Orderbook || kind is OrderbookDelta || kind is Kline
            || kind is FundingRate || kind is Liquidation,
    ensures
        topic_of(kind, at, sym) is Ok,
        crate::common::text::text_contains(topic_of(kind, at, sym)->Ok_0, "."@ + sym + "."@),
{
    reveal_strlit("market.");
    reveal_strlit("public.");
    reveal_strlit(".");
    let t = topic_of(kind, at, sym)->Ok_0;
    let (ns, rest): (Seq<char>, Seq<char>) = match kind {
        StreamKind::Ticker => ("market"@, if is_futures(at) { "bbo"@ } else { "detail"@ }),
        StreamKind::Trade => ("market"@, "trade.detail"@),
        StreamKind::Orderbook => ("market"@, "depth.step0"@),
        StreamKind::OrderbookDelta => ("market"@, "mbp.150"@),
        StreamKind::Kline { interval } => ("market"@, "kline."@ + kline_wire_of(interval.value@)),
        StreamKind::FundingRate => ("public"@, "funding_rate"@),
        _ => ("public"@, "liquidation_orders"@),
    };
    reveal_strlit("market");
    reveal_strlit("public");
    reveal_strlit(".bbo");
    reveal_strlit("bbo");
    reveal_strlit(".detail");
    reveal_strlit("detail");
    reveal_strlit(".trade.detail");
    reveal_strlit("trade.detail");
    reveal_strlit(".depth.step0");
    reveal_strlit("depth.step0");
    reveal_strlit(".mbp.150");
    reveal_strlit("mbp.150");
    reveal_strlit(".kline.");
    reveal_strlit("kline.");
    reveal_strlit(".funding_rate");
    reveal_strlit("funding_rate");
    reveal_strlit(".liquidation_orders");
    reveal_strlit("liquidation_orders");
    assert(t =~= ns + ("."@ + sym + "."@) + rest);
    crate::common::text::lemma_contains_middle(ns, "."@ + sym + "."@, rest);
}

} // verus!
