//! Hyperliquid WebSocket protocol.
//!
//! Frames: `{"channel":"trades","data":[...]}`; the routing key is `channel`.
//! Subscribe: `{"method":"subscribe","subscription":{"type":"trades","coin":"BTC"}}`.
//! Ping: `{"method":"ping"}`, answered by `{"channel":"pong"}`.

use vstd::prelude::*;
use crate::common::types::{
    AccountType, KlineInterval, StreamKind, StreamSpec, Message, WebSocketError, TopicKey, KindV,
    kind_view, kind_label, symbol_text, Credentials,
};
use crate::common::text::{is_text2, is_text3, concat, str_eq};
use crate::common::json::{Json, JsonV, json_text, push_member, to_text, str_member, members_view};
use crate::common::registry::{
    TopicRegistry, EntryV, entries_view, routes_kind, glob_match, star_free, lemma_glob_self,
};

verus! {

/// Kline intervals the `candle` channel offers.
pub open spec fn kline_intervals() -> Seq<Seq<char>> {
    seq![
        seq!['1', 'm'],
        seq!['3', 'm'],
        seq!['5', 'm'],
        seq!['1', '5', 'm'],
        seq!['3', '0', 'm'],
        seq!['1', 'h'],
        seq!['2', 'h'],
        seq!['4', 'h'],
        seq!['8', 'h'],
        seq!['1', '2', 'h'],
        seq!['1', 'd'],
        seq!['3', 'd'],
        seq!['1', 'w'],
    ]
}

pub fn kline_interval_list() -> (v: Vec<&'static str>)
    ensures
        v@.len() == kline_intervals().len(),
        forall|i: int| 0 <= i < v@.len() ==> #[trigger] v@[i]@ == kline_intervals()[i],
{
    let v = vec!["1m", "3m", "5m", "15m", "30m", "1h", "2h", "4h", "8h", "12h", "1d", "3d", "1w"];
    proof {
        reveal_strlit("1m");
        assert("1m"@ =~= seq!['1', 'm']);
        reveal_strlit("3m");
        assert("3m"@ =~= seq!['3', 'm']);
        reveal_strlit("5m");
        assert("5m"@ =~= seq!['5', 'm']);
        reveal_strlit("15m");
        assert("15m"@ =~= seq!['1', '5', 'm']);
        reveal_strlit("30m");
        assert("30m"@ =~= seq!['3', '0', 'm']);
        reveal_strlit("1h");
        assert("1h"@ =~= seq!['1', 'h']);
        reveal_strlit("2h");
        assert("2h"@ =~= seq!['2', 'h']);
        reveal_strlit("4h");
        assert("4h"@ =~= seq!['4', 'h']);
        reveal_strlit("8h");
        assert("8h"@ =~= seq!['8', 'h']);
        reveal_strlit("12h");
        assert("12h"@ =~= seq!['1', '2', 'h']);
        reveal_strlit("1d");
        assert("1d"@ =~= seq!['1', 'd']);
        reveal_strlit("3d");
        assert("3d"@ =~= seq!['3', 'd']);
        reveal_strlit("1w");
        assert("1w"@ =~= seq!['1', 'w']);
    }
    v
}

/// The interval has a `candle` registration.
pub open spec fn known_interval(interval: Seq<char>) -> bool {
    is_text2(interval, '1', 'm')
        || is_text2(interval, '3', 'm')
        || is_text2(interval, '5', 'm')
        || is_text3(interval, '1', '5', 'm')
        || is_text3(interval, '3', '0', 'm')
        || is_text2(interval, '1', 'h')
        || is_text2(interval, '2', 'h')
        || is_text2(interval, '4', 'h')
        || is_text2(interval, '8', 'h')
        || is_text3(interval, '1', '2', 'h')
        || is_text2(interval, '1', 'd')
        || is_text2(interval, '3', 'd')
        || is_text2(interval, '1', 'w')
}

/// A known interval sits in the `candle` interval list; its position is returned.
pub proof fn lemma_interval_position(interval: Seq<char>) -> (k: int)
    requires
        known_interval(interval),
    ensures
        0 <= k < kline_intervals().len(),
        kline_intervals()[k] == interval,
{
    if is_text2(interval, '1', 'm') {
        assert(interval =~= seq!['1', 'm']);
        0
    } else if is_text2(interval, '3', 'm') {
        assert(interval =~= seq!['3', 'm']);
        1
    } else if is_text2(interval, '5', 'm') {
        assert(interval =~= seq!['5', 'm']);
        2
    } else if is_text3(interval, '1', '5', 'm') {
        assert(interval =~= seq!['1', '5', 'm']);
        3
    } else if is_text3(interval, '3', '0', 'm') {
        assert(interval =~= seq!['3', '0', 'm']);
        4
    } else if is_text2(interval, '1', 'h') {
        assert(interval =~= seq!['1', 'h']);
        5
    } else if is_text2(interval, '2', 'h') {
        assert(interval =~= seq!['2', 'h']);
        6
    } else if is_text2(interval, '4', 'h') {
        assert(interval =~= seq!['4', 'h']);
        7
    } else if is_text2(interval, '8', 'h') {
        assert(interval =~= seq!['8', 'h']);
        8
    } else if is_text3(interval, '1', '2', 'h') {
        assert(interval =~= seq!['1', '2', 'h']);
        9
    } else if is_text2(interval, '1', 'd') {
        assert(interval =~= seq!['1', 'd']);
        10
    } else if is_text2(interval, '3', 'd') {
        assert(interval =~= seq!['3', 'd']);
        11
    } else if is_text2(interval, '1', 'w') {
        assert(interval =~= seq!['1', 'w']);
        12
    } else {
        0
    }
}

// ─────────────────────────────────────────────────────────────────────────────
// Subscriptions
// ─────────────────────────────────────────────────────────────────────────────

/// `{"type": t, "coin": coin}`
pub open spec fn typed_coin(t: Seq<char>, coin: Seq<char>) -> JsonV {
    JsonV::Object(seq![("type"@, JsonV::Str(t)), ("coin"@, JsonV::Str(coin))])
}

/// `{"type": t, "user": user}`
pub open spec fn typed_user(t: Seq<char>, user: Seq<char>) -> JsonV {
    JsonV::Object(seq![("type"@, JsonV::Str(t)), ("user"@, JsonV::Str(user))])
}

/// The `subscription` object for a stream on `coin`; `None` when unsupported.
pub open spec fn subscription_of(kind: StreamKind, coin: Seq<char>) -> Option<JsonV> {
    match kind {
        StreamKind::Ticker => if coin.len() == 0 {
            Some(JsonV::Object(seq![("type"@, JsonV::Str("allMids"@)), ("dex"@, JsonV::Str(""@))]))
        } else {
            Some(typed_coin("activeAssetCtx"@, coin))
        },
        StreamKind::Trade => Some(typed_coin("trades"@, coin)),
        StreamKind::Orderbook | StreamKind::OrderbookDelta => Some(
            JsonV::Object(
                seq![
                    ("type"@, JsonV::Str("l2Book"@)),
                    ("coin"@, JsonV::Str(coin)),
                    ("nSigFigs"@, JsonV::Null),
                    ("mantissa"@, JsonV::Null),
                ],
            ),
        ),
        StreamKind::Kline { interval } => Some(
            JsonV::Object(
                seq![
                    ("type"@, JsonV::Str("candle"@)),
                    ("coin"@, JsonV::Str(coin)),
                    ("interval"@, JsonV::Str(interval.value@)),
                ],
            ),
        ),
        StreamKind::MarkPrice | StreamKind::FundingRate | StreamKind::OpenInterest
        | StreamKind::IndexPrice => Some(typed_coin("activeAssetCtx"@, coin)),
        StreamKind::Liquidation => Some(JsonV::Object(seq![("type"@, JsonV::Str("liquidations"@))])),
        StreamKind::BalanceUpdate | StreamKind::PositionUpdate => Some(typed_user("clearinghouseState"@, coin)),
        StreamKind::OrderUpdate => Some(typed_user("orderUpdates"@, coin)),
        _ => None,
    }
}

/// The channel data frames of a subscription arrive on: its `type`.
pub open spec fn channel_of(kind: StreamKind, coin: Seq<char>) -> Option<Seq<char>> {
    match subscription_of(kind, coin) {
        Some(JsonV::Object(ms)) => Some(ms[0].1->Str_0),
        _ => None,
    }
}

/// `{"method": method, "subscription": subscription}`
pub open spec fn frame_of(method: Seq<char>, subscription: JsonV) -> JsonV {
    JsonV::Object(seq![("method"@, JsonV::Str(method)), ("subscription"@, subscription)])
}

fn obj2(k1: &str, v1: Json, k2: &str, v2: Json) -> (r: Json)
    ensures
        r@ == JsonV::Object(seq![(k1@, v1@), (k2@, v2@)]),
{
    let mut m: Vec<(String, Json)> = Vec::new();
    push_member(&mut m, k1, v1);
    push_member(&mut m, k2, v2);
    assert(members_view(m@) =~= seq![(k1@, v1@), (k2@, v2@)]);
    Json::Object(m)
}

fn subscription_value(kind: &StreamKind, coin: &str) -> (r: Result<Json, WebSocketError>)
    ensures
        match r {
            Ok(j) => subscription_of(*kind, coin@) == Some(j@),
            Err(e) => subscription_of(*kind, coin@) is None && e is UnsupportedOperation
                && e->UnsupportedOperation_0@ == "hyperliquid: unsupported stream kind "@ + kind_label(
                kind_view(*kind),
            ),
        },
{
    match kind {
        StreamKind::Ticker => {
            if coin.unicode_len() == 0 {
                Ok(obj2("type", Json::string("allMids"), "dex", Json::string("")))
            } else {
                Ok(obj2("type", Json::string("activeAssetCtx"), "coin", Json::string(coin)))
            }
        },
        StreamKind::Trade => Ok(obj2("type", Json::string("trades"), "coin", Json::string(coin))),
        StreamKind::Orderbook | StreamKind::OrderbookDelta => {
            let mut m: Vec<(String, Json)> = Vec::new();
            push_member(&mut m, "type", Json::string("l2Book"));
            push_member(&mut m, "coin", Json::string(coin));
            push_member(&mut m, "nSigFigs", Json::Null);
            push_member(&mut m, "mantissa", Json::Null);
            assert(members_view(m@) =~= seq![
                ("type"@, JsonV::Str("l2Book"@)),
                ("coin"@, JsonV::Str(coin@)),
                ("nSigFigs"@, JsonV::Null),
                ("mantissa"@, JsonV::Null),
            ]);
            Ok(Json::Object(m))
        },
        StreamKind::Kline { interval } => {
            let mut m: Vec<(String, Json)> = Vec::new();
            push_member(&mut m, "type", Json::string("candle"));
            push_member(&mut m, "coin", Json::string(coin));
            push_member(&mut m, "interval", Json::string(interval.as_str()));
            assert(members_view(m@) =~= seq![
                ("type"@, JsonV::Str("candle"@)),
                ("coin"@, JsonV::Str(coin@)),
                ("interval"@, JsonV::Str(interval.value@)),
            ]);
            Ok(Json::Object(m))
        },
        StreamKind::MarkPrice | StreamKind::FundingRate | StreamKind::OpenInterest
        | StreamKind::IndexPrice => Ok(obj2("type", Json::string("activeAssetCtx"), "coin", Json::string(coin))),
        StreamKind::Liquidation => {
            let mut m: Vec<(String, Json)> = Vec::new();
            push_member(&mut m, "type", Json::string("liquidations"));
            assert(members_view(m@) =~= seq![("type"@, JsonV::Str("liquidations"@))]);
            Ok(Json::Object(m))
        },
        StreamKind::BalanceUpdate | StreamKind::PositionUpdate => Ok(
            obj2("type", Json::string("clearinghouseState"), "user", Json::string(coin)),
        ),
        StreamKind::OrderUpdate => Ok(obj2("type", Json::string("orderUpdates"), "user", Json::string(coin))),
        _ => Err(
            WebSocketError::UnsupportedOperation(
                concat("hyperliquid: unsupported stream kind ", kind.label()),
            ),
        ),
    }
}

/// Declarative Hyperliquid WS protocol state.
#[derive(Debug)]
pub struct HyperliquidProtocol {
    pub testnet: bool,
}

impl HyperliquidProtocol {
    pub fn new(testnet: bool) -> (r: Self)
        ensures
            r.testnet == testnet,
    {
        HyperliquidProtocol { testnet }
    }

    /// Build subscribe/unsubscribe JSON frame.
    fn build_frame(method: &str, spec: &StreamSpec) -> (r: Result<Message, WebSocketError>)
        ensures
            match r {
                Ok(m) => subscription_of(spec.kind, symbol_text(spec.symbol)) is Some && m
                    == Message::Text(m->Text_0) && m->Text_0@ == json_text(
                    frame_of(method@, subscription_of(spec.kind, symbol_text(spec.symbol))->0),
                ),
                Err(e) => subscription_of(spec.kind, symbol_text(spec.symbol)) is None
                    && e is UnsupportedOperation && e->UnsupportedOperation_0@
                    == "hyperliquid: unsupported stream kind "@ + kind_label(kind_view(spec.kind)),
            },
    {
        let coin = spec.symbol.as_str();
        let subscription = match subscription_value(&spec.kind, coin) {
            Ok(s) => s,
            Err(e) => return Err(e),
        };
        let frame = obj2("method", Json::string(method), "subscription", subscription);
        Ok(Message::Text(to_text(&frame)))
    }

    pub fn name(&self) -> (r: &'static str)
        ensures
            r@ == "hyperliquid"@,
    {
        "hyperliquid"
    }

    pub fn endpoint(&self, account_type: AccountType, testnet: bool) -> (r: &'static str)
        ensures
            r@ == (if testnet { "wss://api.hyperliquid-testnet.xyz/ws"@ } else { "wss://api.hyperliquid.xyz/ws"@ }),
    {
        if testnet {
            "wss://api.hyperliquid-testnet.xyz/ws"
        } else {
            "wss://api.hyperliquid.xyz/ws"
        }
    }

    /// `{"method":"ping"}`
    pub fn ping_frame(&self) -> (r: Option<Message>)
        ensures
            r matches Some(Message::Text(t)) && t@ == json_text(
                JsonV::Object(seq![("method"@, JsonV::Str("ping"@))]),
            ),
    {
        let mut m: Vec<(String, Json)> = Vec::new();
        push_member(&mut m, "method", Json::string("ping"));
        assert(members_view(m@) =~= seq![("method"@, JsonV::Str("ping"@))]);
        Some(Message::Text(to_text(&Json::Object(m))))
    }

    pub fn ping_interval(&self) -> (r: u64)
        ensures
            r == 30,
    {
        30
    }

    pub fn subscribe_frame(&self, spec: &StreamSpec) -> (r: Result<Message, WebSocketError>)
        ensures
            match r {
                Ok(m) => subscription_of(spec.kind, symbol_text(spec.symbol)) is Some && m
                    == Message::Text(m->Text_0) && m->Text_0@ == json_text(
                    frame_of("subscribe"@, subscription_of(spec.kind, symbol_text(spec.symbol))->0),
                ),
                Err(e) => subscription_of(spec.kind, symbol_text(spec.symbol)) is None
                    && e is UnsupportedOperation,
            },
    {
        Self::build_frame("subscribe", spec)
    }

    pub fn unsubscribe_frame(&self, spec: &StreamSpec) -> (r: Result<Message, WebSocketError>)
        ensures
            match r {
                Ok(m) => subscription_of(spec.kind, symbol_text(spec.symbol)) is Some && m
                    == Message::Text(m->Text_0) && m->Text_0@ == json_text(
                    frame_of("unsubscribe"@, subscription_of(spec.kind, symbol_text(spec.symbol))->0),
                ),
                Err(e) => subscription_of(spec.kind, symbol_text(spec.symbol)) is None
                    && e is UnsupportedOperation,
            },
    {
        Self::build_frame("unsubscribe", spec)
    }

    pub fn auth_frame(&self, credentials: &Credentials) -> (r: Option<Result<Message, WebSocketError>>)
        ensures
            r is None,
    {
        None
    }

    pub fn is_pong(&self, raw: &Json) -> (r: bool)
        ensures
            r == (str_member(raw@, "channel"@) == Some("pong"@)),
    {
        match raw.get_str("channel") {
            Some(c) => str_eq(c, "pong"),
            None => false,
        }
    }

    pub fn is_subscribe_ack(&self, raw: &Json) -> (r: bool)
        ensures
            r == (str_member(raw@, "channel"@) == Some("subscriptionResponse"@)),
    {
        match raw.get_str("channel") {
            Some(c) => str_eq(c, "subscriptionResponse"),
            None => false,
        }
    }

    /// Routing key: the `channel`, except for pongs and subscription responses.
    pub fn extract_topic(&self, raw: &Json) -> (r: Option<TopicKey>)
        ensures
            match r {
                Some(t) => spec_topic(raw@) == Some(t.key@),
                None => spec_topic(raw@) is None,
            },
    {
        let channel = match raw.get_str("channel") {
            Some(c) => c,
            None => return None,
        };
        if str_eq(channel, "pong") || str_eq(channel, "subscriptionResponse") {
            None
        } else {
            Some(TopicKey::new(channel))
        }
    }

    fn registry() -> (r: TopicRegistry)
        ensures
            r.view_entries() == registry_entries(),
    {
        build_registry()
    }

    /// The single registry (perpetuals only; no account-type split).
    pub fn topic_registry(&self, account_type: AccountType) -> (r: TopicRegistry)
        ensures
            r.view_entries() == registry_entries(),
    {
        Self::registry()
    }

    pub fn requires_auth_kinds(&self, account_type: AccountType) -> (r: Vec<StreamKind>)
        ensures
            r@.len() == 3,
            kind_view(r@[0]) == KindV::BalanceUpdate,
            kind_view(r@[1]) == KindV::PositionUpdate,
            kind_view(r@[2]) == KindV::OrderUpdate,
    {
        vec![StreamKind::BalanceUpdate, StreamKind::PositionUpdate, StreamKind::OrderUpdate]
    }
}

/// Routing key: the `channel`, unless it is "pong" or "subscriptionResponse".
pub open spec fn spec_topic(raw: JsonV) -> Option<Seq<char>> {
    match str_member(raw, "channel"@) {
        Some(c) => if c == "pong"@ || c == "subscriptionResponse"@ {
            None
        } else {
            Some(c)
        },
        None => None,
    }
}

// ─────────────────────────────────────────────────────────────────────────────
// Registry
// ─────────────────────────────────────────────────────────────────────────────

/// Registrations of the named channels (all under `FuturesCross`).
pub open spec fn registry_head() -> Seq<EntryV> {
    seq![
        (KindV::Ticker, AccountType::FuturesCross, "allMids"@),
        (KindV::Ticker, AccountType::FuturesCross, "activeAssetCtx"@),
        (KindV::Trade, AccountType::FuturesCross, "trades"@),
        (KindV::Orderbook, AccountType::FuturesCross, "l2Book"@),
        (KindV::OrderbookDelta, AccountType::FuturesCross, "l2Book"@),
        (KindV::FundingRate, AccountType::FuturesCross, "activeAssetCtx"@),
        (KindV::MarkPrice, AccountType::FuturesCross, "activeAssetCtx"@),
        (KindV::OpenInterest, AccountType::FuturesCross, "activeAssetCtx"@),
        (KindV::IndexPrice, AccountType::FuturesCross, "activeAssetCtx"@),
        (KindV::Liquidation, AccountType::FuturesCross, "liquidations"@),
        (KindV::MarketWarning, AccountType::FuturesCross, "notifications"@),
        (KindV::Orderbook, AccountType::FuturesCross, "bbo"@),
        (KindV::BalanceUpdate, AccountType::FuturesCross, "clearinghouseState"@),
        (KindV::PositionUpdate, AccountType::FuturesCross, "clearinghouseState"@),
        (KindV::BalanceUpdate, AccountType::FuturesCross, "userNonFundingLedgerUpdates"@),
        (KindV::OrderUpdate, AccountType::FuturesCross, "orderUpdates"@),
        (KindV::BalanceUpdate, AccountType::FuturesCross, "userFundings"@),
        (KindV::BalanceUpdate, AccountType::FuturesCross, "webData2"@),
    ]
}

/// The `candle` channel, once per interval.
pub open spec fn registry_klines() -> Seq<EntryV> {
    Seq::new(
        kline_intervals().len(),
        |i: int| (KindV::Kline(kline_intervals()[i]), AccountType::FuturesCross, "candle"@),
    )
}

pub open spec fn registry_entries() -> Seq<EntryV> {
    registry_head() + registry_klines()
}

pub fn build_registry() -> (r: TopicRegistry)
    ensures
        r.view_entries() == registry_entries(),
{
    let at = AccountType::FuturesCross;
    let mut b = TopicRegistry::builder();
    b = b.register(StreamKind::Ticker, at, "allMids");
    b = b.register(StreamKind::Ticker, at, "activeAssetCtx");
    b = b.register(StreamKind::Trade, at, "trades");
    b = b.register(StreamKind::Orderbook, at, "l2Book");
    b = b.register(StreamKind::OrderbookDelta, at, "l2Book");
    b = b.register(StreamKind::FundingRate, at, "activeAssetCtx");
    b = b.register(StreamKind::MarkPrice, at, "activeAssetCtx");
    b = b.register(StreamKind::OpenInterest, at, "activeAssetCtx");
    b = b.register(StreamKind::IndexPrice, at, "activeAssetCtx");
    b = b.register(StreamKind::Liquidation, at, "liquidations");
    b = b.register(StreamKind::MarketWarning, at, "notifications");
    b = b.register(StreamKind::Orderbook, at, "bbo");
    b = b.register(StreamKind::BalanceUpdate, at, "clearinghouseState");
    b = b.register(StreamKind::PositionUpdate, at, "clearinghouseState");
    b = b.register(StreamKind::BalanceUpdate, at, "userNonFundingLedgerUpdates");
    b = b.register(StreamKind::OrderUpdate, at, "orderUpdates");
    b = b.register(StreamKind::BalanceUpdate, at, "userFundings");
    b = b.register(StreamKind::BalanceUpdate, at, "webData2");
    assert(entries_view(b.entries@) =~= registry_head());
    let list = kline_interval_list();
    for i in 0..list.len()
        invariant
            list@.len() == kline_intervals().len(),
            forall|k: int| 0 <= k < list@.len() ==> #[trigger] list@[k]@ == kline_intervals()[k],
            entries_view(b.entries@) == registry_head() + registry_klines().take(i as int),
            at == AccountType::FuturesCross,
    {
        let kind = StreamKind::Kline { interval: KlineInterval::new(list[i]) };
        b = b.register(kind, at, "candle");
        assert(registry_klines().take(i + 1) =~= registry_klines().take(i as int).push(registry_klines()[i as int]));
        assert(entries_view(b.entries@) =~= registry_head() + registry_klines().take(i + 1));
    }
    assert(registry_klines().take(list.len() as int) =~= registry_klines());
    b.build()
}


// ─────────────────────────────────────────────────────────────────────────────
// Laws
// ─────────────────────────────────────────────────────────────────────────────

/// What a subscription asks for is what the registry routes back: the
/// channel named by a subscription's `type` is registered for that same kind
/// (klines need an interval the `candle` channel offers).
pub proof fn lemma_channel_routed(kind: StreamKind, coin: Seq<char>)
    requires
        subscription_of(kind, coin) is Some,
        kind matches StreamKind::Kline { interval } ==> known_interval(interval.value@),
    ensures
        channel_of(kind, coin) is Some,
        routes_kind(registry_entries(), kind_view(kind), channel_of(kind, coin)->0),
{
    let ch = channel_of(kind, coin)->0;
    let es = registry_entries();
    assert(registry_head().len() == 18);
    match kind {
        StreamKind::Ticker => {
            if coin.len() == 0 {
            reveal_strlit("allMids");
            assert(star_free("allMids"@));
            lemma_glob_self("allMids"@);
            assert(ch == "allMids"@);
            assert(es[0] == registry_head()[0]);
            assert(es[0].0 == KindV::Ticker && glob_match(es[0].2, ch));
            } else {
            reveal_strlit("activeAssetCtx");
            assert(star_free("activeAssetCtx"@));
            lemma_glob_self("activeAssetCtx"@);
            assert(ch == "activeAssetCtx"@);
            assert(es[1] == registry_head()[1]);
            assert(es[1].0 == KindV::Ticker && glob_match(es[1].2, ch));
            }
        },
        StreamKind::Trade => {
            reveal_strlit("trades");
            assert(star_free("trades"@));
            lemma_glob_self("trades"@);
            assert(ch == "trades"@);
            assert(es[2] == registry_head()[2]);
            assert(es[2].0 == KindV::Trade && glob_match(es[2].2, ch));
        },
        StreamKind::Orderbook => {
            reveal_strlit("l2Book");
            assert(star_free("l2Book"@));
            lemma_glob_self("l2Book"@);
            assert(ch == "l2Book"@);
            assert(es[3] == registry_head()[3]);
            assert(es[3].0 == KindV::Orderbook && glob_match(es[3].2, ch));
        },
        StreamKind::OrderbookDelta => {
            reveal_strlit("l2Book");
            assert(star_free("l2Book"@));
            lemma_glob_self("l2Book"@);
            assert(ch == "l2Book"@);
            assert(es[4] == registry_head()[4]);
            assert(es[4].0 == KindV::OrderbookDelta && glob_match(es[4].2, ch));
        },
        StreamKind::FundingRate => {
            reveal_strlit("activeAssetCtx");
            assert(star_free("activeAssetCtx"@));
            lemma_glob_self("activeAssetCtx"@);
            assert(ch == "activeAssetCtx"@);
            assert(es[5] == registry_head()[5]);
            assert(es[5].0 == KindV::FundingRate && glob_match(es[5].2, ch));
        },
        StreamKind::MarkPrice => {
            reveal_strlit("activeAssetCtx");
            assert(star_free("activeAssetCtx"@));
            lemma_glob_self("activeAssetCtx"@);
            assert(ch == "activeAssetCtx"@);
            assert(es[6] == registry_head()[6]);
            assert(es[6].0 == KindV::MarkPrice && glob_match(es[6].2, ch));
        },
        StreamKind::OpenInterest => {
            reveal_strlit("activeAssetCtx");
            assert(star_free("activeAssetCtx"@));
            lemma_glob_self("activeAssetCtx"@);
            assert(ch == "activeAssetCtx"@);
            assert(es[7] == registry_head()[7]);
            assert(es[7].0 == KindV::OpenInterest && glob_match(es[7].2, ch));
        },
        StreamKind::IndexPrice => {
            reveal_strlit("activeAssetCtx");
            assert(star_free("activeAssetCtx"@));
            lemma_glob_self("activeAssetCtx"@);
            assert(ch == "activeAssetCtx"@);
            assert(es[8] == registry_head()[8]);
            assert(es[8].0 == KindV::IndexPrice && glob_match(es[8].2, ch));
        },
        StreamKind::Liquidation => {
            reveal_strlit("liquidations");
            assert(star_free("liquidations"@));
            lemma_glob_self("liquidations"@);
            assert(ch == "liquidations"@);
            assert(es[9] == registry_head()[9]);
            assert(es[9].0 == KindV::Liquidation && glob_match(es[9].2, ch));
        },
        StreamKind::BalanceUpdate => {
            reveal_strlit("clearinghouseState");
            assert(star_free("clearinghouseState"@));
            lemma_glob_self("clearinghouseState"@);
            assert(ch == "clearinghouseState"@);
            assert(es[12] == registry_head()[12]);
            assert(es[12].0 == KindV::BalanceUpdate && glob_match(es[12].2, ch));
        },
        StreamKind::PositionUpdate => {
            reveal_strlit("clearinghouseState");
            assert(star_free("clearinghouseState"@));
            lemma_glob_self("clearinghouseState"@);
            assert(ch == "clearinghouseState"@);
            assert(es[13] == registry_head()[13]);
            assert(es[13].0 == KindV::PositionUpdate && glob_match(es[13].2, ch));
        },
        StreamKind::OrderUpdate => {
            reveal_strlit("orderUpdates");
            assert(star_free("orderUpdates"@));
            lemma_glob_self("orderUpdates"@);
            assert(ch == "orderUpdates"@);
            assert(es[15] == registry_head()[15]);
            assert(es[15].0 == KindV::OrderUpdate && glob_match(es[15].2, ch));
        },
        StreamKind::Kline { interval } => {
            let k = lemma_interval_position(interval.value@);
            reveal_strlit("candle");
            assert(star_free("candle"@));
            lemma_glob_self("candle"@);
            assert(ch == "candle"@);
            assert(es[18 + k] == registry_klines()[k]);
            assert(es[18 + k].0 == kind_view(kind) && glob_match(es[18 + k].2, ch));
        },
        _ => {},
    }
}

/// Pongs and subscription responses never yield a routing key.
pub proof fn lemma_control_frames_have_no_topic(raw: JsonV)
    ensures
        str_member(raw, "channel"@) == Some("pong"@) || str_member(raw, "channel"@) == Some(
            "subscriptionResponse"@,
        ) ==> spec_topic(raw) is None,
{
}

/// Every Hyperliquid market subscription names its coin (`coin`), and every
/// account subscription its user (`user`).
pub proof fn lemma_subscription_names_coin(kind: StreamKind, coin: Seq<char>)
    requires
        kind is Trade || kind is Orderbook || kind is OrderbookDelta || kind is Kline || kind is MarkPrice
            || kind is FundingRate || kind is OpenInterest || kind is IndexPrice || (kind is Ticker && coin.len()
            > 0) || kind is BalanceUpdate || kind is PositionUpdate || kind is OrderUpdate,
    ensures
        subscription_of(kind, coin) is Some,
        crate::common::json::member(
            subscription_of(kind, coin)->Some_0,
            if kind is BalanceUpdate || kind is PositionUpdate || kind is OrderUpdate { "user"@ } else { "coin"@ },
        ) == Some(JsonV::Str(coin)),
{
    reveal_strlit("type");
    reveal_strlit("coin");
    reveal_strlit("user");
    assert("type"@.len() == 4 && "coin"@.len() == 4 && "user"@.len() == 4);
    assert("type"@[0] != "coin"@[0] && "type"@[0] != "user"@[0]);
    reveal_with_fuel(crate::common::json::member_from, 3);
}

} // verus!
