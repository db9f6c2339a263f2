//! Gate.io WebSocket protocol: per-product-line endpoints and channel
//! prefixes (`spot.*`, `futures.*`, `delivery.*`, `options.*`), frames and
//! frame classes.  Symbols are `BASE_QUOTE` (e.g. `BTC_USDT`).

use vstd::prelude::*;
use crate::common::types::{
    AccountType, KlineInterval, StreamKind, StreamSpec, Message, Credentials, WebSocketError, TopicKey, KindV, kind_view,
    kind_label, symbol_base, symbol_quote,
};
use crate::common::text::{
    str_upper, to_upper, concat, concat3, decimal_text, signed_decimal_text, u64_text, texts,
    has_suffix, ends_with_text, str_eq,
};
use crate::common::json::{
    Json, JsonV, json_text, str_items, items_view, push_item, push_member, to_text, member,
    str_member, members_view,
};
use crate::common::registry::{
    TopicRegistry, EntryV, entries_view, routes_kind, glob_match, star_free, lemma_glob_self,
    lemma_star_free_concat,
};
use crate::common::clock::now_unix_seconds;

verus! {

/// Gate.io product line; determines the endpoint URL and the channel prefix.
#[derive(Debug, Clone, Copy, PartialEq, Eq, Structural)]
pub enum GateIoCategory {
    Spot,
    FuturesUsdt,
    FuturesBtc,
    DeliveryUsdt,
    Options,
}

pub open spec fn prefix_of(c: GateIoCategory) -> Seq<char> {
    match c {
        GateIoCategory::Spot => "spot"@,
        GateIoCategory::FuturesUsdt | GateIoCategory::FuturesBtc => "futures"@,
        GateIoCategory::DeliveryUsdt => "delivery"@,
        GateIoCategory::Options => "options"@,
    }
}

pub open spec fn ping_channel_of(c: GateIoCategory) -> Seq<char> {
    match c {
        GateIoCategory::Spot => "spot.ping"@,
        GateIoCategory::FuturesUsdt | GateIoCategory::FuturesBtc => "futures.ping"@,
        GateIoCategory::DeliveryUsdt => "delivery.ping"@,
        GateIoCategory::Options => "options.ping"@,
    }
}

pub open spec fn category_of(account_type: AccountType) -> GateIoCategory {
    match account_type {
        AccountType::Spot | AccountType::Margin => GateIoCategory::Spot,
        AccountType::FuturesCross | AccountType::FuturesIsolated => GateIoCategory::FuturesUsdt,
        AccountType::Options => GateIoCategory::Options,
    }
}

pub open spec fn ws_url_of(c: GateIoCategory, testnet: bool) -> Seq<char> {
    if testnet {
        match c {
            GateIoCategory::Spot => "wss://api-testnet.gateapi.io/ws/v4/"@,
            GateIoCategory::FuturesUsdt | GateIoCategory::FuturesBtc => "wss://fx-ws-testnet.gateio.ws/v4/ws/usdt"@,
            GateIoCategory::DeliveryUsdt => "wss://fx-ws-testnet.gateio.ws/v4/ws/delivery/usdt"@,
            GateIoCategory::Options => "wss://op-ws-testnet.gateio.live/v4/ws"@,
        }
    } else {
        match c {
            GateIoCategory::Spot => "wss://api.gateio.ws/ws/v4/"@,
            GateIoCategory::FuturesUsdt => "wss://fx-ws.gateio.ws/v4/ws/usdt"@,
            GateIoCategory::FuturesBtc => "wss://fx-ws.gateio.ws/v4/ws/btc"@,
            GateIoCategory::DeliveryUsdt => "wss://fx-ws.gateio.ws/v4/ws/delivery/usdt"@,
            GateIoCategory::Options => "wss://op-ws.gateio.live/v4/ws"@,
        }
    }
}

impl GateIoCategory {
    /// Channel prefix for this category (e.g. "spot" → "spot.trades").
    pub fn channel_prefix(self) -> (r: &'static str)
        ensures
            r@ == prefix_of(self),
    {
        match self {
            GateIoCategory::Spot => "spot",
            GateIoCategory::FuturesUsdt | GateIoCategory::FuturesBtc => "futures",
            GateIoCategory::DeliveryUsdt => "delivery",
            GateIoCategory::Options => "options",
        }
    }

    /// WS ping channel for this category.
    pub fn ping_channel(self) -> (r: &'static str)
        ensures
            r@ == ping_channel_of(self),
    {
        match self {
            GateIoCategory::Spot => "spot.ping",
            GateIoCategory::FuturesUsdt | GateIoCategory::FuturesBtc => "futures.ping",
            GateIoCategory::DeliveryUsdt => "delivery.ping",
            GateIoCategory::Options => "options.ping",
        }
    }

    /// Map AccountType → GateIoCategory.
    pub fn from_account_type(account_type: AccountType) -> (r: Self)
        ensures
            r == category_of(account_type),
    {
        match account_type {
            AccountType::Spot | AccountType::Margin => GateIoCategory::Spot,
            AccountType::FuturesCross | AccountType::FuturesIsolated => GateIoCategory::FuturesUsdt,
            AccountType::Options => GateIoCategory::Options,
        }
    }

    /// WS endpoint URL (mainnet or testnet).
    pub fn ws_url(self, testnet: bool) -> (r: &'static str)
        ensures
            r@ == ws_url_of(self, testnet),
    {
        if testnet {
            return match self {
                GateIoCategory::Spot => "wss://api-testnet.gateapi.io/ws/v4/",
                GateIoCategory::FuturesUsdt | GateIoCategory::FuturesBtc => {
                    "wss://fx-ws-testnet.gateio.ws/v4/ws/usdt"
                },
                GateIoCategory::DeliveryUsdt => "wss://fx-ws-testnet.gateio.ws/v4/ws/delivery/usdt",
                GateIoCategory::Options => "wss://op-ws-testnet.gateio.live/v4/ws",
            };
        }
        match self {
            GateIoCategory::Spot => "wss://api.gateio.ws/ws/v4/",
            GateIoCategory::FuturesUsdt => "wss://fx-ws.gateio.ws/v4/ws/usdt",
            GateIoCategory::FuturesBtc => "wss://fx-ws.gateio.ws/v4/ws/btc",
            GateIoCategory::DeliveryUsdt => "wss://fx-ws.gateio.ws/v4/ws/delivery/usdt",
            GateIoCategory::Options => "wss://op-ws.gateio.live/v4/ws",
        }
    }
}

// ─────────────────────────────────────────────────────────────────────────────
// Symbols, channels and payloads
// ─────────────────────────────────────────────────────────────────────────────

/// `BASE_QUOTE` from the upper-cased base and quote.
pub open spec fn gate_symbol(base: Seq<char>, quote: Seq<char>) -> Seq<char> {
    str_upper(base) + "_"@ + str_upper(quote)
}

/// Format a Gate.io symbol from base+quote: BTC_USDT.
pub fn format_gateio_symbol(base: &str, quote: &str) -> (r: String)
    ensures
        r@ == gate_symbol(base@, quote@),
{
    let b = to_upper(base);
    let q = to_upper(quote);
    concat3(b.as_str(), "_", q.as_str())
}

/// Order-book depth payload item: the requested depth, 20 by default.
pub open spec fn depth_text(depth: Option<u32>) -> Seq<char> {
    match depth {
        Some(d) => decimal_text(d as nat),
        None => decimal_text(20),
    }
}

/// Order-book speed payload item: `<ms>ms`, "1000ms" by default.
pub open spec fn speed_text(speed_ms: Option<u32>) -> Seq<char> {
    match speed_ms {
        Some(ms) => decimal_text(ms as nat) + "ms"@,
        None => "1000ms"@,
    }
}

/// Channel suffix and payload for a kind, given the formatted symbol.
pub open spec fn suffix_and_payload(
    kind: StreamKind,
    sym: Seq<char>,
    depth: Option<u32>,
    speed_ms: Option<u32>,
) -> Option<(Seq<char>, Seq<Seq<char>>)> {
    match kind {
        StreamKind::Ticker => Some(("tickers"@, seq![sym])),
        StreamKind::Trade => Some(("trades"@, seq![sym])),
        StreamKind::Orderbook => Some(("order_book"@, seq![sym, depth_text(depth), speed_text(speed_ms)])),
        StreamKind::OrderbookDelta => Some(
            ("order_book_update"@, seq![sym, depth_text(depth), speed_text(speed_ms)]),
        ),
        StreamKind::Kline { interval } => Some(("candlesticks"@, seq![interval.value@, sym])),
        StreamKind::MarkPriceKline { interval } => Some(
            ("candlesticks"@, seq![interval.value@, "mark_"@ + sym]),
        ),
        StreamKind::MarkPrice => Some(("tickers"@, seq![sym])),
        StreamKind::FundingRate => Some(("tickers"@, seq![sym])),
        StreamKind::Liquidation => Some(("liquidates"@, seq![sym])),
        StreamKind::OrderUpdate => Some(("orders"@, seq![sym])),
        StreamKind::BalanceUpdate => Some(("balances"@, Seq::empty())),
        StreamKind::PositionUpdate => Some(("positions"@, seq![sym])),
        StreamKind::OpenInterest => Some(("contract_stats"@, seq![sym])),
        _ => None,
    }
}

/// `(prefix.suffix, payload)` for a kind; `None` for kinds Gate.io has no channel for.
pub open spec fn channel_payload(
    prefix: Seq<char>,
    kind: StreamKind,
    sym: Seq<char>,
    depth: Option<u32>,
    speed_ms: Option<u32>,
) -> Option<(Seq<char>, Seq<Seq<char>>)> {
    match suffix_and_payload(kind, sym, depth, speed_ms) {
        Some(sp) => Some((prefix + "."@ + sp.0, sp.1)),
        None => None,
    }
}

/// Just the channel of `channel_payload`.
pub open spec fn channel_of(
    prefix: Seq<char>,
    kind: StreamKind,
    sym: Seq<char>,
    depth: Option<u32>,
    speed_ms: Option<u32>,
) -> Option<Seq<char>> {
    match channel_payload(prefix, kind, sym, depth, speed_ms) {
        Some(cp) => Some(cp.0),
        None => None,
    }
}

fn one(s: String) -> (r: Vec<String>)
    ensures
        texts(r@) == seq![s@],
{
    let mut v = Vec::new();
    v.push(s);
    assert(texts(v@) =~= seq![s@]);
    v
}

fn two(a: String, b: String) -> (r: Vec<String>)
    ensures
        texts(r@) == seq![a@, b@],
{
    let mut v = Vec::new();
    v.push(a);
    v.push(b);
    assert(texts(v@) =~= seq![a@, b@]);
    v
}

fn three(a: String, b: String, c: String) -> (r: Vec<String>)
    ensures
        texts(r@) == seq![a@, b@, c@],
{
    let mut v = Vec::new();
    v.push(a);
    v.push(b);
    v.push(c);
    assert(texts(v@) =~= seq![a@, b@, c@]);
    v
}

fn depth_item(depth: Option<u32>) -> (r: String)
    ensures
        r@ == depth_text(depth),
{
    match depth {
        Some(d) => u64_text(d as u64),
        None => u64_text(20),
    }
}

fn speed_item(speed_ms: Option<u32>) -> (r: String)
    ensures
        r@ == speed_text(speed_ms),
{
    match speed_ms {
        Some(ms) => {
            let t = u64_text(ms as u64);
            concat(t.as_str(), "ms")
        },
        None => "1000ms".to_owned(),
    }
}

/// Map a kind → (channel, payload) given the channel prefix and formatted symbol.
pub fn channel_and_payload_for(
    prefix: &str,
    kind: &StreamKind,
    sym: &str,
    depth: Option<u32>,
    speed_ms: Option<u32>,
) -> (r: Result<(String, Vec<String>), WebSocketError>)
    ensures
        match r {
            Ok(cp) => channel_payload(prefix@, *kind, sym@, depth, speed_ms) == Some(
                (cp.0@, texts(cp.1@)),
            ),
            Err(e) => channel_payload(prefix@, *kind, sym@, depth, speed_ms) is None
                && e is UnsupportedOperation && e->UnsupportedOperation_0@
                == "gateio: unsupported stream kind "@ + kind_label(kind_view(*kind)),
        },
{
    let (suffix, payload): (&str, Vec<String>) = match kind {
        StreamKind::Ticker => ("tickers", one(sym.to_owned())),
        StreamKind::Trade => ("trades", one(sym.to_owned())),
        StreamKind::Orderbook => ("order_book", three(sym.to_owned(), depth_item(depth), speed_item(speed_ms))),
        StreamKind::OrderbookDelta => (
            "order_book_update",
            three(sym.to_owned(), depth_item(depth), speed_item(speed_ms)),
        ),
        StreamKind::Kline { interval } => ("candlesticks", two(interval.as_str().to_owned(), sym.to_owned())),
        StreamKind::MarkPriceKline { interval } => (
            "candlesticks",
            two(interval.as_str().to_owned(), concat("mark_", sym)),
        ),
        StreamKind::MarkPrice => ("tickers", one(sym.to_owned())),
        StreamKind::FundingRate => ("tickers", one(sym.to_owned())),
        StreamKind::Liquidation => ("liquidates", one(sym.to_owned())),
        StreamKind::OrderUpdate => ("orders", one(sym.to_owned())),
        StreamKind::BalanceUpdate => {
            let v: Vec<String> = Vec::new();
            assert(texts(v@) =~= Seq::<Seq<char>>::empty());
            ("balances", v)
        },
        StreamKind::PositionUpdate => ("positions", one(sym.to_owned())),
        StreamKind::OpenInterest => ("contract_stats", one(sym.to_owned())),
        _ => {
            return Err(
                WebSocketError::UnsupportedOperation(
                    concat("gateio: unsupported stream kind ", kind.label()),
                ),
            );
        },
    };
    Ok((concat3(prefix, ".", suffix), payload))
}

/// `BASE_QUOTE` for the instrument a stream is about.
pub open spec fn spec_symbol(spec: StreamSpec) -> Seq<char> {
    gate_symbol(symbol_base(spec.symbol), symbol_quote(spec.symbol))
}

/// Map StreamSpec → (channel, payload) for Gate.io.
pub fn channel_and_payload(prefix: &str, spec: &StreamSpec) -> (r: Result<(String, Vec<String>), WebSocketError>)
    ensures
        match r {
            Ok(cp) => channel_payload(prefix@, spec.kind, spec_symbol(*spec), spec.depth, spec.speed_ms)
                == Some((cp.0@, texts(cp.1@))),
            Err(e) => channel_payload(prefix@, spec.kind, spec_symbol(*spec), spec.depth, spec.speed_ms) is None
                && e is UnsupportedOperation && e->UnsupportedOperation_0@
                == "gateio: unsupported stream kind "@ + kind_label(kind_view(spec.kind)),
        },
{
    let sym = format_gateio_symbol(spec.symbol.base(), spec.symbol.quote());
    channel_and_payload_for(prefix, &spec.kind, sym.as_str(), spec.depth, spec.speed_ms)
}


// ─────────────────────────────────────────────────────────────────────────────
// Frames
// ─────────────────────────────────────────────────────────────────────────────

/// `{"time":ts,"channel":channel,"event":event[,"payload":[...]]}` — the
/// payload member is left out when the payload is empty.
pub open spec fn gate_frame(ts: i64, channel: Seq<char>, event: Seq<char>, payload: Seq<Seq<char>>) -> JsonV {
    let head = seq![
        ("time"@, JsonV::Number(signed_decimal_text(ts as int))),
        ("channel"@, JsonV::Str(channel)),
        ("event"@, JsonV::Str(event)),
    ];
    if payload.len() == 0 {
        JsonV::Object(head)
    } else {
        JsonV::Object(head.push(("payload"@, JsonV::Array(str_items(payload)))))
    }
}

/// `{"time":ts,"channel":ping_channel}`
pub open spec fn gate_ping_frame(ts: i64, channel: Seq<char>) -> JsonV {
    JsonV::Object(
        seq![("time"@, JsonV::Number(signed_decimal_text(ts as int))), ("channel"@, JsonV::Str(channel))],
    )
}

pub open spec fn event_name(subscribe: bool) -> Seq<char> {
    if subscribe { "subscribe"@ } else { "unsubscribe"@ }
}

/// The frame for a subscription at time `ts` (seconds), when Gate.io has a channel for it.
pub open spec fn spec_frame(subscribe: bool, spec: StreamSpec, ts: i64) -> Option<JsonV> {
    match channel_payload(
        prefix_of(category_of(spec.account_type)),
        spec.kind,
        spec_symbol(spec),
        spec.depth,
        spec.speed_ms,
    ) {
        Some(cp) => Some(gate_frame(ts, cp.0, event_name(subscribe), cp.1)),
        None => None,
    }
}

/// Text of the frame `gate_frame(ts, channel, event, payload)`.
pub fn gate_frame_text(ts: i64, channel: &str, event: &str, payload: &Vec<String>) -> (r: String)
    ensures
        r@ == json_text(gate_frame(ts, channel@, event@, texts(payload@))),
{
    let mut members: Vec<(String, Json)> = Vec::new();
    push_member(&mut members, "time", Json::from_i64(ts));
    push_member(&mut members, "channel", Json::string(channel));
    push_member(&mut members, "event", Json::string(event));
    let ghost head = seq![
        ("time"@, JsonV::Number(signed_decimal_text(ts as int))),
        ("channel"@, JsonV::Str(channel@)),
        ("event"@, JsonV::Str(event@)),
    ];
    assert(members_view(members@) =~= head);
    if payload.len() > 0 {
        let mut items: Vec<Json> = Vec::new();
        for i in 0..payload.len()
            invariant
                items_view(items@) == str_items(texts(payload@).take(i as int)),
        {
            push_item(&mut items, Json::string(payload[i].as_str()));
            assert(str_items(texts(payload@).take(i + 1)) =~= str_items(texts(payload@).take(i as int)).push(
                JsonV::Str(payload@[i as int]@),
            ));
        }
        assert(texts(payload@).take(payload.len() as int) =~= texts(payload@));
        push_member(&mut members, "payload", Json::Array(items));
    }
    let frame = Json::Object(members);
    assert(frame@ == gate_frame(ts, channel@, event@, texts(payload@)));
    to_text(&frame)
}

/// Declarative Gate.io WS protocol state.
#[derive(Debug)]
pub struct GateIoProtocol {
    pub account_type: AccountType,
}

impl GateIoProtocol {
    pub fn new(account_type: AccountType, testnet: bool) -> (r: Self)
        ensures
            r.account_type == account_type,
    {
        GateIoProtocol { account_type }
    }

    fn category(&self) -> (r: GateIoCategory)
        ensures
            r == category_of(self.account_type),
    {
        GateIoCategory::from_account_type(self.account_type)
    }

    /// Build the subscribe / unsubscribe frame with the given timestamp (seconds).
    pub fn build_frame_at(subscribe: bool, spec: &StreamSpec, ts: i64) -> (r: Result<Message, WebSocketError>)
        ensures
            match r {
                Ok(m) => spec_frame(subscribe, *spec, ts) is Some && m == Message::Text(m->Text_0)
                    && m->Text_0@ == json_text(spec_frame(subscribe, *spec, ts)->0),
                Err(e) => spec_frame(subscribe, *spec, ts) is None && e is UnsupportedOperation
                    && e->UnsupportedOperation_0@ == "gateio: unsupported stream kind "@ + kind_label(
                    kind_view(spec.kind),
                ),
            },
    {
        let category = GateIoCategory::from_account_type(spec.account_type);
        let prefix = category.channel_prefix();
        let (channel, payload) = match channel_and_payload(prefix, spec) {
            Ok(cp) => cp,
            Err(e) => return Err(e),
        };
        let event = if subscribe { "subscribe" } else { "unsubscribe" };
        Ok(Message::Text(gate_frame_text(ts, channel.as_str(), event, &payload)))
    }

    /// Build the subscribe / unsubscribe frame stamped with the current time.
    fn build_frame(subscribe: bool, spec: &StreamSpec) -> (r: Result<Message, WebSocketError>)
        ensures
            match r {
                Ok(m) => exists|ts: i64|
                    spec_frame(subscribe, *spec, ts) is Some && m == Message::Text(m->Text_0)
                        && m->Text_0@ == json_text(spec_frame(subscribe, *spec, ts)->0),
                Err(e) => forall|ts: i64| spec_frame(subscribe, *spec, ts) is None,
            },
    {
        let ts = now_unix_seconds();
        Self::build_frame_at(subscribe, spec, ts)
    }

    pub fn name(&self) -> (r: &'static str)
        ensures
            r@ == "gateio"@,
    {
        "gateio"
    }

    /// Endpoint URL of the account type's product line.
    pub fn endpoint(&self, account_type: AccountType, testnet: bool) -> (r: &'static str)
        ensures
            r@ == ws_url_of(category_of(account_type), testnet),
    {
        GateIoCategory::from_account_type(account_type).ws_url(testnet)
    }

    /// The ping frame at time `ts` (seconds).
    pub fn ping_frame_at(&self, ts: i64) -> (r: Option<Message>)
        ensures
            r matches Some(Message::Text(t)) && t@ == json_text(
                gate_ping_frame(ts, ping_channel_of(category_of(self.account_type))),
            ),
    {
        let ping_channel = self.category().ping_channel();
        let mut members: Vec<(String, Json)> = Vec::new();
        push_member(&mut members, "time", Json::from_i64(ts));
        push_member(&mut members, "channel", Json::string(ping_channel));
        let frame = Json::Object(members);
        assert(members_view(members@) =~= seq![
            ("time"@, JsonV::Number(signed_decimal_text(ts as int))),
            ("channel"@, JsonV::Str(ping_channel@)),
        ]);
        Some(Message::Text(to_text(&frame)))
    }

    /// The ping frame stamped with the current time.
    pub fn ping_frame(&self) -> (r: Option<Message>)
        ensures
            r matches Some(Message::Text(t)) && exists|ts: i64|
                t@ == json_text(gate_ping_frame(ts, ping_channel_of(category_of(self.account_type)))),
    {
        let ts = now_unix_seconds();
        self.ping_frame_at(ts)
    }

    /// Seconds between client pings.
    pub fn ping_interval(&self) -> (r: u64)
        ensures
            r == 20,
    {
        20
    }

    pub fn subscribe_frame(&self, spec: &StreamSpec) -> (r: Result<Message, WebSocketError>)
        ensures
            match r {
                Ok(m) => exists|ts: i64|
                    spec_frame(true, *spec, ts) is Some && m == Message::Text(m->Text_0)
                        && m->Text_0@ == json_text(spec_frame(true, *spec, ts)->0),
                Err(e) => forall|ts: i64| spec_frame(true, *spec, ts) is None,
            },
    {
        Self::build_frame(true, spec)
    }

    pub fn unsubscribe_frame(&self, spec: &StreamSpec) -> (r: Result<Message, WebSocketError>)
        ensures
            match r {
                Ok(m) => exists|ts: i64|
                    spec_frame(false, *spec, ts) is Some && m == Message::Text(m->Text_0)
                        && m->Text_0@ == json_text(spec_frame(false, *spec, ts)->0),
                Err(e) => forall|ts: i64| spec_frame(false, *spec, ts) is None,
            },
    {
        Self::build_frame(false, spec)
    }

    /// Public WS only: Gate.io private channels carry auth in each request.
    pub fn auth_frame(&self, credentials: &Credentials) -> (r: Option<Result<Message, WebSocketError>>)
        ensures
            r is None,
    {
        None
    }

    pub fn is_auth_ack(&self, raw: &Json) -> (r: bool)
        ensures
            !r,
    {
        false
    }

    pub fn is_pong(&self, raw: &Json) -> (r: bool)
        ensures
            r == spec_is_pong(raw@),
    {
        match raw.get_str("channel") {
            Some(c) => ends_with_text(c, ".pong"),
            None => false,
        }
    }

    pub fn is_subscribe_ack(&self, raw: &Json) -> (r: bool)
        ensures
            r == spec_is_subscribe_ack(raw@),
    {
        match raw.get_str("event") {
            Some(e) => str_eq(e, "subscribe") || str_eq(e, "unsubscribe"),
            None => false,
        }
    }

    /// Routing key of an `"update"` data frame; `None` for pongs and acks.
    pub fn extract_topic(&self, raw: &Json) -> (r: Option<TopicKey>)
        ensures
            match r {
                Some(t) => spec_topic(raw@) == Some(t.key@),
                None => spec_topic(raw@) is None,
            },
    {
        if self.is_pong(raw) {
            return None;
        }
        if self.is_subscribe_ack(raw) {
            return None;
        }
        let channel = match raw.get_str("channel") {
            Some(c) => c,
            None => return None,
        };
        match raw.get_str("event") {
            Some(e) => {
                if str_eq(e, "update") {
                    Some(TopicKey::new(channel))
                } else {
                    None
                }
            },
            None => None,
        }
    }

    fn spot_registry() -> (r: TopicRegistry)
        ensures
            r.view_entries() == registry_entries(GateIoCategory::Spot),
    {
        build_registry(GateIoCategory::Spot)
    }

    fn futures_registry() -> (r: TopicRegistry)
        ensures
            r.view_entries() == registry_entries(GateIoCategory::FuturesUsdt),
    {
        build_registry(GateIoCategory::FuturesUsdt)
    }

    fn delivery_registry() -> (r: TopicRegistry)
        ensures
            r.view_entries() == registry_entries(GateIoCategory::DeliveryUsdt),
    {
        build_registry(GateIoCategory::DeliveryUsdt)
    }

    fn options_registry() -> (r: TopicRegistry)
        ensures
            r.view_entries() == registry_entries(GateIoCategory::Options),
    {
        build_registry(GateIoCategory::Options)
    }

    /// Registry of the account type's product line.
    pub fn topic_registry(&self, account_type: AccountType) -> (r: TopicRegistry)
        ensures
            r.view_entries() == registry_entries(category_of(account_type)),
    {
        match GateIoCategory::from_account_type(account_type) {
            GateIoCategory::Spot => Self::spot_registry(),
            GateIoCategory::FuturesUsdt | GateIoCategory::FuturesBtc => Self::futures_registry(),
            GateIoCategory::DeliveryUsdt => Self::delivery_registry(),
            GateIoCategory::Options => Self::options_registry(),
        }
    }

    /// Kinds that need an authenticated connection.
    pub fn requires_auth_kinds(&self, account_type: AccountType) -> (r: Vec<StreamKind>)
        ensures
            r@.len() == 3,
            kind_view(r@[0]) == KindV::OrderUpdate,
            kind_view(r@[1]) == KindV::BalanceUpdate,
            kind_view(r@[2]) == KindV::PositionUpdate,
    {
        vec![StreamKind::OrderUpdate, StreamKind::BalanceUpdate, StreamKind::PositionUpdate]
    }
}

/// Pong: a `channel` member ending in ".pong".
pub open spec fn spec_is_pong(raw: JsonV) -> bool {
    match str_member(raw, "channel"@) {
        Some(c) => has_suffix(c, ".pong"@),
        None => false,
    }
}

/// (Un)subscribe acknowledgement: `event` is "subscribe" or "unsubscribe".
pub open spec fn spec_is_subscribe_ack(raw: JsonV) -> bool {
    str_member(raw, "event"@) == Some("subscribe"@) || str_member(raw, "event"@) == Some("unsubscribe"@)
}

/// Routing key: the `channel` of an `"update"` frame that is neither a pong nor an ack.
pub open spec fn spec_topic(raw: JsonV) -> Option<Seq<char>> {
    if spec_is_pong(raw) || spec_is_subscribe_ack(raw) {
        None
    } else if str_member(raw, "event"@) == Some("update"@) {
        str_member(raw, "channel"@)
    } else {
        None
    }
}

// ─────────────────────────────────────────────────────────────────────────────
// Registry
// ─────────────────────────────────────────────────────────────────────────────

/// Channels of every product line (registered under `Spot`; candlesticks once, as 1m klines).
pub open spec fn registry_common(prefix: Seq<char>) -> Seq<EntryV> {
    seq![
        (KindV::Ticker, AccountType::Spot, prefix + ".tickers"@),
        (KindV::Trade, AccountType::Spot, prefix + ".trades"@),
        (KindV::Orderbook, AccountType::Spot, prefix + ".order_book"@),
        (KindV::OrderbookDelta, AccountType::Spot, prefix + ".order_book_update"@),
        (KindV::OrderUpdate, AccountType::Spot, prefix + ".orders"@),
        (KindV::BalanceUpdate, AccountType::Spot, prefix + ".balances"@),
        (KindV::Kline("1m"@), AccountType::Spot, prefix + ".candlesticks"@),
    ]
}

/// Channels only the futures and delivery lines have.
pub open spec fn registry_futures(prefix: Seq<char>) -> Seq<EntryV> {
    seq![
        (KindV::MarkPrice, AccountType::Spot, prefix + ".mark_price"@),
        (KindV::FundingRate, AccountType::Spot, prefix + ".funding_rate"@),
        (KindV::Liquidation, AccountType::Spot, prefix + ".liquidates"@),
        (KindV::PositionUpdate, AccountType::Spot, prefix + ".positions"@),
        (KindV::OpenInterest, AccountType::Spot, prefix + ".contract_stats"@),
    ]
}

pub open spec fn has_futures_channels(c: GateIoCategory) -> bool {
    c is FuturesUsdt || c is FuturesBtc || c is DeliveryUsdt
}

/// Every registration of a product line, in order.
pub open spec fn registry_entries(c: GateIoCategory) -> Seq<EntryV> {
    if has_futures_channels(c) {
        registry_common(prefix_of(c)) + registry_futures(prefix_of(c))
    } else {
        registry_common(prefix_of(c))
    }
}

/// The topic registry of a product line.
pub fn build_registry(category: GateIoCategory) -> (r: TopicRegistry)
    ensures
        r.view_entries() == registry_entries(category),
{
    let mut b = TopicRegistry::builder();
    let prefix = category.channel_prefix();
    b = b.register(StreamKind::Ticker, AccountType::Spot, concat(prefix, ".tickers").as_str());
    b = b.register(StreamKind::Trade, AccountType::Spot, concat(prefix, ".trades").as_str());
    b = b.register(StreamKind::Orderbook, AccountType::Spot, concat(prefix, ".order_book").as_str());
    b = b.register(StreamKind::OrderbookDelta, AccountType::Spot, concat(prefix, ".order_book_update").as_str());
    b = b.register(StreamKind::OrderUpdate, AccountType::Spot, concat(prefix, ".orders").as_str());
    b = b.register(StreamKind::BalanceUpdate, AccountType::Spot, concat(prefix, ".balances").as_str());
    b = b.register(
        StreamKind::Kline { interval: KlineInterval::new("1m") },
        AccountType::Spot,
        concat(prefix, ".candlesticks").as_str(),
    );
    assert(entries_view(b.entries@) =~= registry_common(prefix@));
    match category {
        GateIoCategory::FuturesUsdt | GateIoCategory::FuturesBtc | GateIoCategory::DeliveryUsdt => {
            b = b.register(StreamKind::MarkPrice, AccountType::Spot, concat(prefix, ".mark_price").as_str());
            b = b.register(StreamKind::FundingRate, AccountType::Spot, concat(prefix, ".funding_rate").as_str());
            b = b.register(StreamKind::Liquidation, AccountType::Spot, concat(prefix, ".liquidates").as_str());
            b = b.register(StreamKind::PositionUpdate, AccountType::Spot, concat(prefix, ".positions").as_str());
            b = b.register(StreamKind::OpenInterest, AccountType::Spot, concat(prefix, ".contract_stats").as_str());
            assert(entries_view(b.entries@) =~= registry_common(prefix@) + registry_futures(prefix@));
        },
        GateIoCategory::Spot | GateIoCategory::Options => {},
    }
    b.build()
}


// ─────────────────────────────────────────────────────────────────────────────
// Laws
// ─────────────────────────────────────────────────────────────────────────────

/// Streams whose channel the line's registry routes back to the same kind.
pub open spec fn routed_kind(c: GateIoCategory, kind: StreamKind) -> bool {
    kind is Ticker || kind is Trade || kind is Orderbook || kind is OrderbookDelta
        || kind is OrderUpdate || kind is BalanceUpdate || kind_view(kind) == KindV::Kline("1m"@)
        || (has_futures_channels(c) && (kind is Liquidation || kind is PositionUpdate
        || kind is OpenInterest))
}

/// A category's channel prefix holds no wildcard.
pub proof fn lemma_prefix_star_free(c: GateIoCategory)
    ensures
        star_free(prefix_of(c)),
{
    reveal_strlit("spot");
    reveal_strlit("futures");
    reveal_strlit("delivery");
    reveal_strlit("options");
    assert(star_free("spot"@));
    assert(star_free("futures"@));
    assert(star_free("delivery"@));
    assert(star_free("options"@));
}

/// What a subscription asks for is what the registry routes back: for the
/// routed kinds, the channel of the subscription is matched by a registry
/// entry of the same kind (for every symbol, depth and speed).
pub proof fn lemma_channel_routed(
    c: GateIoCategory,
    kind: StreamKind,
    sym: Seq<char>,
    depth: Option<u32>,
    speed_ms: Option<u32>,
)
    requires
        routed_kind(c, kind),
    ensures
        channel_payload(prefix_of(c), kind, sym, depth, speed_ms) is Some,
        routes_kind(
            registry_entries(c),
            kind_view(kind),
            channel_of(prefix_of(c), kind, sym, depth, speed_ms)->0,
        ),
{
    let p = prefix_of(c);
    let ch = channel_of(p, kind, sym, depth, speed_ms)->0;
    let es = registry_entries(c);
    lemma_prefix_star_free(c);
    assert(registry_common(p).len() == 7);
    assert(es.len() >= 7 && forall|i: int| 0 <= i < 7 ==> es[i] == registry_common(p)[i]);
    match kind {
        StreamKind::Ticker => {
            reveal_strlit(".tickers");
            reveal_strlit("tickers");
            reveal_strlit(".");
            assert(".tickers"@ =~= "."@ + "tickers"@);
            assert(star_free(".tickers"@));
            lemma_star_free_concat(p, ".tickers"@);
            lemma_glob_self(p + ".tickers"@);
            assert(ch =~= p + ".tickers"@);
            assert(es[0].0 == KindV::Ticker && glob_match(es[0].2, ch));
        },
        StreamKind::Trade => {
            reveal_strlit(".trades");
            reveal_strlit("trades");
            reveal_strlit(".");
            assert(".trades"@ =~= "."@ + "trades"@);
            assert(star_free(".trades"@));
            lemma_star_free_concat(p, ".trades"@);
            lemma_glob_self(p + ".trades"@);
            assert(ch =~= p + ".trades"@);
            assert(es[1].0 == KindV::Trade && glob_match(es[1].2, ch));
        },
        StreamKind::Orderbook => {
            reveal_strlit(".order_book");
            reveal_strlit("order_book");
            reveal_strlit(".");
            assert(".order_book"@ =~= "."@ + "order_book"@);
            assert(star_free(".order_book"@));
            lemma_star_free_concat(p, ".order_book"@);
            lemma_glob_self(p + ".order_book"@);
            assert(ch =~= p + ".order_book"@);
            assert(es[2].0 == KindV::Orderbook && glob_match(es[2].2, ch));
        },
        StreamKind::OrderbookDelta => {
            reveal_strlit(".order_book_update");
            reveal_strlit("order_book_update");
            reveal_strlit(".");
            assert(".order_book_update"@ =~= "."@ + "order_book_update"@);
            assert(star_free(".order_book_update"@));
            lemma_star_free_concat(p, ".order_book_update"@);
            lemma_glob_self(p + ".order_book_update"@);
            assert(ch =~= p + ".order_book_update"@);
            assert(es[3].0 == KindV::OrderbookDelta && glob_match(es[3].2, ch));
        },
        StreamKind::OrderUpdate => {
            reveal_strlit(".orders");
            reveal_strlit("orders");
            reveal_strlit(".");
            assert(".orders"@ =~= "."@ + "orders"@);
            assert(star_free(".orders"@));
            lemma_star_free_concat(p, ".orders"@);
            lemma_glob_self(p + ".orders"@);
            assert(ch =~= p + ".orders"@);
            assert(es[4].0 == KindV::OrderUpdate && glob_match(es[4].2, ch));
        },
        StreamKind::BalanceUpdate => {
            reveal_strlit(".balances");
            reveal_strlit("balances");
            reveal_strlit(".");
            assert(".balances"@ =~= "."@ + "balances"@);
            assert(star_free(".balances"@));
            lemma_star_free_concat(p, ".balances"@);
            lemma_glob_self(p + ".balances"@);
            assert(ch =~= p + ".balances"@);
            assert(es[5].0 == KindV::BalanceUpdate && glob_match(es[5].2, ch));
        },
        StreamKind::Kline { interval } => {
            reveal_strlit(".candlesticks");
            reveal_strlit("candlesticks");
            reveal_strlit(".");
            assert(".candlesticks"@ =~= "."@ + "candlesticks"@);
            assert(star_free(".candlesticks"@));
            lemma_star_free_concat(p, ".candlesticks"@);
            lemma_glob_self(p + ".candlesticks"@);
            assert(ch =~= p + ".candlesticks"@);
            assert(es[6].0 == kind_view(kind) && glob_match(es[6].2, ch));
        },
        StreamKind::Liquidation => {
            assert(es == registry_common(p) + registry_futures(p));
            reveal_strlit(".liquidates");
            reveal_strlit("liquidates");
            reveal_strlit(".");
            assert(".liquidates"@ =~= "."@ + "liquidates"@);
            assert(star_free(".liquidates"@));
            lemma_star_free_concat(p, ".liquidates"@);
            lemma_glob_self(p + ".liquidates"@);
            assert(ch =~= p + ".liquidates"@);
            assert(es[9] == registry_futures(p)[2]);
            assert(es[9].0 == KindV::Liquidation && glob_match(es[9].2, ch));
        },
        StreamKind::PositionUpdate => {
            assert(es == registry_common(p) + registry_futures(p));
            reveal_strlit(".positions");
            reveal_strlit("positions");
            reveal_strlit(".");
            assert(".positions"@ =~= "."@ + "positions"@);
            assert(star_free(".positions"@));
            lemma_star_free_concat(p, ".positions"@);
            lemma_glob_self(p + ".positions"@);
            assert(ch =~= p + ".positions"@);
            assert(es[10] == registry_futures(p)[3]);
            assert(es[10].0 == KindV::PositionUpdate && glob_match(es[10].2, ch));
        },
        StreamKind::OpenInterest => {
            assert(es == registry_common(p) + registry_futures(p));
            reveal_strlit(".contract_stats");
            reveal_strlit("contract_stats");
            reveal_strlit(".");
            assert(".contract_stats"@ =~= "."@ + "contract_stats"@);
            assert(star_free(".contract_stats"@));
            lemma_star_free_concat(p, ".contract_stats"@);
            lemma_glob_self(p + ".contract_stats"@);
            assert(ch =~= p + ".contract_stats"@);
            assert(es[11] == registry_futures(p)[4]);
            assert(es[11].0 == KindV::OpenInterest && glob_match(es[11].2, ch));
        },
        _ => {},
    }
}

/// Pongs and (un)subscribe acknowledgements never yield a routing key.
pub proof fn lemma_control_frames_have_no_topic(raw: JsonV)
    ensures
        spec_is_pong(raw) || spec_is_subscribe_ack(raw) ==> spec_topic(raw) is None,
{
}

/// The stream kinds that are about one instrument.
pub open spec fn per_symbol_kind(kind: StreamKind) -> bool {
    kind is Ticker || kind is Trade || kind is Orderbook || kind is OrderbookDelta || kind is Kline
        || kind is MarkPrice || kind is FundingRate || kind is Liquidation || kind is OrderUpdate
        || kind is PositionUpdate || kind is OpenInterest
}

/// Every per-instrument Gate.io stream has a channel under the prefix, and
/// its payload names the instrument's `BASE_QUOTE` symbol (mark-price
/// candles name `mark_` and the symbol).
pub proof fn lemma_payload_names_symbol(
    prefix: Seq<char>,
    kind: StreamKind,
    sym: Seq<char>,
    depth: Option<u32>,
    speed_ms: Option<u32>,
)
    requires
        per_symbol_kind(kind) || kind is MarkPriceKline,
    ensures
        channel_payload(prefix, kind, sym, depth, speed_ms) is Some,
        crate::common::text::has_prefix(channel_payload(prefix, kind, sym, depth, speed_ms)->Some_0.0, prefix + "."@),
        per_symbol_kind(kind) ==> channel_payload(prefix, kind, sym, depth, speed_ms)->Some_0.1.contains(sym),
        kind is MarkPriceKline ==> channel_payload(prefix, kind, sym, depth, speed_ms)->Some_0.1.contains(
            "mark_"@ + sym,
        ),
{
    let cp = channel_payload(prefix, kind, sym, depth, speed_ms)->Some_0;
    let sp = suffix_and_payload(kind, sym, depth, speed_ms)->Some_0;
    assert(cp.0 == prefix + "."@ + sp.0);
    assert(cp.0.subrange(0, (prefix + "."@).len() as int) =~= prefix + "."@);
    match kind {
        StreamKind::Kline { interval } => {
            assert(cp.1[1] == sym);
        },
        StreamKind::MarkPriceKline { interval } => {
            assert(cp.1[1] == "mark_"@ + sym);
        },
        _ => {
            assert(cp.1[0] == sym);
        },
    }
}

/// The subscribe or unsubscribe frame of a per-instrument Gate.io stream
/// carries a `payload` array holding the stream's `BASE_QUOTE` symbol.
#[verifier::spinoff_prover]
#[verifier::rlimit(40)]
pub proof fn lemma_frame_names_symbol(subscribe: bool, spec: StreamSpec, ts: i64)
    requires
        per_symbol_kind(spec.kind),
    ensures
        spec_frame(subscribe, spec, ts) is Some,
        crate::common::json::member(spec_frame(subscribe, spec, ts)->Some_0, "payload"@) matches Some(
            JsonV::Array(items),
        ) && items.contains(JsonV::Str(spec_symbol(spec))),
{
    let prefix = prefix_of(category_of(spec.account_type));
    let sym = spec_symbol(spec);
    lemma_payload_names_symbol(prefix, spec.kind, sym, spec.depth, spec.speed_ms);
    let cp = channel_payload(prefix, spec.kind, sym, spec.depth, spec.speed_ms)->Some_0;
    let i = choose|i: int| 0 <= i < cp.1.len() && cp.1[i] == sym;
    assert(cp.1.len() > 0);
    reveal_strlit("time");
    reveal_strlit("channel");
    reveal_strlit("event");
    reveal_strlit("payload");
    assert("time"@.len() == 4 && "channel"@.len() == 7 && "event"@.len() == 5 && "payload"@.len() == 7);
    assert("channel"@[0] != "payload"@[0]);
    assert("time"@ != "payload"@ && "channel"@ != "payload"@ && "event"@ != "payload"@);
    reveal_with_fuel(crate::common::json::member_from, 5);
    let items = str_items(cp.1);
    assert(items[i] == JsonV::Str(sym));
}

} // verus!
