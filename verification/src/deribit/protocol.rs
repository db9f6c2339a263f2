//! Deribit WebSocket protocol: channel names, JSON-RPC frames, frame classes.
//!
//! Data frames arrive as
//! `{"jsonrpc":"2.0","method":"subscription","params":{"channel":"...","data":{...}}}`
//! and are routed by `params.channel`.

use vstd::prelude::*;
use crate::common::types::{
    AccountType, KlineInterval, StreamKind, StreamSpec, symbol_base, symbol_quote, Message,
    WebSocketError, Credentials, TopicKey, kind_view, kind_label, is_private_kind, KindV,
};
use crate::common::registry::{
    TopicRegistry, EntryV, entries_view, routes_kind, glob_match, star_free, lemma_glob_split,
    lemma_glob_self,
};
use crate::common::text::{lemma_split_join, lemma_split_single, trim_end, trim_start};
use crate::common::json::{
    Json, JsonV, json_text, str_items, items_view, push_item, push_member, to_text, member,
    str_member, members_view, view_opt,
};
use crate::common::text::{
    is_text1, is_text2, is_text3, is_text4, str_upper, str_lower, to_upper, to_lower, has_char,
    chars_of, concat, concat3, opt_text, decimal_text, split_on, split_text, texts, str_trim,
    trim_text,
};

verus! {

// ─────────────────────────────────────────────────────────────────────────────
// Kline resolutions
// ─────────────────────────────────────────────────────────────────────────────

/// Deribit wire resolution → internal interval ("60" → "1h"); unknown → "1h".
pub open spec fn internal_interval_of(s: Seq<char>) -> Seq<char> {
    if is_text1(s, '1') {
        seq!['1', 'm']
    } else if is_text1(s, '3') {
        seq!['3', 'm']
    } else if is_text1(s, '5') {
        seq!['5', 'm']
    } else if is_text2(s, '1', '0') {
        seq!['1', '0', 'm']
    } else if is_text2(s, '1', '5') {
        seq!['1', '5', 'm']
    } else if is_text2(s, '3', '0') {
        seq!['3', '0', 'm']
    } else if is_text2(s, '6', '0') {
        seq!['1', 'h']
    } else if is_text3(s, '1', '2', '0') {
        seq!['2', 'h']
    } else if is_text3(s, '1', '8', '0') {
        seq!['3', 'h']
    } else if is_text3(s, '3', '6', '0') {
        seq!['6', 'h']
    } else if is_text3(s, '7', '2', '0') {
        seq!['1', '2', 'h']
    } else if is_text2(s, '1', 'D') {
        seq!['1', 'd']
    } else {
        seq!['1', 'h']
    }
}

/// Internal interval → Deribit wire resolution ("1h" → "60"); unknown → "60".
pub open spec fn resolution_of(s: Seq<char>) -> Seq<char> {
    if is_text2(s, '1', 'm') {
        seq!['1']
    } else if is_text2(s, '3', 'm') {
        seq!['3']
    } else if is_text2(s, '5', 'm') {
        seq!['5']
    } else if is_text3(s, '1', '0', 'm') {
        seq!['1', '0']
    } else if is_text3(s, '1', '5', 'm') {
        seq!['1', '5']
    } else if is_text3(s, '3', '0', 'm') {
        seq!['3', '0']
    } else if is_text2(s, '1', 'h') {
        seq!['6', '0']
    } else if is_text2(s, '2', 'h') {
        seq!['1', '2', '0']
    } else if is_text2(s, '3', 'h') {
        seq!['1', '8', '0']
    } else if is_text2(s, '6', 'h') {
        seq!['3', '6', '0']
    } else if is_text3(s, '1', '2', 'h') {
        seq!['7', '2', '0']
    } else if is_text2(s, '1', 'd') {
        seq!['1', 'D']
    } else {
        seq!['6', '0']
    }
}

/// The wire resolutions Deribit's `chart.trades` channel offers, in order.
pub open spec fn kline_resolutions() -> Seq<Seq<char>> {
    seq![
        seq!['1'],
        seq!['3'],
        seq!['5'],
        seq!['1', '0'],
        seq!['1', '5'],
        seq!['3', '0'],
        seq!['6', '0'],
        seq!['1', '2', '0'],
        seq!['1', '8', '0'],
        seq!['3', '6', '0'],
        seq!['7', '2', '0'],
        seq!['1', 'D'],
    ]
}

/// The internal intervals that have a Deribit resolution.
pub open spec fn known_interval(interval: Seq<char>) -> bool {
    is_text2(interval, '1', 'm')
        || is_text2(interval, '3', 'm')
        || is_text2(interval, '5', 'm')
        || is_text3(interval, '1', '0', 'm')
        || is_text3(interval, '1', '5', 'm')
        || is_text3(interval, '3', '0', 'm')
        || is_text2(interval, '1', 'h')
        || is_text2(interval, '2', 'h')
        || is_text2(interval, '3', 'h')
        || is_text2(interval, '6', 'h')
        || is_text3(interval, '1', '2', 'h')
        || is_text2(interval, '1', 'd')
}

/// `kline_resolutions()` as values.
pub fn kline_resolution_list() -> (v: Vec<&'static str>)
    ensures
        v@.len() == kline_resolutions().len(),
        forall|i: int| 0 <= i < v@.len() ==> #[trigger] v@[i]@ == kline_resolutions()[i],
{
    let v = vec!["1", "3", "5", "10", "15", "30", "60", "120", "180", "360", "720", "1D"];
    proof {
        reveal_strlit("1");
        assert("1"@ =~= seq!['1']);
        reveal_strlit("3");
        assert("3"@ =~= seq!['3']);
        reveal_strlit("5");
        assert("5"@ =~= seq!['5']);
        reveal_strlit("10");
        assert("10"@ =~= seq!['1', '0']);
        reveal_strlit("15");
        assert("15"@ =~= seq!['1', '5']);
        reveal_strlit("30");
        assert("30"@ =~= seq!['3', '0']);
        reveal_strlit("60");
        assert("60"@ =~= seq!['6', '0']);
        reveal_strlit("120");
        assert("120"@ =~= seq!['1', '2', '0']);
        reveal_strlit("180");
        assert("180"@ =~= seq!['1', '8', '0']);
        reveal_strlit("360");
        assert("360"@ =~= seq!['3', '6', '0']);
        reveal_strlit("720");
        assert("720"@ =~= seq!['7', '2', '0']);
        reveal_strlit("1D");
        assert("1D"@ =~= seq!['1', 'D']);
    }
    assert forall|i: int| 0 <= i < v@.len() implies #[trigger] v@[i]@ == kline_resolutions()[i] by {
    }
    v
}

/// Map Deribit wire resolution → internal KlineInterval string.
pub fn internal_kline_interval(res: &str) -> (r: &'static str)
    ensures
        r@ == internal_interval_of(res@),
{
    let v = crate::common::text::chars_of(res);
    if v.len() == 1 && v[0] == '1' {
        proof { reveal_strlit("1m"); assert("1m"@ =~= seq!['1', 'm']); } "1m"
    } else if v.len() == 1 && v[0] == '3' {
        proof { reveal_strlit("3m"); assert("3m"@ =~= seq!['3', 'm']); } "3m"
    } else if v.len() == 1 && v[0] == '5' {
        proof { reveal_strlit("5m"); assert("5m"@ =~= seq!['5', 'm']); } "5m"
    } else if v.len() == 2 && v[0] == '1' && v[1] == '0' {
        proof { reveal_strlit("10m"); assert("10m"@ =~= seq!['1', '0', 'm']); } "10m"
    } else if v.len() == 2 && v[0] == '1' && v[1] == '5' {
        proof { reveal_strlit("15m"); assert("15m"@ =~= seq!['1', '5', 'm']); } "15m"
    } else if v.len() == 2 && v[0] == '3' && v[1] == '0' {
        proof { reveal_strlit("30m"); assert("30m"@ =~= seq!['3', '0', 'm']); } "30m"
    } else if v.len() == 2 && v[0] == '6' && v[1] == '0' {
        proof { reveal_strlit("1h"); assert("1h"@ =~= seq!['1', 'h']); } "1h"
    } else if v.len() == 3 && v[0] == '1' && v[1] == '2' && v[2] == '0' {
        proof { reveal_strlit("2h"); assert("2h"@ =~= seq!['2', 'h']); } "2h"
    } else if v.len() == 3 && v[0] == '1' && v[1] == '8' && v[2] == '0' {
        proof { reveal_strlit("3h"); assert("3h"@ =~= seq!['3', 'h']); } "3h"
    } else if v.len() == 3 && v[0] == '3' && v[1] == '6' && v[2] == '0' {
        proof { reveal_strlit("6h"); assert("6h"@ =~= seq!['6', 'h']); } "6h"
    } else if v.len() == 3 && v[0] == '7' && v[1] == '2' && v[2] == '0' {
        proof { reveal_strlit("12h"); assert("12h"@ =~= seq!['1', '2', 'h']); } "12h"
    } else if v.len() == 2 && v[0] == '1' && v[1] == 'D' {
        proof { reveal_strlit("1d"); assert("1d"@ =~= seq!['1', 'd']); } "1d"
    } else {
        proof { reveal_strlit("1h"); assert("1h"@ =~= seq!['1', 'h']); } "1h"
    }
}

/// Map internal KlineInterval string → Deribit wire resolution.
pub fn deribit_kline_resolution(interval: &KlineInterval) -> (r: &'static str)
    ensures
        r@ == resolution_of(interval.value@),
{
    let v = crate::common::text::chars_of(interval.as_str());
    if v.len() == 2 && v[0] == '1' && v[1] == 'm' {
        proof { reveal_strlit("1"); assert("1"@ =~= seq!['1']); } "1"
    } else if v.len() == 2 && v[0] == '3' && v[1] == 'm' {
        proof { reveal_strlit("3"); assert("3"@ =~= seq!['3']); } "3"
    } else if v.len() == 2 && v[0] == '5' && v[1] == 'm' {
        proof { reveal_strlit("5"); assert("5"@ =~= seq!['5']); } "5"
    } else if v.len() == 3 && v[0] == '1' && v[1] == '0' && v[2] == 'm' {
        proof { reveal_strlit("10"); assert("10"@ =~= seq!['1', '0']); } "10"
    } else if v.len() == 3 && v[0] == '1' && v[1] == '5' && v[2] == 'm' {
        proof { reveal_strlit("15"); assert("15"@ =~= seq!['1', '5']); } "15"
    } else if v.len() == 3 && v[0] == '3' && v[1] == '0' && v[2] == 'm' {
        proof { reveal_strlit("30"); assert("30"@ =~= seq!['3', '0']); } "30"
    } else if v.len() == 2 && v[0] == '1' && v[1] == 'h' {
        proof { reveal_strlit("60"); assert("60"@ =~= seq!['6', '0']); } "60"
    } else if v.len() == 2 && v[0] == '2' && v[1] == 'h' {
        proof { reveal_strlit("120"); assert("120"@ =~= seq!['1', '2', '0']); } "120"
    } else if v.len() == 2 && v[0] == '3' && v[1] == 'h' {
        proof { reveal_strlit("180"); assert("180"@ =~= seq!['1', '8', '0']); } "180"
    } else if v.len() == 2 && v[0] == '6' && v[1] == 'h' {
        proof { reveal_strlit("360"); assert("360"@ =~= seq!['3', '6', '0']); } "360"
    } else if v.len() == 3 && v[0] == '1' && v[1] == '2' && v[2] == 'h' {
        proof { reveal_strlit("720"); assert("720"@ =~= seq!['7', '2', '0']); } "720"
    } else if v.len() == 2 && v[0] == '1' && v[1] == 'd' {
        proof { reveal_strlit("1D"); assert("1D"@ =~= seq!['1', 'D']); } "1D"
    } else {
        proof { reveal_strlit("60"); assert("60"@ =~= seq!['6', '0']); } "60"
    }
}

/// Every wire resolution maps to a known interval that maps back to it.
pub proof fn lemma_resolution_round_trip(i: int)
    requires
        0 <= i < kline_resolutions().len(),
    ensures
        known_interval(internal_interval_of(kline_resolutions()[i])),
        resolution_of(internal_interval_of(kline_resolutions()[i])) == kline_resolutions()[i],
{
}

/// Every known interval maps to a wire resolution that maps back to it.
pub proof fn lemma_interval_round_trip(interval: Seq<char>)
    requires
        known_interval(interval),
    ensures
        internal_interval_of(resolution_of(interval)) == interval,
        kline_resolutions().contains(resolution_of(interval)),
{
    if is_text2(interval, '1', 'm') {
        assert(interval =~= seq!['1', 'm']);
        assert(kline_resolutions()[0] == resolution_of(interval));
    } else if is_text2(interval, '3', 'm') {
        assert(interval =~= seq!['3', 'm']);
        assert(kline_resolutions()[1] == resolution_of(interval));
    } else if is_text2(interval, '5', 'm') {
        assert(interval =~= seq!['5', 'm']);
        assert(kline_resolutions()[2] == resolution_of(interval));
    } else if is_text3(interval, '1', '0', 'm') {
        assert(interval =~= seq!['1', '0', 'm']);
        assert(kline_resolutions()[3] == resolution_of(interval));
    } else if is_text3(interval, '1', '5', 'm') {
        assert(interval =~= seq!['1', '5', 'm']);
        assert(kline_resolutions()[4] == resolution_of(interval));
    } else if is_text3(interval, '3', '0', 'm') {
        assert(interval =~= seq!['3', '0', 'm']);
        assert(kline_resolutions()[5] == resolution_of(interval));
    } else if is_text2(interval, '1', 'h') {
        assert(interval =~= seq!['1', 'h']);
        assert(kline_resolutions()[6] == resolution_of(interval));
    } else if is_text2(interval, '2', 'h') {
        assert(interval =~= seq!['2', 'h']);
        assert(kline_resolutions()[7] == resolution_of(interval));
    } else if is_text2(interval, '3', 'h') {
        assert(interval =~= seq!['3', 'h']);
        assert(kline_resolutions()[8] == resolution_of(interval));
    } else if is_text2(interval, '6', 'h') {
        assert(interval =~= seq!['6', 'h']);
        assert(kline_resolutions()[9] == resolution_of(interval));
    } else if is_text3(interval, '1', '2', 'h') {
        assert(interval =~= seq!['1', '2', 'h']);
        assert(kline_resolutions()[10] == resolution_of(interval));
    } else if is_text2(interval, '1', 'd') {
        assert(interval =~= seq!['1', 'd']);
        assert(kline_resolutions()[11] == resolution_of(interval));
    }
}


// ─────────────────────────────────────────────────────────────────────────────
// Instrument and channel names
// ─────────────────────────────────────────────────────────────────────────────

/// Deribit instrument name from upper-cased base and quote.
pub open spec fn instrument_of(base_up: Seq<char>, quote_up: Seq<char>) -> Seq<char> {
    if base_up.contains('-') {
        base_up
    } else if quote_up.len() == 0 || is_text3(quote_up, 'U', 'S', 'D') || is_text4(
        quote_up,
        'P',
        'E',
        'R',
        'P',
    ) {
        base_up + "-PERPETUAL"@
    } else if is_text4(quote_up, 'U', 'S', 'D', 'C') {
        base_up + "_USDC-PERPETUAL"@
    } else if is_text4(quote_up, 'U', 'S', 'D', 'T') {
        base_up + "_USDT-PERPETUAL"@
    } else {
        base_up + "-"@ + quote_up
    }
}

/// Deribit instrument name for a base and quote: a base that already holds
/// '-' (an option or dated future) verbatim, otherwise `instrument_of` the
/// upper-cased base and quote.
pub open spec fn deribit_instrument_of(base: Seq<char>, quote: Seq<char>) -> Seq<char> {
    if base.contains('-') {
        base
    } else {
        instrument_of(str_upper(base), str_upper(quote))
    }
}

/// Instrument name from the already upper-cased base and quote.
///
/// A base that contains '-' is a full instrument name (options, dated futures)
/// and is kept; quotes "", "USD" and "PERP" give the inverse perpetual, "USDC"
/// and "USDT" the linear perpetuals, any other quote `BASE-QUOTE`.
pub fn deribit_instrument_from_upper(base_up: &str, quote_up: &str) -> (r: String)
    ensures
        r@ == instrument_of(base_up@, quote_up@),
{
    let b = chars_of(base_up);
    if has_char(&b, '-') {
        return base_up.to_owned();
    }
    let q = chars_of(quote_up);
    if q.len() == 0 || (q.len() == 3 && q[0] == 'U' && q[1] == 'S' && q[2] == 'D') || (q.len() == 4
        && q[0] == 'P' && q[1] == 'E' && q[2] == 'R' && q[3] == 'P') {
        concat(base_up, "-PERPETUAL")
    } else if q.len() == 4 && q[0] == 'U' && q[1] == 'S' && q[2] == 'D' && q[3] == 'C' {
        concat(base_up, "_USDC-PERPETUAL")
    } else if q.len() == 4 && q[0] == 'U' && q[1] == 'S' && q[2] == 'D' && q[3] == 'T' {
        concat(base_up, "_USDT-PERPETUAL")
    } else {
        concat3(base_up, "-", quote_up)
    }
}

/// Format Deribit instrument name from Symbol base+quote.
///
/// If `quote` is empty or "USD"/"PERP" — perpetual convention.
/// If `quote` is "USDC" → linear perpetual like `SOL_USDC-PERPETUAL`.
/// If base already contains '-' it is returned verbatim (e.g. option names).
pub fn deribit_instrument(base: &str, quote: &str) -> (r: String)
    ensures
        r@ == deribit_instrument_of(base@, quote@),
        base@.contains('-') ==> r@ == base@,
{
    if has_char(&chars_of(base), '-') {
        return base.to_owned();
    }
    let base_up = to_upper(base);
    let quote_up = to_upper(quote);
    deribit_instrument_from_upper(base_up.as_str(), quote_up.as_str())
}

/// Deribit channel for a stream kind, given the instrument name and the
/// lower-cased base asset; `None` for kinds Deribit has no channel for.
pub open spec fn channel_for(kind: StreamKind, instrument: Seq<char>, base_lower: Seq<char>) -> Option<Seq<char>> {
    match kind {
        StreamKind::Ticker => Some("ticker."@ + instrument + ".100ms"@),
        StreamKind::Trade => Some("trades."@ + instrument + ".100ms"@),
        StreamKind::Orderbook => Some("book."@ + instrument + ".100ms"@),
        StreamKind::OrderbookDelta => Some("book."@ + instrument + ".100ms"@),
        StreamKind::Kline { interval } => Some(
            "chart.trades."@ + instrument + "."@ + resolution_of(interval.value@),
        ),
        StreamKind::MarkPrice => Some("mark_price."@ + instrument),
        StreamKind::FundingRate => Some("perpetual."@ + instrument + ".100ms"@),
        StreamKind::IndexPrice => Some("deribit_price_index."@ + base_lower + "_usd"@),
        StreamKind::OptionGreeks => Some("ticker."@ + instrument + ".100ms"@),
        StreamKind::VolatilityIndex => Some("deribit_volatility_index."@ + base_lower + "_usd"@),
        StreamKind::OrderUpdate => Some("user.orders.any.any.raw"@),
        StreamKind::BalanceUpdate => Some(balance_channels()),
        StreamKind::PositionUpdate => Some("user.changes.any.any.raw"@),
        StreamKind::BlockTrade => Some("block_trade_confirmations"@),
        _ => None,
    }
}

/// The portfolio channels of every settlement currency, comma-joined.
pub open spec fn balance_channels() -> Seq<char> {
    "user.portfolio.BTC,user.portfolio.ETH,user.portfolio.USDC,user.portfolio.USDT,user.portfolio.SOL"@
}

/// Channel name for `kind` given the instrument and the lower-cased base.
pub fn channel_name_for(kind: &StreamKind, instrument: &str, base_lower: &str) -> (r: Option<String>)
    ensures
        opt_text(r) == channel_for(*kind, instrument@, base_lower@),
{
    match kind {
        StreamKind::Ticker => Some(concat3("ticker.", instrument, ".100ms")),
        StreamKind::Trade => Some(concat3("trades.", instrument, ".100ms")),
        StreamKind::Orderbook => Some(concat3("book.", instrument, ".100ms")),
        StreamKind::OrderbookDelta => Some(concat3("book.", instrument, ".100ms")),
        StreamKind::Kline { interval } => {
            let res = deribit_kline_resolution(interval);
            Some(crate::common::text::concat4("chart.trades.", instrument, ".", res))
        },
        StreamKind::MarkPrice => Some(concat("mark_price.", instrument)),
        StreamKind::FundingRate => Some(concat3("perpetual.", instrument, ".100ms")),
        StreamKind::IndexPrice => Some(concat3("deribit_price_index.", base_lower, "_usd")),
        StreamKind::OptionGreeks => Some(concat3("ticker.", instrument, ".100ms")),
        StreamKind::VolatilityIndex => Some(concat3("deribit_volatility_index.", base_lower, "_usd")),
        StreamKind::OrderUpdate => Some("user.orders.any.any.raw".to_owned()),
        StreamKind::BalanceUpdate => Some(
            "user.portfolio.BTC,user.portfolio.ETH,user.portfolio.USDC,user.portfolio.USDT,user.portfolio.SOL".to_owned(),
        ),
        StreamKind::PositionUpdate => Some("user.changes.any.any.raw".to_owned()),
        StreamKind::BlockTrade => Some("block_trade_confirmations".to_owned()),
        _ => None,
    }
}

/// Channel name of a subscription: `channel_for` applied to the subscription's
/// instrument and lower-cased base.
pub open spec fn spec_channel(spec: StreamSpec) -> Option<Seq<char>> {
    channel_for(
        spec.kind,
        deribit_instrument_of(symbol_base(spec.symbol), symbol_quote(spec.symbol)),
        str_lower(symbol_base(spec.symbol)),
    )
}

/// Convert StreamSpec → Deribit channel name; `None` for unsupported kinds.
pub fn channel_name(spec: &StreamSpec) -> (r: Option<String>)
    ensures
        opt_text(r) == spec_channel(*spec),
{
    let instrument = deribit_instrument(spec.symbol.base(), spec.symbol.quote());
    let base_lower = to_lower(spec.symbol.base());
    channel_name_for(&spec.kind, instrument.as_str(), base_lower.as_str())
}


// ─────────────────────────────────────────────────────────────────────────────
// Frames
// ─────────────────────────────────────────────────────────────────────────────

/// The JSON-RPC envelope members shared by every request frame.
pub open spec fn rpc_members(id: u64, method: Seq<char>) -> Seq<(Seq<char>, JsonV)> {
    seq![
        ("jsonrpc"@, JsonV::Str("2.0"@)),
        ("id"@, JsonV::Number(decimal_text(id as nat))),
        ("method"@, JsonV::Str(method)),
    ]
}

/// `{"jsonrpc":"2.0","id":id,"method":method,"params":{"channels":[...]}}`
pub open spec fn subscription_frame(id: u64, method: Seq<char>, channels: Seq<Seq<char>>) -> JsonV {
    JsonV::Object(
        rpc_members(id, method).push(
            ("params"@, JsonV::Object(seq![("channels"@, JsonV::Array(str_items(channels)))])),
        ),
    )
}

/// JSON-RPC method of a (un)subscribe request for `kind`.
pub open spec fn subscription_method(subscribe: bool, kind: StreamKind) -> Seq<char> {
    if is_private_kind(kind) {
        if subscribe { "private/subscribe"@ } else { "private/unsubscribe"@ }
    } else {
        if subscribe { "public/subscribe"@ } else { "public/unsubscribe"@ }
    }
}

/// The channels a subscription frame lists: the channel name split at ','
/// and each piece trimmed.
pub open spec fn frame_channels(channel: Seq<char>) -> Seq<Seq<char>> {
    split_on(channel, ',').map_values(|p: Seq<char>| str_trim(p))
}

/// Text of the frame `{"jsonrpc":"2.0","id":id,"method":method,"params":{"channels":channels}}`.
pub fn subscription_frame_text(id: u64, method: &str, channels: &Vec<String>) -> (r: String)
    ensures
        r@ == json_text(subscription_frame(id, method@, texts(channels@))),
{
    let mut items: Vec<Json> = Vec::new();
    for i in 0..channels.len()
        invariant
            items_view(items@) == str_items(texts(channels@).take(i as int)),
    {
        push_item(&mut items, Json::string(channels[i].as_str()));
        assert(str_items(texts(channels@).take(i + 1)) =~= str_items(texts(channels@).take(i as int)).push(
            JsonV::Str(channels@[i as int]@),
        ));
    }
    assert(texts(channels@).take(channels.len() as int) =~= texts(channels@));
    let ghost chans = str_items(texts(channels@));
    let arr = Json::Array(items);
    assert(arr@ == JsonV::Array(chans));
    let mut params: Vec<(String, Json)> = Vec::new();
    push_member(&mut params, "channels", arr);
    assert(members_view(params@) =~= seq![("channels"@, JsonV::Array(chans))]);
    let ps = Json::Object(params);
    assert(ps@ == JsonV::Object(seq![("channels"@, JsonV::Array(chans))]));
    let mut members: Vec<(String, Json)> = Vec::new();
    push_member(&mut members, "jsonrpc", Json::string("2.0"));
    push_member(&mut members, "id", Json::from_u64(id));
    push_member(&mut members, "method", Json::string(method));
    push_member(&mut members, "params", ps);
    assert(members_view(members@) =~= rpc_members(id, method@).push(
        ("params"@, JsonV::Object(seq![("channels"@, JsonV::Array(chans))])),
    ));
    let frame = Json::Object(members);
    assert(frame@ == subscription_frame(id, method@, texts(channels@)));
    to_text(&frame)
}

/// The counter value after one fetch-and-increment (wrapping at `u64::MAX`).
pub open spec fn next_counter(c: u64) -> u64 {
    if c == u64::MAX { 0 } else { (c + 1) as u64 }
}

/// WebSocket protocol state for Deribit JSON-RPC 2.0.
#[derive(Debug)]
pub struct DeribitProtocol {
    account_type: AccountType,
    testnet: bool,
    next_id: u64,
}

impl DeribitProtocol {
    /// The id the next request will carry.
    pub closed spec fn id_counter(&self) -> u64 {
        self.next_id
    }

    pub closed spec fn account(&self) -> AccountType {
        self.account_type
    }

    pub closed spec fn on_testnet(&self) -> bool {
        self.testnet
    }

    pub fn new(account_type: AccountType, testnet: bool) -> (r: Self)
        ensures
            r.id_counter() == 1,
            r.account() == account_type,
            r.on_testnet() == testnet,
    {
        DeribitProtocol { account_type, testnet, next_id: 1 }
    }

    /// Fetch-and-increment JSON-RPC request id.
    pub fn next_id(&mut self) -> (id: u64)
        ensures
            id == old(self).id_counter(),
            final(self).id_counter() == next_counter(old(self).id_counter()),
            final(self).account() == old(self).account(),
            final(self).on_testnet() == old(self).on_testnet(),
    {
        let id = self.next_id;
        self.next_id = if id == u64::MAX { 0 } else { id + 1 };
        id
    }

    /// Build subscribe (`subscribe == true`) or unsubscribe JSON-RPC 2.0 frame.
    fn build_sub_frame(&mut self, subscribe: bool, spec: &StreamSpec) -> (r: Result<Message, WebSocketError>)
        ensures
            match r {
                Ok(m) => spec_channel(*spec) is Some && m == Message::Text(m->Text_0)
                    && m->Text_0@ == json_text(
                    subscription_frame(
                        old(self).id_counter(),
                        subscription_method(subscribe, spec.kind),
                        frame_channels(spec_channel(*spec)->0),
                    ),
                ) && final(self).id_counter() == next_counter(old(self).id_counter())
                    && final(self).account() == old(self).account()
                    && final(self).on_testnet() == old(self).on_testnet(),
                Err(e) => spec_channel(*spec) is None && e is UnsupportedOperation
                    && e->UnsupportedOperation_0@ == "deribit: unsupported stream kind "@ + kind_label(kind_view(spec.kind))
                    && *final(self) == *old(self),
            },
    {
        let channel_str = match channel_name(spec) {
            Some(c) => c,
            None => {
                return Err(WebSocketError::UnsupportedOperation(
                    concat("deribit: unsupported stream kind ", spec.kind.label()),
                ));
            },
        };
        let pieces = split_text(channel_str.as_str(), ',');
        let mut channels: Vec<String> = Vec::new();
        for i in 0..pieces.len()
            invariant
                texts(channels@) == texts(pieces@).take(i as int).map_values(|p: Seq<char>| str_trim(p)),
        {
            let t = trim_text(pieces[i].as_str());
            let ghost old_channels = channels@;
            channels.push(t.to_owned());
            assert(texts(channels@) =~= texts(old_channels).push(str_trim(pieces@[i as int]@)));
            assert(texts(pieces@).take(i + 1).map_values(|p: Seq<char>| str_trim(p)) =~= texts(
                pieces@,
            ).take(i as int).map_values(|p: Seq<char>| str_trim(p)).push(str_trim(pieces@[i as int]@)));
        }
        assert(texts(pieces@).take(pieces.len() as int) =~= texts(pieces@));
        let method = if spec.kind.is_private() {
            if subscribe { "private/subscribe" } else { "private/unsubscribe" }
        } else if subscribe {
            "public/subscribe"
        } else {
            "public/unsubscribe"
        };
        let id = self.next_id();
        Ok(Message::Text(subscription_frame_text(id, method, &channels)))
    }
}

// ─────────────────────────────────────────────────────────────────────────────
// Registry
// ─────────────────────────────────────────────────────────────────────────────

/// Registrations before the kline channels (order book, trades, ticker, quote).
pub open spec fn registry_head() -> Seq<EntryV> {
    seq![
        (KindV::Orderbook, AccountType::FuturesCross, "book.*.raw"@),
        (KindV::Orderbook, AccountType::FuturesCross, "book.*.100ms"@),
        (KindV::OrderbookDelta, AccountType::FuturesCross, "book.*.raw"@),
        (KindV::OrderbookDelta, AccountType::FuturesCross, "book.*.100ms"@),
        (KindV::Trade, AccountType::FuturesCross, "trades.*.raw"@),
        (KindV::Trade, AccountType::FuturesCross, "trades.*.100ms"@),
        (KindV::Ticker, AccountType::FuturesCross, "ticker.*.raw"@),
        (KindV::Ticker, AccountType::FuturesCross, "ticker.*.100ms"@),
        (KindV::OptionGreeks, AccountType::FuturesCross, "ticker.*.raw"@),
        (KindV::OptionGreeks, AccountType::FuturesCross, "ticker.*.100ms"@),
        (KindV::Ticker, AccountType::FuturesCross, "quote.*"@),
    ]
}

/// One registration per kline resolution: `chart.trades.*.<res>`.
pub open spec fn registry_klines() -> Seq<EntryV> {
    Seq::new(
        kline_resolutions().len(),
        |i: int|
            (
                KindV::Kline(internal_interval_of(kline_resolutions()[i])),
                AccountType::FuturesCross,
                "chart.trades.*."@ + kline_resolutions()[i],
            ),
    )
}

/// Registrations after the kline channels (prices, indices, private streams, block trades).
pub open spec fn registry_tail() -> Seq<EntryV> {
    seq![
        (KindV::MarkPrice, AccountType::FuturesCross, "mark_price.*"@),
        (KindV::FundingRate, AccountType::FuturesCross, "perpetual.*.raw"@),
        (KindV::FundingRate, AccountType::FuturesCross, "perpetual.*.100ms"@),
        (KindV::IndexPrice, AccountType::FuturesCross, "deribit_price_index.*"@),
        (KindV::IndexPrice, AccountType::FuturesCross, "estimated_expiration_price.*"@),
        (KindV::VolatilityIndex, AccountType::FuturesCross, "deribit_volatility_index.*"@),
        (KindV::MarkPrice, AccountType::FuturesCross, "markprice.options.*.*"@),
        (KindV::OrderUpdate, AccountType::FuturesCross, "user.orders.*"@),
        (KindV::BalanceUpdate, AccountType::FuturesCross, "user.portfolio.*"@),
        (KindV::PositionUpdate, AccountType::FuturesCross, "user.changes.*"@),
        (KindV::BlockTrade, AccountType::FuturesCross, "block_trade_confirmations"@),
    ]
}

/// Every Deribit registration, in order.  All use `FuturesCross`: dispatch ignores the account type.
pub open spec fn registry_entries() -> Seq<EntryV> {
    registry_head() + registry_klines() + registry_tail()
}

/// The Deribit topic registry.
pub fn build_registry() -> (r: TopicRegistry)
    ensures
        r.view_entries() == registry_entries(),
{
    let at = AccountType::FuturesCross;
    let mut b = TopicRegistry::builder();
    b = b.register(StreamKind::Orderbook, at, "book.*.raw");
    b = b.register(StreamKind::Orderbook, at, "book.*.100ms");
    b = b.register(StreamKind::OrderbookDelta, at, "book.*.raw");
    b = b.register(StreamKind::OrderbookDelta, at, "book.*.100ms");
    b = b.register(StreamKind::Trade, at, "trades.*.raw");
    b = b.register(StreamKind::Trade, at, "trades.*.100ms");
    b = b.register(StreamKind::Ticker, at, "ticker.*.raw");
    b = b.register(StreamKind::Ticker, at, "ticker.*.100ms");
    b = b.register(StreamKind::OptionGreeks, at, "ticker.*.raw");
    b = b.register(StreamKind::OptionGreeks, at, "ticker.*.100ms");
    b = b.register(StreamKind::Ticker, at, "quote.*");
    assert(entries_view(b.entries@) =~= registry_head());
    let list = kline_resolution_list();
    for i in 0..list.len()
        invariant
            list@.len() == kline_resolutions().len(),
            forall|k: int| 0 <= k < list@.len() ==> #[trigger] list@[k]@ == kline_resolutions()[k],
            entries_view(b.entries@) == registry_head() + registry_klines().take(i as int),
            at == AccountType::FuturesCross,
    {
        let res = list[i];
        let kind = StreamKind::Kline { interval: KlineInterval::new(internal_kline_interval(res)) };
        let pattern = concat("chart.trades.*.", res);
        b = b.register(kind, at, pattern.as_str());
        assert(registry_klines().take(i + 1) =~= registry_klines().take(i as int).push(registry_klines()[i as int]));
        assert(entries_view(b.entries@) =~= registry_head() + registry_klines().take(i + 1));
    }
    assert(registry_klines().take(list.len() as int) =~= registry_klines());
    let ghost mid = entries_view(b.entries@);
    b = b.register(StreamKind::MarkPrice, at, "mark_price.*");
    b = b.register(StreamKind::FundingRate, at, "perpetual.*.raw");
    b = b.register(StreamKind::FundingRate, at, "perpetual.*.100ms");
    b = b.register(StreamKind::IndexPrice, at, "deribit_price_index.*");
    b = b.register(StreamKind::IndexPrice, at, "estimated_expiration_price.*");
    b = b.register(StreamKind::VolatilityIndex, at, "deribit_volatility_index.*");
    b = b.register(StreamKind::MarkPrice, at, "markprice.options.*.*");
    b = b.register(StreamKind::OrderUpdate, at, "user.orders.*");
    b = b.register(StreamKind::BalanceUpdate, at, "user.portfolio.*");
    b = b.register(StreamKind::PositionUpdate, at, "user.changes.*");
    b = b.register(StreamKind::BlockTrade, at, "block_trade_confirmations");
    assert(entries_view(b.entries@) =~= mid + registry_tail());
    assert(registry_entries() =~= registry_head() + registry_klines() + registry_tail());
    b.build()
}


// ─────────────────────────────────────────────────────────────────────────────
// Incoming frame classes
// ─────────────────────────────────────────────────────────────────────────────

/// Ping response: `{"id":N,"result":{"version":...}}`.
pub open spec fn spec_is_pong(raw: JsonV) -> bool {
    member(raw, "id"@) is Some && match member(raw, "result"@) {
        Some(r) => member(r, "version"@) is Some,
        None => false,
    }
}

/// (Un)subscribe response: `{"id":N,"result":[strings]}` or `{"id":N,"result":null}`.
pub open spec fn spec_is_subscribe_ack(raw: JsonV) -> bool {
    member(raw, "id"@) is Some && match member(raw, "result"@) {
        Some(JsonV::Array(items)) => forall|i: int| 0 <= i < items.len() ==> (#[trigger] items[i]) is Str,
        Some(r) => r is Null,
        None => false,
    }
}

/// Auth success: `{"result":{"access_token":...}}`.
pub open spec fn spec_is_auth_ack(raw: JsonV) -> bool {
    match member(raw, "result"@) {
        Some(r) => member(r, "access_token"@) is Some,
        None => false,
    }
}

/// Routing key of a frame: `params.channel` of a `"subscription"` notification.
pub open spec fn spec_topic(raw: JsonV) -> Option<Seq<char>> {
    if str_member(raw, "method"@) == Some("heartbeat"@) {
        None
    } else if str_member(raw, "method"@) == Some("subscription"@) {
        match member(raw, "params"@) {
            Some(p) => str_member(p, "channel"@),
            None => None,
        }
    } else {
        None
    }
}

/// `{"jsonrpc":"2.0","id":id,"method":"public/test"}`
pub open spec fn ping_frame_value(id: u64) -> JsonV {
    JsonV::Object(rpc_members(id, "public/test"@))
}

/// `{"jsonrpc":"2.0","id":id,"method":"public/auth","params":{"grant_type":"client_credentials",...}}`
pub open spec fn auth_frame_value(id: u64, key: Seq<char>, secret: Seq<char>) -> JsonV {
    JsonV::Object(
        rpc_members(id, "public/auth"@).push(
            (
                "params"@,
                JsonV::Object(
                    seq![
                        ("grant_type"@, JsonV::Str("client_credentials"@)),
                        ("client_id"@, JsonV::Str(key)),
                        ("client_secret"@, JsonV::Str(secret)),
                    ],
                ),
            ),
        ),
    )
}

fn rpc_envelope(id: u64, method: &str) -> (r: Vec<(String, Json)>)
    ensures
        members_view(r@) == rpc_members(id, method@),
{
    let mut members: Vec<(String, Json)> = Vec::new();
    push_member(&mut members, "jsonrpc", Json::string("2.0"));
    push_member(&mut members, "id", Json::from_u64(id));
    push_member(&mut members, "method", Json::string(method));
    assert(members_view(members@) =~= rpc_members(id, method@));
    members
}

impl DeribitProtocol {
    pub fn name(&self) -> (r: &'static str)
        ensures
            r@ == "deribit"@,
    {
        "deribit"
    }

    /// WebSocket endpoint URL (the `testnet` argument decides).
    pub fn endpoint(&self, account_type: AccountType, testnet: bool) -> (r: &'static str)
        ensures
            r@ == (if testnet { "wss://test.deribit.com/ws/api/v2"@ } else { "wss://www.deribit.com/ws/api/v2"@ }),
    {
        if testnet {
            "wss://test.deribit.com/ws/api/v2"
        } else {
            "wss://www.deribit.com/ws/api/v2"
        }
    }

    /// Seconds between client pings.
    pub fn ping_interval(&self) -> (r: u64)
        ensures
            r == 30,
    {
        30
    }

    /// Seconds to wait for the auth response.
    pub fn auth_ack_timeout(&self) -> (r: u64)
        ensures
            r == 5,
    {
        5
    }

    /// JSON-RPC `public/test` ping; consumes one request id.
    pub fn ping_frame(&mut self) -> (r: Option<Message>)
        ensures
            r matches Some(Message::Text(t)) && t@ == json_text(ping_frame_value(old(self).id_counter())),
            final(self).id_counter() == next_counter(old(self).id_counter()),
            final(self).account() == old(self).account(),
            final(self).on_testnet() == old(self).on_testnet(),
    {
        let id = self.next_id();
        let frame = Json::Object(rpc_envelope(id, "public/test"));
        Some(Message::Text(to_text(&frame)))
    }

    pub fn subscribe_frame(&mut self, spec: &StreamSpec) -> (r: Result<Message, WebSocketError>)
        ensures
            match r {
                Ok(m) => spec_channel(*spec) is Some && m == Message::Text(m->Text_0)
                    && m->Text_0@ == json_text(
                    subscription_frame(
                        old(self).id_counter(),
                        subscription_method(true, spec.kind),
                        frame_channels(spec_channel(*spec)->0),
                    ),
                ) && final(self).id_counter() == next_counter(old(self).id_counter())
                    && final(self).account() == old(self).account()
                    && final(self).on_testnet() == old(self).on_testnet(),
                Err(e) => spec_channel(*spec) is None && e is UnsupportedOperation
                    && e->UnsupportedOperation_0@ == "deribit: unsupported stream kind "@ + kind_label(kind_view(spec.kind))
                    && *final(self) == *old(self),
            },
    {
        self.build_sub_frame(true, spec)
    }

    pub fn unsubscribe_frame(&mut self, spec: &StreamSpec) -> (r: Result<Message, WebSocketError>)
        ensures
            match r {
                Ok(m) => spec_channel(*spec) is Some && m == Message::Text(m->Text_0)
                    && m->Text_0@ == json_text(
                    subscription_frame(
                        old(self).id_counter(),
                        subscription_method(false, spec.kind),
                        frame_channels(spec_channel(*spec)->0),
                    ),
                ) && final(self).id_counter() == next_counter(old(self).id_counter())
                    && final(self).account() == old(self).account()
                    && final(self).on_testnet() == old(self).on_testnet(),
                Err(e) => spec_channel(*spec) is None && e is UnsupportedOperation
                    && e->UnsupportedOperation_0@ == "deribit: unsupported stream kind "@ + kind_label(kind_view(spec.kind))
                    && *final(self) == *old(self),
            },
    {
        self.build_sub_frame(false, spec)
    }

    /// `public/auth` with the client-credentials grant; consumes one request id.
    pub fn auth_frame(&mut self, credentials: &Credentials) -> (r: Option<Result<Message, WebSocketError>>)
        ensures
            r matches Some(Ok(Message::Text(t))) && t@ == json_text(
                auth_frame_value(old(self).id_counter(), credentials.api_key@, credentials.api_secret@),
            ),
            final(self).id_counter() == next_counter(old(self).id_counter()),
            final(self).account() == old(self).account(),
            final(self).on_testnet() == old(self).on_testnet(),
    {
        let id = self.next_id();
        let mut params: Vec<(String, Json)> = Vec::new();
        push_member(&mut params, "grant_type", Json::string("client_credentials"));
        push_member(&mut params, "client_id", Json::string(credentials.api_key.as_str()));
        push_member(&mut params, "client_secret", Json::string(credentials.api_secret.as_str()));
        let ghost pv = seq![
            ("grant_type"@, JsonV::Str("client_credentials"@)),
            ("client_id"@, JsonV::Str(credentials.api_key@)),
            ("client_secret"@, JsonV::Str(credentials.api_secret@)),
        ];
        assert(members_view(params@) =~= pv);
        let ps = Json::Object(params);
        assert(ps@ == JsonV::Object(pv));
        let mut members = rpc_envelope(id, "public/auth");
        push_member(&mut members, "params", ps);
        let frame = Json::Object(members);
        assert(frame@ == auth_frame_value(id, credentials.api_key@, credentials.api_secret@));
        Some(Ok(Message::Text(to_text(&frame))))
    }

    pub fn is_auth_ack(&self, raw: &Json) -> (r: bool)
        ensures
            r == spec_is_auth_ack(raw@),
    {
        match raw.get("result") {
            Some(res) => res.get("access_token").is_some(),
            None => false,
        }
    }

    pub fn is_pong(&self, raw: &Json) -> (r: bool)
        ensures
            r == spec_is_pong(raw@),
    {
        if raw.get("id").is_some() {
            if let Some(result) = raw.get("result") {
                if result.get("version").is_some() {
                    return true;
                }
                if result.is_array() {
                    return false;
                }
            }
        }
        false
    }

    pub fn is_subscribe_ack(&self, raw: &Json) -> (r: bool)
        ensures
            r == spec_is_subscribe_ack(raw@),
    {
        if raw.get("id").is_some() {
            if let Some(result) = raw.get("result") {
                if let Some(arr) = result.as_array() {
                    let ghost iv = items_view(arr@);
                    proof { crate::common::json::lemma_items_view(arr@); }
                    for i in 0..arr.len()
                        invariant
                            iv == items_view(arr@),
                            member(raw@, "id"@) is Some,
                            member(raw@, "result"@) == Some(JsonV::Array(iv)),
                            iv.len() == arr@.len(),
                            forall|k: int| 0 <= k < arr@.len() ==> #[trigger] iv[k] == arr@[k]@,
                            forall|k: int| 0 <= k < i ==> (#[trigger] iv[k]) is Str,
                    {
                        if !arr[i].is_string() {
                            assert(!(iv[i as int] is Str));
                            return false;
                        }
                    }
                    return true;
                }
                if result.is_null() {
                    return true;
                }
            }
        }
        false
    }

    /// Routing key of a data frame; `None` for heartbeats, acks and responses.
    pub fn extract_topic(&self, raw: &Json) -> (r: Option<TopicKey>)
        ensures
            match r {
                Some(t) => spec_topic(raw@) == Some(t.key@),
                None => spec_topic(raw@) is None,
            },
    {
        let method = raw.get_str("method");
        if let Some(m) = method {
            if crate::common::text::str_eq(m, "heartbeat") {
                return None;
            }
            if crate::common::text::str_eq(m, "subscription") {
                let channel = match raw.get("params") {
                    Some(p) => p.get_str("channel"),
                    None => None,
                };
                return match channel {
                    Some(c) => Some(TopicKey::new(c)),
                    None => None,
                };
            }
        }
        None
    }

    /// The registry (a single one: the channel namespace does not split by account type).
    pub fn topic_registry(&self, account_type: AccountType) -> (r: TopicRegistry)
        ensures
            r.view_entries() == registry_entries(),
    {
        build_registry()
    }

    /// Kinds that need an authenticated connection.
    pub fn requires_auth_kinds(&self, account_type: AccountType) -> (r: Vec<StreamKind>)
        ensures
            r@.len() == 3,
            kind_view(r@[0]) == KindV::OrderUpdate,
            kind_view(r@[1]) == KindV::BalanceUpdate,
            kind_view(r@[2]) == KindV::PositionUpdate,
    {
        vec![StreamKind::OrderUpdate, StreamKind::BalanceUpdate, StreamKind::PositionUpdate]
    }
}


// ─────────────────────────────────────────────────────────────────────────────
// Laws
// ─────────────────────────────────────────────────────────────────────────────

/// The wire resolution of any interval holds no wildcard.
pub proof fn lemma_resolution_star_free(interval: Seq<char>)
    ensures
        star_free(resolution_of(interval)),
{
    if is_text2(interval, '1', 'm') {
        assert(!seq!['1'].contains('*'));
    } else if is_text2(interval, '3', 'm') {
        assert(!seq!['3'].contains('*'));
    } else if is_text2(interval, '5', 'm') {
        assert(!seq!['5'].contains('*'));
    } else if is_text3(interval, '1', '0', 'm') {
        assert(!seq!['1', '0'].contains('*'));
    } else if is_text3(interval, '1', '5', 'm') {
        assert(!seq!['1', '5'].contains('*'));
    } else if is_text3(interval, '3', '0', 'm') {
        assert(!seq!['3', '0'].contains('*'));
    } else if is_text2(interval, '1', 'h') {
        assert(!seq!['6', '0'].contains('*'));
    } else if is_text2(interval, '2', 'h') {
        assert(!seq!['1', '2', '0'].contains('*'));
    } else if is_text2(interval, '3', 'h') {
        assert(!seq!['1', '8', '0'].contains('*'));
    } else if is_text2(interval, '6', 'h') {
        assert(!seq!['3', '6', '0'].contains('*'));
    } else if is_text3(interval, '1', '2', 'h') {
        assert(!seq!['7', '2', '0'].contains('*'));
    } else if is_text2(interval, '1', 'd') {
        assert(!seq!['1', 'D'].contains('*'));
    } else {
        assert(!seq!['6', '0'].contains('*'));
    }
}

/// What a subscription asks for is what the registry routes back: the
/// channel Deribit names for a kind (other than the comma-joined balance
/// channels, for which see `lemma_balance_channels_routed`) is matched by a
/// registry pattern registered for that same kind.
/// Klines need an interval that has a Deribit resolution.
pub proof fn lemma_channel_routed(kind: StreamKind, instrument: Seq<char>, base_lower: Seq<char>)
    requires
        channel_for(kind, instrument, base_lower) is Some,
        !(kind is BalanceUpdate),
        kind matches StreamKind::Kline { interval } ==> known_interval(interval.value@),
    ensures
        routes_kind(registry_entries(), kind_view(kind), channel_for(kind, instrument, base_lower)->0),
{
    let ch = channel_for(kind, instrument, base_lower)->0;
    assert(registry_head().len() == 11);
    assert(registry_klines().len() == 12);
    assert(registry_tail().len() == 11);
    match kind {
        StreamKind::Ticker => {
        reveal_strlit("ticker.*.100ms");
        reveal_strlit("ticker.");
        reveal_strlit(".100ms");
        assert("ticker.*.100ms"@ =~= "ticker."@ + seq!['*'] + ".100ms"@);
        assert(star_free("ticker."@));
        assert(star_free(".100ms"@));
        lemma_glob_split("ticker.*.100ms"@, "ticker."@, instrument, ".100ms"@);
        assert(registry_entries()[7] == registry_head()[7] || registry_entries()[7] == registry_tail()[0]);
        assert(registry_entries()[7].0 == KindV::Ticker && glob_match(registry_entries()[7].2, ch));
        },
        StreamKind::Trade => {
        reveal_strlit("trades.*.100ms");
        reveal_strlit("trades.");
        reveal_strlit(".100ms");
        assert("trades.*.100ms"@ =~= "trades."@ + seq!['*'] + ".100ms"@);
        assert(star_free("trades."@));
        assert(star_free(".100ms"@));
        lemma_glob_split("trades.*.100ms"@, "trades."@, instrument, ".100ms"@);
        assert(registry_entries()[5] == registry_head()[5] || registry_entries()[5] == registry_tail()[0]);
        assert(registry_entries()[5].0 == KindV::Trade && glob_match(registry_entries()[5].2, ch));
        },
        StreamKind::Orderbook => {
        reveal_strlit("book.*.100ms");
        reveal_strlit("book.");
        reveal_strlit(".100ms");
        assert("book.*.100ms"@ =~= "book."@ + seq!['*'] + ".100ms"@);
        assert(star_free("book."@));
        assert(star_free(".100ms"@));
        lemma_glob_split("book.*.100ms"@, "book."@, instrument, ".100ms"@);
        assert(registry_entries()[1] == registry_head()[1] || registry_entries()[1] == registry_tail()[0]);
        assert(registry_entries()[1].0 == KindV::Orderbook && glob_match(registry_entries()[1].2, ch));
        },
        StreamKind::OrderbookDelta => {
        reveal_strlit("book.*.100ms");
        reveal_strlit("book.");
        reveal_strlit(".100ms");
        assert("book.*.100ms"@ =~= "book."@ + seq!['*'] + ".100ms"@);
        assert(star_free("book."@));
        assert(star_free(".100ms"@));
        lemma_glob_split("book.*.100ms"@, "book."@, instrument, ".100ms"@);
        assert(registry_entries()[3] == registry_head()[3] || registry_entries()[3] == registry_tail()[0]);
        assert(registry_entries()[3].0 == KindV::OrderbookDelta && glob_match(registry_entries()[3].2, ch));
        },
        StreamKind::OptionGreeks => {
        reveal_strlit("ticker.*.100ms");
        reveal_strlit("ticker.");
        reveal_strlit(".100ms");
        assert("ticker.*.100ms"@ =~= "ticker."@ + seq!['*'] + ".100ms"@);
        assert(star_free("ticker."@));
        assert(star_free(".100ms"@));
        lemma_glob_split("ticker.*.100ms"@, "ticker."@, instrument, ".100ms"@);
        assert(registry_entries()[9] == registry_head()[9] || registry_entries()[9] == registry_tail()[0]);
        assert(registry_entries()[9].0 == KindV::OptionGreeks && glob_match(registry_entries()[9].2, ch));
        },
        StreamKind::MarkPrice => {
        reveal_strlit("mark_price.*");
        reveal_strlit("mark_price.");
        assert("mark_price.*"@ =~= "mark_price."@ + seq!['*'] + Seq::<char>::empty());
        assert(star_free("mark_price."@));
        lemma_glob_split("mark_price.*"@, "mark_price."@, instrument, Seq::<char>::empty());
        assert(ch =~= "mark_price."@ + instrument + Seq::<char>::empty());
        assert(registry_entries()[23] == registry_head()[23] || registry_entries()[23] == registry_tail()[0]);
        assert(registry_entries()[23].0 == KindV::MarkPrice && glob_match(registry_entries()[23].2, ch));
        },
        StreamKind::FundingRate => {
        reveal_strlit("perpetual.*.100ms");
        reveal_strlit("perpetual.");
        reveal_strlit(".100ms");
        assert("perpetual.*.100ms"@ =~= "perpetual."@ + seq!['*'] + ".100ms"@);
        assert(star_free("perpetual."@));
        assert(star_free(".100ms"@));
        lemma_glob_split("perpetual.*.100ms"@, "perpetual."@, instrument, ".100ms"@);
        assert(registry_entries()[25] == registry_head()[25] || registry_entries()[25] == registry_tail()[2]);
        assert(registry_entries()[25].0 == KindV::FundingRate && glob_match(registry_entries()[25].2, ch));
        },
        StreamKind::IndexPrice => {
        reveal_strlit("deribit_price_index.*");
        reveal_strlit("deribit_price_index.");
        assert("deribit_price_index.*"@ =~= "deribit_price_index."@ + seq!['*'] + Seq::<char>::empty());
        assert(star_free("deribit_price_index."@));
        lemma_glob_split("deribit_price_index.*"@, "deribit_price_index."@, base_lower + "_usd"@, Seq::<char>::empty());
        assert(ch =~= "deribit_price_index."@ + (base_lower + "_usd"@) + Seq::<char>::empty());
        assert(registry_entries()[26] == registry_head()[26] || registry_entries()[26] == registry_tail()[3]);
        assert(registry_entries()[26].0 == KindV::IndexPrice && glob_match(registry_entries()[26].2, ch));
        },
        StreamKind::VolatilityIndex => {
        reveal_strlit("deribit_volatility_index.*");
        reveal_strlit("deribit_volatility_index.");
        assert("deribit_volatility_index.*"@ =~= "deribit_volatility_index."@ + seq!['*'] + Seq::<char>::empty());
        assert(star_free("deribit_volatility_index."@));
        lemma_glob_split("deribit_volatility_index.*"@, "deribit_volatility_index."@, base_lower + "_usd"@, Seq::<char>::empty());
        assert(ch =~= "deribit_volatility_index."@ + (base_lower + "_usd"@) + Seq::<char>::empty());
        assert(registry_entries()[28] == registry_head()[28] || registry_entries()[28] == registry_tail()[5]);
        assert(registry_entries()[28].0 == KindV::VolatilityIndex && glob_match(registry_entries()[28].2, ch));
        },
        StreamKind::OrderUpdate => {
        reveal_strlit("user.orders.any.any.raw");
        reveal_strlit("any.any.raw");
        reveal_strlit("user.orders.*");
        reveal_strlit("user.orders.");
        assert("user.orders.*"@ =~= "user.orders."@ + seq!['*'] + Seq::<char>::empty());
        assert(star_free("user.orders."@));
        lemma_glob_split("user.orders.*"@, "user.orders."@, "any.any.raw"@, Seq::<char>::empty());
        assert(ch =~= "user.orders."@ + "any.any.raw"@ + Seq::<char>::empty());
        assert(registry_entries()[30] == registry_head()[30] || registry_entries()[30] == registry_tail()[7]);
        assert(registry_entries()[30].0 == KindV::OrderUpdate && glob_match(registry_entries()[30].2, ch));
        },
        StreamKind::PositionUpdate => {
        reveal_strlit("user.changes.any.any.raw");
        reveal_strlit("any.any.raw");
        reveal_strlit("user.changes.*");
        reveal_strlit("user.changes.");
        assert("user.changes.*"@ =~= "user.changes."@ + seq!['*'] + Seq::<char>::empty());
        assert(star_free("user.changes."@));
        lemma_glob_split("user.changes.*"@, "user.changes."@, "any.any.raw"@, Seq::<char>::empty());
        assert(ch =~= "user.changes."@ + "any.any.raw"@ + Seq::<char>::empty());
        assert(registry_entries()[32] == registry_head()[32] || registry_entries()[32] == registry_tail()[9]);
        assert(registry_entries()[32].0 == KindV::PositionUpdate && glob_match(registry_entries()[32].2, ch));
        },
        StreamKind::BlockTrade => {
            reveal_strlit("block_trade_confirmations");
            assert(star_free("block_trade_confirmations"@));
            lemma_glob_self("block_trade_confirmations"@);
            assert(registry_entries()[33] == registry_tail()[10]);
            assert(registry_entries()[33].0 == KindV::BlockTrade && glob_match(registry_entries()[33].2, ch));
        },
        StreamKind::Kline { interval } => {
            let iv = interval.value@;
            lemma_interval_round_trip(iv);
            let res = resolution_of(iv);
            let k = choose|k: int| 0 <= k < kline_resolutions().len() && kline_resolutions()[k] == res;
            lemma_resolution_star_free(iv);
            reveal_strlit("chart.trades.*.");
            reveal_strlit("chart.trades.");
            reveal_strlit(".");
            assert(star_free("chart.trades."@));
            assert(star_free("."@ + res)) by {
                if ("."@ + res).contains('*') {
                    let j = choose|j: int| 0 <= j < ("."@ + res).len() && ("."@ + res)[j] == '*';
                    if j == 0 {
                    } else {
                        assert(res[j - 1] == '*');
                        assert(res.contains('*'));
                    }
                }
            }
            let pat = "chart.trades.*."@ + res;
            assert(pat =~= "chart.trades."@ + seq!['*'] + ("."@ + res));
            lemma_glob_split(pat, "chart.trades."@, instrument, "."@ + res);
            assert(ch =~= "chart.trades."@ + instrument + ("."@ + res));
            let j = 11 + k;
            assert(registry_entries()[j] == registry_klines()[k]);
            assert(registry_entries()[j].0 == KindV::Kline(iv) && glob_match(registry_entries()[j].2, ch));
        },
        _ => {},
    }
}

/// Request ids count up by one: each `next_id` hands out the id after the
/// previous one, until the counter wraps at `u64::MAX`.
pub proof fn lemma_counter_increases(c: u64)
    requires
        c < u64::MAX,
    ensures
        next_counter(c) == c + 1,
        next_counter(c) > c,
{
}

/// Only `"subscription"` notifications route: JSON-RPC responses (subscribe
/// acks, `public/test` replies, auth results) and heartbeats carry no topic.
pub proof fn lemma_only_notifications_have_topics(raw: JsonV)
    ensures
        str_member(raw, "method"@) != Some("subscription"@) ==> spec_topic(raw) is None,
        spec_topic(raw) is Some ==> str_member(raw, "method"@) == Some("subscription"@),
{
}

/// A portfolio channel `user.portfolio.<CUR>` is kept whole by the split and
/// the trim, and routed to `BalanceUpdate`.
proof fn lemma_portfolio_piece(cur: Seq<char>)
    requires
        cur.len() > 0,
        !cur.contains(','),
        !cur.contains('*'),
        'A' <= cur.last() <= 'Z',
    ensures
        str_trim("user.portfolio."@ + cur) == "user.portfolio."@ + cur,
        glob_match("user.portfolio.*"@, "user.portfolio."@ + cur),
        !("user.portfolio."@ + cur).contains(','),
{
    reveal_strlit("user.portfolio.");
    reveal_strlit("user.portfolio.*");
    let p = "user.portfolio."@ + cur;
    assert(p[0] == 'u');
    assert(trim_start(p) == p);
    assert(p.last() == cur.last());
    assert(trim_end(p) == p);
    assert("user.portfolio.*"@ =~= "user.portfolio."@ + seq!['*'] + Seq::<char>::empty());
    assert(star_free("user.portfolio."@));
    assert(star_free(Seq::<char>::empty()));
    lemma_glob_split("user.portfolio.*"@, "user.portfolio."@, cur, Seq::<char>::empty());
    assert(p + Seq::<char>::empty() =~= p);
    assert(!p.contains(',')) by {
        if p.contains(',') {
            let i = choose|i: int| 0 <= i < p.len() && p[i] == ',';
            if i >= 15 {
                assert(cur[i - 15] == ',');
            }
        }
    }
}

/// The balance subscription asks for one portfolio channel per settlement
/// currency (the comma-joined list, split and trimmed), and the registry
/// routes each of them back to `BalanceUpdate`.
pub proof fn lemma_balance_channels_routed()
    ensures
        frame_channels(balance_channels()).len() == 5,
        forall|i: int|
            0 <= i < 5 ==> routes_kind(
                registry_entries(),
                KindV::BalanceUpdate,
                #[trigger] frame_channels(balance_channels())[i],
            ),
{
    reveal_strlit("user.portfolio.BTC,user.portfolio.ETH,user.portfolio.USDC,user.portfolio.USDT,user.portfolio.SOL");
    reveal_strlit("user.portfolio.");
    let curs = seq![seq!['B', 'T', 'C'], seq!['E', 'T', 'H'], seq!['U', 'S', 'D', 'C'], seq!['U', 'S', 'D', 'T'], seq!['S', 'O', 'L']];
    let ps = curs.map_values(|c: Seq<char>| "user.portfolio."@ + c);
    assert forall|i: int| 0 <= i < 5 implies !(#[trigger] curs[i]).contains(',') && !curs[i].contains('*') by {
        assert(curs[i].len() <= 4);
        if curs[i].contains(',') {
            let j = choose|j: int| 0 <= j < curs[i].len() && curs[i][j] == ',';
        }
        if curs[i].contains('*') {
            let j = choose|j: int| 0 <= j < curs[i].len() && curs[i][j] == '*';
        }
    }
    assert forall|i: int| 0 <= i < 5 implies str_trim(#[trigger] ps[i]) == ps[i] && glob_match("user.portfolio.*"@, ps[i])
        && !ps[i].contains(',') by {
        lemma_portfolio_piece(curs[i]);
    }
    let joined = ps[0] + seq![','] + (ps[1] + seq![','] + (ps[2] + seq![','] + (ps[3] + seq![','] + ps[4])));
    assert(balance_channels() =~= joined);
    lemma_split_single(ps[4], ',');
    lemma_split_single(ps[3], ',');
    lemma_split_single(ps[2], ',');
    lemma_split_single(ps[1], ',');
    lemma_split_single(ps[0], ',');
    lemma_split_join(ps[3], ps[4], ',');
    lemma_split_join(ps[2], ps[3] + seq![','] + ps[4], ',');
    lemma_split_join(ps[1], ps[2] + seq![','] + (ps[3] + seq![','] + ps[4]), ',');
    lemma_split_join(ps[0], ps[1] + seq![','] + (ps[2] + seq![','] + (ps[3] + seq![','] + ps[4])), ',');
    let pieces = split_on(balance_channels(), ',');
    assert(pieces =~= ps);
    let fc = frame_channels(balance_channels());
    assert(registry_head().len() == 11);
    assert(registry_klines().len() == 12);
    let e = registry_entries()[31];
    assert(e == registry_tail()[8]);
    assert(e.0 == KindV::BalanceUpdate);
    assert forall|i: int| 0 <= i < 5 implies routes_kind(registry_entries(), KindV::BalanceUpdate, #[trigger] fc[i]) by {
        assert(fc[i] == str_trim(ps[i]));
        assert(glob_match(registry_entries()[31].2, fc[i]));
    }
}

/// Every Deribit market channel names its instrument: the channel holds
/// `.` + instrument name after its channel family.
pub proof fn lemma_channel_names_instrument(kind: StreamKind, instrument: Seq<char>, base_lower: Seq<char>)
    requires
        kind is Ticker || kind is Trade || kind is Orderbook || kind is OrderbookDelta || kind is Kline
            || kind is MarkPrice || kind is FundingRate || kind is OptionGreeks,
    ensures
        channel_for(kind, instrument, base_lower) is Some,
        crate::common::text::text_contains(channel_for(kind, instrument, base_lower)->Some_0, "."@ + instrument),
{
    reveal_strlit("ticker.");
    reveal_strlit("ticker");
    reveal_strlit("trades.");
    reveal_strlit("trades");
    reveal_strlit("book.");
    reveal_strlit("book");
    reveal_strlit("chart.trades.");
    reveal_strlit("chart.trades");
    reveal_strlit("mark_price.");
    reveal_strlit("mark_price");
    reveal_strlit("perpetual.");
    reveal_strlit("perpetual");
    reveal_strlit(".");
    let ch = channel_for(kind, instrument, base_lower)->Some_0;
    let (a, c): (Seq<char>, Seq<char>) = match kind {
        StreamKind::Ticker => ("ticker"@, ".100ms"@),
        StreamKind::Trade => ("trades"@, ".100ms"@),
        StreamKind::Orderbook => ("book"@, ".100ms"@),
        StreamKind::OrderbookDelta => ("book"@, ".100ms"@),
        StreamKind::Kline { interval } => ("chart.trades"@, "."@ + resolution_of(interval.value@)),
        StreamKind::MarkPrice => ("mark_price"@, Seq::empty()),
        StreamKind::FundingRate => ("perpetual"@, ".100ms"@),
        _ => ("ticker"@, ".100ms"@),
    };
    assert(ch =~= a + ("."@ + instrument) + c);
    crate::common::text::lemma_contains_middle(a, "."@ + instrument, c);
}

} // verus!
