//! Plain data types shared by every exchange protocol.

use vstd::prelude::*;

verus! {

/// Market / product line an account trades on.
#[derive(Clone, Copy, Debug, PartialEq, Eq, Structural)]
pub enum AccountType {
    Spot,
    Margin,
    FuturesCross,
    FuturesIsolated,
    Options,
}

/// Candle interval in the library's internal notation ("1m", "1h", "1d", ...).
#[derive(Debug)]
pub struct KlineInterval {
    pub value: String,
}

impl KlineInterval {
    pub fn new(value: &str) -> (r: Self)
        ensures
            r.value@ == value@,
    {
        KlineInterval { value: value.to_owned() }
    }

    pub fn as_str(&self) -> (r: &str)
        ensures
            r@ == self.value@,
    {
        self.value.as_str()
    }
}


/// Kind of market-data or account stream a subscription asks for.
#[derive(Debug)]
pub enum StreamKind {
    Ticker,
    Trade,
    AggTrade,
    Orderbook,
    OrderbookDelta,
    Kline { interval: KlineInterval },
    MarkPriceKline { interval: KlineInterval },
    IndexPriceKline { interval: KlineInterval },
    MarkPrice,
    FundingRate,
    IndexPrice,
    OpenInterest,
    Liquidation,
    OptionGreeks,
    VolatilityIndex,
    BlockTrade,
    SettlementEvent,
    MarketWarning,
    OrderUpdate,
    BalanceUpdate,
    PositionUpdate,
}

/// The view of a stream kind: intervals as character sequences.
pub ghost enum KindV {
    Ticker,
    Trade,
    AggTrade,
    Orderbook,
    OrderbookDelta,
    Kline(Seq<char>),
    MarkPriceKline(Seq<char>),
    IndexPriceKline(Seq<char>),
    MarkPrice,
    FundingRate,
    IndexPrice,
    OpenInterest,
    Liquidation,
    OptionGreeks,
    VolatilityIndex,
    BlockTrade,
    SettlementEvent,
    MarketWarning,
    OrderUpdate,
    BalanceUpdate,
    PositionUpdate,
}

pub open spec fn kind_view(k: StreamKind) -> KindV {
    match k {
        StreamKind::Ticker => KindV::Ticker,
        StreamKind::Trade => KindV::Trade,
        StreamKind::AggTrade => KindV::AggTrade,
        StreamKind::Orderbook => KindV::Orderbook,
        StreamKind::OrderbookDelta => KindV::OrderbookDelta,
        StreamKind::Kline { interval } => KindV::Kline(interval.value@),
        StreamKind::MarkPriceKline { interval } => KindV::MarkPriceKline(interval.value@),
        StreamKind::IndexPriceKline { interval } => KindV::IndexPriceKline(interval.value@),
        StreamKind::MarkPrice => KindV::MarkPrice,
        StreamKind::FundingRate => KindV::FundingRate,
        StreamKind::IndexPrice => KindV::IndexPrice,
        StreamKind::OpenInterest => KindV::OpenInterest,
        StreamKind::Liquidation => KindV::Liquidation,
        StreamKind::OptionGreeks => KindV::OptionGreeks,
        StreamKind::VolatilityIndex => KindV::VolatilityIndex,
        StreamKind::BlockTrade => KindV::BlockTrade,
        StreamKind::SettlementEvent => KindV::SettlementEvent,
        StreamKind::MarketWarning => KindV::MarketWarning,
        StreamKind::OrderUpdate => KindV::OrderUpdate,
        StreamKind::BalanceUpdate => KindV::BalanceUpdate,
        StreamKind::PositionUpdate => KindV::PositionUpdate,
    }
}

/// Two kinds are the same stream: same variant, and equal interval text where there is one.
pub open spec fn same_kind(a: StreamKind, b: StreamKind) -> bool {
    kind_view(a) == kind_view(b)
}

/// The variant name of a kind, as error messages show it.
pub open spec fn kind_label(k: KindV) -> Seq<char> {
    match k {
        KindV::Ticker => "Ticker"@,
        KindV::Trade => "Trade"@,
        KindV::AggTrade => "AggTrade"@,
        KindV::Orderbook => "Orderbook"@,
        KindV::OrderbookDelta => "OrderbookDelta"@,
        KindV::Kline(_) => "Kline"@,
        KindV::MarkPriceKline(_) => "MarkPriceKline"@,
        KindV::IndexPriceKline(_) => "IndexPriceKline"@,
        KindV::MarkPrice => "MarkPrice"@,
        KindV::FundingRate => "FundingRate"@,
        KindV::IndexPrice => "IndexPrice"@,
        KindV::OpenInterest => "OpenInterest"@,
        KindV::Liquidation => "Liquidation"@,
        KindV::OptionGreeks => "OptionGreeks"@,
        KindV::VolatilityIndex => "VolatilityIndex"@,
        KindV::BlockTrade => "BlockTrade"@,
        KindV::SettlementEvent => "SettlementEvent"@,
        KindV::MarketWarning => "MarketWarning"@,
        KindV::OrderUpdate => "OrderUpdate"@,
        KindV::BalanceUpdate => "BalanceUpdate"@,
        KindV::PositionUpdate => "PositionUpdate"@,
    }
}

/// Account-private streams (they need an authenticated connection).
pub open spec fn is_private_kind(k: StreamKind) -> bool {
    k is OrderUpdate || k is BalanceUpdate || k is PositionUpdate
}

impl StreamKind {
    pub fn is_private(&self) -> (r: bool)
        ensures
            r == is_private_kind(*self),
    {
        match self {
            StreamKind::OrderUpdate | StreamKind::BalanceUpdate | StreamKind::PositionUpdate => true,
            _ => false,
        }
    }

    /// The variant name, as error messages show it.
    pub fn label(&self) -> (r: &'static str)
        ensures
            r@ == kind_label(kind_view(*self)),
    {
        match self {
            StreamKind::Ticker => "Ticker",
            StreamKind::Trade => "Trade",
            StreamKind::AggTrade => "AggTrade",
            StreamKind::Orderbook => "Orderbook",
            StreamKind::OrderbookDelta => "OrderbookDelta",
            StreamKind::Kline { .. } => "Kline",
            StreamKind::MarkPriceKline { .. } => "MarkPriceKline",
            StreamKind::IndexPriceKline { .. } => "IndexPriceKline",
            StreamKind::MarkPrice => "MarkPrice",
            StreamKind::FundingRate => "FundingRate",
            StreamKind::IndexPrice => "IndexPrice",
            StreamKind::OpenInterest => "OpenInterest",
            StreamKind::Liquidation => "Liquidation",
            StreamKind::OptionGreeks => "OptionGreeks",
            StreamKind::VolatilityIndex => "VolatilityIndex",
            StreamKind::BlockTrade => "BlockTrade",
            StreamKind::SettlementEvent => "SettlementEvent",
            StreamKind::MarketWarning => "MarketWarning",
            StreamKind::OrderUpdate => "OrderUpdate",
            StreamKind::BalanceUpdate => "BalanceUpdate",
            StreamKind::PositionUpdate => "PositionUpdate",
        }
    }

    /// A fresh value describing the same stream.
    pub fn duplicate(&self) -> (r: StreamKind)
        ensures
            kind_view(r) == kind_view(*self),
    {
        match self {
            StreamKind::Ticker => StreamKind::Ticker,
            StreamKind::Trade => StreamKind::Trade,
            StreamKind::AggTrade => StreamKind::AggTrade,
            StreamKind::Orderbook => StreamKind::Orderbook,
            StreamKind::OrderbookDelta => StreamKind::OrderbookDelta,
            StreamKind::Kline { interval } => StreamKind::Kline {
                interval: KlineInterval::new(interval.as_str()),
            },
            StreamKind::MarkPriceKline { interval } => StreamKind::MarkPriceKline {
                interval: KlineInterval::new(interval.as_str()),
            },
            StreamKind::IndexPriceKline { interval } => StreamKind::IndexPriceKline {
                interval: KlineInterval::new(interval.as_str()),
            },
            StreamKind::MarkPrice => StreamKind::MarkPrice,
            StreamKind::FundingRate => StreamKind::FundingRate,
            StreamKind::IndexPrice => StreamKind::IndexPrice,
            StreamKind::OpenInterest => StreamKind::OpenInterest,
            StreamKind::Liquidation => StreamKind::Liquidation,
            StreamKind::OptionGreeks => StreamKind::OptionGreeks,
            StreamKind::VolatilityIndex => StreamKind::VolatilityIndex,
            StreamKind::BlockTrade => StreamKind::BlockTrade,
            StreamKind::SettlementEvent => StreamKind::SettlementEvent,
            StreamKind::MarketWarning => StreamKind::MarketWarning,
            StreamKind::OrderUpdate => StreamKind::OrderUpdate,
            StreamKind::BalanceUpdate => StreamKind::BalanceUpdate,
            StreamKind::PositionUpdate => StreamKind::PositionUpdate,
        }
    }

    /// Whether `self` and `other` describe the same stream.
    pub fn same_as(&self, other: &StreamKind) -> (r: bool)
        ensures
            r == same_kind(*self, *other),
    {
        match (self, other) {
            (StreamKind::Kline { interval: x }, StreamKind::Kline { interval: y }) => {
                crate::common::text::str_eq(x.as_str(), y.as_str())
            },
            (
                StreamKind::MarkPriceKline { interval: x },
                StreamKind::MarkPriceKline { interval: y },
            ) => crate::common::text::str_eq(x.as_str(), y.as_str()),
            (
                StreamKind::IndexPriceKline { interval: x },
                StreamKind::IndexPriceKline { interval: y },
            ) => crate::common::text::str_eq(x.as_str(), y.as_str()),
            (StreamKind::Kline { .. }, _) => false,
            (StreamKind::MarkPriceKline { .. }, _) => false,
            (StreamKind::IndexPriceKline { .. }, _) => false,
            (_, StreamKind::Kline { .. }) => false,
            (_, StreamKind::MarkPriceKline { .. }) => false,
            (_, StreamKind::IndexPriceKline { .. }) => false,
            (StreamKind::Ticker, StreamKind::Ticker) => true,
            (StreamKind::Trade, StreamKind::Trade) => true,
            (StreamKind::AggTrade, StreamKind::AggTrade) => true,
            (StreamKind::Orderbook, StreamKind::Orderbook) => true,
            (StreamKind::OrderbookDelta, StreamKind::OrderbookDelta) => true,
            (StreamKind::MarkPrice, StreamKind::MarkPrice) => true,
            (StreamKind::FundingRate, StreamKind::FundingRate) => true,
            (StreamKind::IndexPrice, StreamKind::IndexPrice) => true,
            (StreamKind::OpenInterest, StreamKind::OpenInterest) => true,
            (StreamKind::Liquidation, StreamKind::Liquidation) => true,
            (StreamKind::OptionGreeks, StreamKind::OptionGreeks) => true,
            (StreamKind::VolatilityIndex, StreamKind::VolatilityIndex) => true,
            (StreamKind::BlockTrade, StreamKind::BlockTrade) => true,
            (StreamKind::SettlementEvent, StreamKind::SettlementEvent) => true,
            (StreamKind::MarketWarning, StreamKind::MarketWarning) => true,
            (StreamKind::OrderUpdate, StreamKind::OrderUpdate) => true,
            (StreamKind::BalanceUpdate, StreamKind::BalanceUpdate) => true,
            (StreamKind::PositionUpdate, StreamKind::PositionUpdate) => true,
            _ => false,
        }
    }
}

/// The instrument a stream is about: a base/quote pair, or an exchange-native raw name.
#[derive(Debug)]
pub enum Symbol {
    Pair { base: String, quote: String },
    Raw(String),
}

/// Base asset: the pair's base, or the whole raw name.
pub open spec fn symbol_base(s: Symbol) -> Seq<char> {
    match s {
        Symbol::Pair { base, .. } => base@,
        Symbol::Raw(r) => r@,
    }
}

/// Quote asset: the pair's quote; empty for a raw name.
pub open spec fn symbol_quote(s: Symbol) -> Seq<char> {
    match s {
        Symbol::Pair { quote, .. } => quote@,
        Symbol::Raw(_) => Seq::empty(),
    }
}

/// Exchange-native text: the raw name, or the pair's base asset.
pub open spec fn symbol_text(s: Symbol) -> Seq<char> {
    match s {
        Symbol::Pair { base, .. } => base@,
        Symbol::Raw(r) => r@,
    }
}

impl Symbol {
    pub fn new(base: &str, quote: &str) -> (r: Symbol)
        ensures
            symbol_base(r) == base@,
            symbol_quote(r) == quote@,
            r is Pair,
    {
        Symbol::Pair { base: base.to_owned(), quote: quote.to_owned() }
    }

    pub fn raw(name: &str) -> (r: Symbol)
        ensures
            symbol_text(r) == name@,
            r is Raw,
    {
        Symbol::Raw(name.to_owned())
    }

    pub fn base(&self) -> (r: &str)
        ensures
            r@ == symbol_base(*self),
    {
        match self {
            Symbol::Pair { base, .. } => base.as_str(),
            Symbol::Raw(r) => r.as_str(),
        }
    }

    pub fn quote(&self) -> (r: &str)
        ensures
            r@ == symbol_quote(*self),
    {
        match self {
            Symbol::Pair { quote, .. } => quote.as_str(),
            Symbol::Raw(_) => {
                proof { reveal_strlit(""); }
                ""
            },
        }
    }

    pub fn as_str(&self) -> (r: &str)
        ensures
            r@ == symbol_text(*self),
    {
        match self {
            Symbol::Pair { base, .. } => base.as_str(),
            Symbol::Raw(r) => r.as_str(),
        }
    }
}

/// One subscription: what stream, on which instrument and account type.
#[derive(Debug)]
pub struct StreamSpec {
    pub kind: StreamKind,
    pub symbol: Symbol,
    pub account_type: AccountType,
    pub depth: Option<u32>,
    pub speed_ms: Option<u32>,
}

/// Why a frame could not be built or read.
#[derive(Debug)]
pub enum WebSocketError {
    UnsupportedOperation(String),
    NotSupported(String),
    Parse(String),
}

/// A WebSocket message.
#[derive(Debug)]
pub enum Message {
    Text(String),
    Binary(Vec<u8>),
}

/// Routing key of a data frame (the exchange's channel / topic name).
#[derive(Debug)]
pub struct TopicKey {
    pub key: String,
}

impl TopicKey {
    pub fn new(key: &str) -> (r: TopicKey)
        ensures
            r.key@ == key@,
    {
        TopicKey { key: key.to_owned() }
    }

    pub fn as_str(&self) -> (r: &str)
        ensures
            r@ == self.key@,
    {
        self.key.as_str()
    }
}

/// API key material.
#[derive(Debug)]
pub struct Credentials {
    pub api_key: String,
    pub api_secret: String,
    pub passphrase: Option<String>,
}

impl Credentials {
    pub fn new(api_key: &str, api_secret: &str) -> (r: Credentials)
        ensures
            r.api_key@ == api_key@,
            r.api_secret@ == api_secret@,
            r.passphrase is None,
    {
        Credentials { api_key: api_key.to_owned(), api_secret: api_secret.to_owned(), passphrase: None }
    }
}

/// What a ledger (account history) entry records.
#[derive(Debug)]
pub enum LedgerEntryType {
    Trade,
    Deposit,
    Withdrawal,
    Funding,
    Fee,
    Rebate,
    Transfer,
    Liquidation,
    Settlement,
    Other(String),
}

/// The view of a ledger entry type: the `Other` text as characters.
pub ghost enum LedgerEntryV {
    Trade,
    Deposit,
    Withdrawal,
    Funding,
    Fee,
    Rebate,
    Transfer,
    Liquidation,
    Settlement,
    Other(Seq<char>),
}

pub open spec fn ledger_view(t: LedgerEntryType) -> LedgerEntryV {
    match t {
        LedgerEntryType::Trade => LedgerEntryV::Trade,
        LedgerEntryType::Deposit => LedgerEntryV::Deposit,
        LedgerEntryType::Withdrawal => LedgerEntryV::Withdrawal,
        LedgerEntryType::Funding => LedgerEntryV::Funding,
        LedgerEntryType::Fee => LedgerEntryV::Fee,
        LedgerEntryType::Rebate => LedgerEntryV::Rebate,
        LedgerEntryType::Transfer => LedgerEntryV::Transfer,
        LedgerEntryType::Liquidation => LedgerEntryV::Liquidation,
        LedgerEntryType::Settlement => LedgerEntryV::Settlement,
        LedgerEntryType::Other(s) => LedgerEntryV::Other(s@),
    }
}

} // verus!
