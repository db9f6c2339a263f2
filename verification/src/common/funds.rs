//! Deposit and withdrawal history: the filter a caller gives, the query a
//! connector sends for it, and the records read back from the reply.

use vstd::prelude::*;
use crate::common::text::{push_str, u64_text, decimal_text};
use crate::common::json::{Json, JsonV, member, str_member, json_i64};

verus! {

/// Which side of the funds history is asked for.
#[derive(Debug, Clone, Copy, PartialEq, Eq, Structural)]
pub enum FundsRecordType {
    Deposit,
    Withdrawal,
    Both,
}

/// A funds history filter; times in Unix milliseconds.
#[derive(Debug)]
pub struct FundsFilter {
    pub record_type: FundsRecordType,
    pub asset: Option<String>,
    pub start_time: Option<u64>,
    pub end_time: Option<u64>,
    pub limit: Option<u32>,
}

/// `k=v` pairs joined by `&`, in order, written as they are.
pub open spec fn joined(ps: Seq<(Seq<char>, Seq<char>)>) -> Seq<char>
    decreases ps.len(),
{
    if ps.len() == 0 {
        Seq::empty()
    } else {
        let head = joined(ps.drop_last());
        let sep: Seq<char> = if ps.len() > 1 { "&"@ } else { Seq::empty() };
        head + sep + ps.last().0 + "="@ + ps.last().1
    }
}

/// A one-pair list when the value is present, empty otherwise.
pub open spec fn opt_pair(k: Seq<char>, v: Option<Seq<char>>) -> Seq<(Seq<char>, Seq<char>)> {
    match v {
        Some(x) => seq![(k, x)],
        None => Seq::empty(),
    }
}

pub open spec fn opt_text_of(o: Option<String>) -> Option<Seq<char>> {
    match o {
        Some(s) => Some(s@),
        None => None,
    }
}

/// The decimal text of `n / div`, when present.
pub open spec fn opt_decimal_div(o: Option<u64>, div: nat) -> Option<Seq<char>> {
    match o {
        Some(n) => Some(decimal_text(n as nat / div)),
        None => None,
    }
}

/// The decimal text of the limit, capped at `cap`, when present.
pub open spec fn opt_capped(o: Option<u32>, cap: nat) -> Option<Seq<char>> {
    match o {
        Some(n) => Some(decimal_text(if n <= cap { n as nat } else { cap })),
        None => None,
    }
}

/// The query pairs of a funds filter, in the order they are written: asset,
/// start, end, limit; times divided by `div`, the limit capped at `cap`.
pub open spec fn funds_pairs(
    f: FundsFilter,
    asset_key: Seq<char>,
    start_key: Seq<char>,
    end_key: Seq<char>,
    limit_key: Seq<char>,
    div: nat,
    cap: nat,
) -> Seq<(Seq<char>, Seq<char>)> {
    opt_pair(asset_key, opt_text_of(f.asset)) + opt_pair(start_key, opt_decimal_div(f.start_time, div))
        + opt_pair(end_key, opt_decimal_div(f.end_time, div)) + opt_pair(limit_key, opt_capped(f.limit, cap))
}

pub open spec fn pairs_of(v: Seq<(String, String)>) -> Seq<(Seq<char>, Seq<char>)> {
    v.map_values(|p: (String, String)| (p.0@, p.1@))
}

fn push_pair(v: &mut Vec<(String, String)>, k: &str, x: String)
    ensures
        pairs_of(final(v)@) == pairs_of(old(v)@).push((k@, x@)),
{
    v.push((k.to_owned(), x));
    assert(pairs_of(v@) =~= pairs_of(old(v)@).push((k@, x@)));
}

/// The query pairs of a funds filter (see `funds_pairs`).
pub fn funds_query_pairs(
    f: &FundsFilter,
    asset_key: &str,
    start_key: &str,
    end_key: &str,
    limit_key: &str,
    div: u64,
    cap: u32,
) -> (r: Vec<(String, String)>)
    requires
        div > 0,
    ensures
        pairs_of(r@) == funds_pairs(*f, asset_key@, start_key@, end_key@, limit_key@, div as nat, cap as nat),
{
    let mut v: Vec<(String, String)> = Vec::new();
    if let Some(a) = &f.asset {
        push_pair(&mut v, asset_key, a.clone());
    }
    if let Some(s) = f.start_time {
        push_pair(&mut v, start_key, u64_text(s / div));
    }
    if let Some(e) = f.end_time {
        push_pair(&mut v, end_key, u64_text(e / div));
    }
    if let Some(l) = f.limit {
        let capped: u32 = if l <= cap { l } else { cap };
        push_pair(&mut v, limit_key, u64_text(capped as u64));
    }
    assert(pairs_of(v@) =~= funds_pairs(*f, asset_key@, start_key@, end_key@, limit_key@, div as nat, cap as nat));
    v
}

/// The pairs joined as `k=v&k=v`, written as they are.
pub fn join_pairs(v: &Vec<(String, String)>) -> (r: String)
    ensures
        r@ == joined(pairs_of(v@)),
{
    let mut out = String::new();
    let mut i: usize = 0;
    while i < v.len()
        invariant
            0 <= i <= v.len(),
            out@ == joined(pairs_of(v@).take(i as int)),
        decreases v.len() - i,
    {
        let ghost ps = pairs_of(v@).take(i as int + 1);
        assert(ps.drop_last() =~= pairs_of(v@).take(i as int));
        if i > 0 {
            push_str(&mut out, "&");
        }
        push_str(&mut out, v[i].0.as_str());
        push_str(&mut out, "=");
        push_str(&mut out, v[i].1.as_str());
        proof {
            reveal_strlit("&");
            reveal_strlit("=");
            let s: Seq<char> = if ps.len() > 1 { "&"@ } else { Seq::empty() };
            assert(joined(ps) == joined(ps.drop_last()) + s + ps.last().0 + "="@ + ps.last().1);
            assert(out@ =~= joined(ps));
        }
        i = i + 1;
    }
    assert(pairs_of(v@).take(v.len() as int) =~= pairs_of(v@));
    out
}

/// One deposit or withdrawal as read from a reply. The amount and fee are
/// kept as the text the exchange wrote.
#[derive(Debug)]
pub enum FundsRecord {
    Deposit {
        id: String,
        asset: String,
        amount: Option<String>,
        tx_hash: Option<String>,
        network: Option<String>,
        status: String,
        timestamp: i64,
    },
    Withdrawal {
        id: String,
        asset: String,
        amount: Option<String>,
        fee: Option<String>,
        address: String,
        tag: Option<String>,
        tx_hash: Option<String>,
        network: Option<String>,
        status: String,
        timestamp: i64,
    },
}

/// The view of a `FundsRecord`.
pub ghost enum FundsRecordV {
    Deposit {
        id: Seq<char>,
        asset: Seq<char>,
        amount: Option<Seq<char>>,
        tx_hash: Option<Seq<char>>,
        network: Option<Seq<char>>,
        status: Seq<char>,
        timestamp: int,
    },
    Withdrawal {
        id: Seq<char>,
        asset: Seq<char>,
        amount: Option<Seq<char>>,
        fee: Option<Seq<char>>,
        address: Seq<char>,
        tag: Option<Seq<char>>,
        tx_hash: Option<Seq<char>>,
        network: Option<Seq<char>>,
        status: Seq<char>,
        timestamp: int,
    },
}

pub open spec fn record_view(r: FundsRecord) -> FundsRecordV {
    match r {
        FundsRecord::Deposit { id, asset, amount, tx_hash, network, status, timestamp } => FundsRecordV::Deposit {
            id: id@,
            asset: asset@,
            amount: opt_text_of(amount),
            tx_hash: opt_text_of(tx_hash),
            network: opt_text_of(network),
            status: status@,
            timestamp: timestamp as int,
        },
        FundsRecord::Withdrawal { id, asset, amount, fee, address, tag, tx_hash, network, status, timestamp } => {
            FundsRecordV::Withdrawal {
                id: id@,
                asset: asset@,
                amount: opt_text_of(amount),
                fee: opt_text_of(fee),
                address: address@,
                tag: opt_text_of(tag),
                tx_hash: opt_text_of(tx_hash),
                network: opt_text_of(network),
                status: status@,
                timestamp: timestamp as int,
            }
        },
    }
}

pub open spec fn records_view(v: Seq<FundsRecord>) -> Seq<FundsRecordV> {
    v.map_values(|r: FundsRecord| record_view(r))
}

/// The string at `k`, or `d` when there is none.
pub open spec fn str_or(v: JsonV, k: Seq<char>, d: Seq<char>) -> Seq<char> {
    match str_member(v, k) {
        Some(s) => s,
        None => d,
    }
}

/// The string at `k` when there is one and it is not empty.
pub open spec fn nonempty_member(v: JsonV, k: Seq<char>) -> Option<Seq<char>> {
    match str_member(v, k) {
        Some(s) => if s.len() > 0 {
            Some(s)
        } else {
            None
        },
        None => None,
    }
}

/// The `i64` number at `k`.
pub open spec fn int_member(v: JsonV, k: Seq<char>) -> Option<int> {
    match member(v, k) {
        Some(m) => json_i64(m),
        None => None,
    }
}

/// A record read from `item`: deposits (also for `Both`) or withdrawals,
/// with the timestamp, transaction-id key and address the exchange's own
/// reading gives. Missing strings read as empty, a missing status as
/// `UNKNOWN`; empty hashes, networks and tags as absent.
pub open spec fn record_of(item: JsonV, deposit: bool, timestamp: int, tx_key: Seq<char>, address: Seq<char>) -> FundsRecordV {
    if deposit {
        FundsRecordV::Deposit {
            id: str_or(item, "id"@, Seq::empty()),
            asset: str_or(item, "currency"@, Seq::empty()),
            amount: str_member(item, "amount"@),
            tx_hash: nonempty_member(item, tx_key),
            network: nonempty_member(item, "chain"@),
            status: str_or(item, "status"@, "UNKNOWN"@),
            timestamp,
        }
    } else {
        FundsRecordV::Withdrawal {
            id: str_or(item, "id"@, Seq::empty()),
            asset: str_or(item, "currency"@, Seq::empty()),
            amount: str_member(item, "amount"@),
            fee: str_member(item, "fee"@),
            address,
            tag: nonempty_member(item, "memo"@),
            tx_hash: nonempty_member(item, tx_key),
            network: nonempty_member(item, "chain"@),
            status: str_or(item, "status"@, "UNKNOWN"@),
            timestamp,
        }
    }
}

/// The string at `k`, or `d`.
pub fn read_str_or(item: &Json, k: &str, d: &str) -> (r: String)
    ensures
        r@ == str_or(item@, k@, d@),
{
    match item.get_str(k) {
        Some(s) => s.to_owned(),
        None => d.to_owned(),
    }
}

/// The string at `k`.
pub fn read_str(item: &Json, k: &str) -> (r: Option<String>)
    ensures
        opt_text_of(r) == str_member(item@, k@),
{
    match item.get_str(k) {
        Some(s) => Some(s.to_owned()),
        None => None,
    }
}

/// The string at `k` when it is not empty.
pub fn read_nonempty(item: &Json, k: &str) -> (r: Option<String>)
    ensures
        opt_text_of(r) == nonempty_member(item@, k@),
{
    match item.get_str(k) {
        Some(s) => {
            if s.unicode_len() > 0 {
                Some(s.to_owned())
            } else {
                None
            }
        },
        None => None,
    }
}

/// The `i64` number at `k`.
pub fn read_i64(item: &Json, k: &str) -> (r: Option<i64>)
    ensures
        match r {
            Some(n) => int_member(item@, k@) == Some(n as int),
            None => int_member(item@, k@) is None,
        },
{
    match item.get(k) {
        Some(m) => m.as_i64(),
        None => None,
    }
}

/// The record `record_of` describes, with the timestamp and address given.
pub fn record_from(item: &Json, deposit: bool, timestamp: i64, tx_key: &str, address: String) -> (r: FundsRecord)
    ensures
        record_view(r) == record_of(item@, deposit, timestamp as int, tx_key@, address@),
{
    proof {
        reveal_strlit("UNKNOWN");
    }
    let id = read_str_or(item, "id", "");
    let asset = read_str_or(item, "currency", "");
    let amount = read_str(item, "amount");
    let tx_hash = read_nonempty(item, tx_key);
    let network = read_nonempty(item, "chain");
    let status = read_str_or(item, "status", "UNKNOWN");
    proof {
        reveal_strlit("");
    }
    assert(id@ == str_or(item@, "id"@, Seq::empty()));
    assert(status@ == str_or(item@, "status"@, "UNKNOWN"@));
    assert(opt_text_of(network) == nonempty_member(item@, "chain"@));
    if deposit {
        assert(asset@ == str_or(item@, "currency"@, Seq::empty()));
        assert(opt_text_of(amount) == str_member(item@, "amount"@));
        assert(opt_text_of(tx_hash) == nonempty_member(item@, tx_key@));
        let r = FundsRecord::Deposit { id, asset, amount, tx_hash, network, status, timestamp };
        assert(record_view(r) == FundsRecordV::Deposit {
            id: id@,
            asset: asset@,
            amount: opt_text_of(amount),
            tx_hash: opt_text_of(tx_hash),
            network: opt_text_of(network),
            status: status@,
            timestamp: timestamp as int,
        });
        assert(record_view(r) == record_of(item@, deposit, timestamp as int, tx_key@, address@));
        r
    } else {
        let fee = read_str(item, "fee");
        let tag = read_nonempty(item, "memo");
        FundsRecord::Withdrawal { id, asset, amount, fee, address, tag, tx_hash, network, status, timestamp }
    }
}

/// A transfer history filter; times in Unix milliseconds.
#[derive(Debug)]
pub struct TransferFilter {
    pub start_time: Option<u64>,
    pub end_time: Option<u64>,
    pub limit: Option<u32>,
}

/// The query pairs of a transfer filter: start, end, limit; times divided by
/// `div`, the limit capped at `cap`.
pub open spec fn transfer_pairs(f: TransferFilter, start_key: Seq<char>, end_key: Seq<char>, limit_key: Seq<char>, div: nat, cap: nat) -> Seq<(Seq<char>, Seq<char>)> {
    opt_pair(start_key, opt_decimal_div(f.start_time, div)) + opt_pair(end_key, opt_decimal_div(f.end_time, div))
        + opt_pair(limit_key, opt_capped(f.limit, cap))
}

/// The query pairs of a transfer filter (see `transfer_pairs`).
pub fn transfer_query_pairs(f: &TransferFilter, start_key: &str, end_key: &str, limit_key: &str, div: u64, cap: u32) -> (r: Vec<(String, String)>)
    requires
        div > 0,
    ensures
        pairs_of(r@) == transfer_pairs(*f, start_key@, end_key@, limit_key@, div as nat, cap as nat),
{
    let as_funds = FundsFilter {
        record_type: FundsRecordType::Both,
        asset: None,
        start_time: f.start_time,
        end_time: f.end_time,
        limit: f.limit,
    };
    let r = funds_query_pairs(&as_funds, "", start_key, end_key, limit_key, div, cap);
    assert(funds_pairs(as_funds, ""@, start_key@, end_key@, limit_key@, div as nat, cap as nat) =~= transfer_pairs(
        *f,
        start_key@,
        end_key@,
        limit_key@,
        div as nat,
        cap as nat,
    ));
    r
}

/// One transfer between accounts as read from a reply; the amount as the
/// text the exchange wrote.
#[derive(Debug)]
pub struct TransferRecord {
    pub transfer_id: String,
    pub status: String,
    pub asset: String,
    pub amount: Option<String>,
    pub timestamp: Option<i64>,
}

/// The view of a transfer record: id, status, asset, amount, time.
pub open spec fn transfer_view(t: TransferRecord) -> (Seq<char>, Seq<char>, Seq<char>, Option<Seq<char>>, Option<int>) {
    (
        t.transfer_id@,
        t.status@,
        t.asset@,
        opt_text_of(t.amount),
        match t.timestamp {
            Some(n) => Some(n as int),
            None => None,
        },
    )
}

pub open spec fn transfers_view(v: Seq<TransferRecord>) -> Seq<(Seq<char>, Seq<char>, Seq<char>, Option<Seq<char>>, Option<int>)> {
    v.map_values(|t: TransferRecord| transfer_view(t))
}

} // verus!
