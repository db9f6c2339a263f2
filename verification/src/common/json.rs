//! A JSON value model and its compact text form.
//!
//! `Json` is what the protocol code reads and builds; `JsonV` is its
//! mathematical view, over which every contract is stated.

use vstd::prelude::*;
use crate::common::text::{push_char, push_str};

verus! {

/// A JSON document held as plain values.  Numbers keep their literal text.
#[derive(Debug)]
pub enum Json {
    Null,
    Bool(bool),
    Number(String),
    Str(String),
    Array(Vec<Json>),
    Object(Vec<(String, Json)>),
}

/// The view of a `Json` value.
pub ghost enum JsonV {
    Null,
    Bool(bool),
    Number(Seq<char>),
    Str(Seq<char>),
    Array(Seq<JsonV>),
    Object(Seq<(Seq<char>, JsonV)>),
}

pub open spec fn json_view(j: Json) -> JsonV
    decreases j,
{
    match j {
        Json::Null => JsonV::Null,
        Json::Bool(b) => JsonV::Bool(b),
        Json::Number(t) => JsonV::Number(t@),
        Json::Str(s) => JsonV::Str(s@),
        Json::Array(items) => JsonV::Array(items_view(items@)),
        Json::Object(members) => JsonV::Object(members_view(members@)),
    }
}

pub open spec fn items_view(s: Seq<Json>) -> Seq<JsonV>
    decreases s,
{
    if s.len() == 0 {
        Seq::empty()
    } else {
        items_view(s.subrange(0, s.len() - 1)).push(json_view(s[s.len() - 1]))
    }
}

pub open spec fn members_view(s: Seq<(String, Json)>) -> Seq<(Seq<char>, JsonV)>
    decreases s,
{
    if s.len() == 0 {
        Seq::empty()
    } else {
        members_view(s.subrange(0, s.len() - 1)).push(
            (s[s.len() - 1].0@, json_view(s[s.len() - 1].1)),
        )
    }
}

impl View for Json {
    type V = JsonV;

    open spec fn view(&self) -> JsonV {
        json_view(*self)
    }
}


/// The view of an item list views each item in place.
pub proof fn lemma_items_view(s: Seq<Json>)
    ensures
        items_view(s).len() == s.len(),
        forall|i: int| 0 <= i < s.len() ==> #[trigger] items_view(s)[i] == json_view(s[i]),
    decreases s.len(),
{
    if s.len() > 0 {
        lemma_items_view(s.subrange(0, s.len() - 1));
    }
}

/// The view of a member list views each member in place.
pub proof fn lemma_members_view(s: Seq<(String, Json)>)
    ensures
        members_view(s).len() == s.len(),
        forall|i: int|
            0 <= i < s.len() ==> #[trigger] members_view(s)[i] == (s[i].0@, json_view(s[i].1)),
    decreases s.len(),
{
    if s.len() > 0 {
        lemma_members_view(s.subrange(0, s.len() - 1));
    }
}

// ---------------------------------------------------------------------------
// Text form (compact, as `serde_json::to_string` writes it)
// ---------------------------------------------------------------------------

/// Lower-case hexadecimal digit for `d < 16`.
pub open spec fn hex_digit(d: nat) -> char {
    if d < 10 {
        crate::common::text::digit_char(d)
    } else if d == 10 { 'a' }
    else if d == 11 { 'b' }
    else if d == 12 { 'c' }
    else if d == 13 { 'd' }
    else if d == 14 { 'e' }
    else { 'f' }
}

/// How one character of a string is written between the quotes.
pub open spec fn escape_char(c: char) -> Seq<char> {
    if c == '"' {
        seq!['\\', '"']
    } else if c == '\\' {
        seq!['\\', '\\']
    } else if c == '\n' {
        seq!['\\', 'n']
    } else if c == '\r' {
        seq!['\\', 'r']
    } else if c == '\t' {
        seq!['\\', 't']
    } else if c == '\x08' {
        seq!['\\', 'b']
    } else if c == '\x0c' {
        seq!['\\', 'f']
    } else if (c as u32) < 0x20 {
        seq!['\\', 'u', '0', '0', hex_digit((c as u32) as nat / 16), hex_digit((c as u32) as nat % 16)]
    } else {
        seq![c]
    }
}

pub open spec fn escape(s: Seq<char>) -> Seq<char>
    decreases s.len(),
{
    if s.len() == 0 {
        Seq::empty()
    } else {
        escape(s.drop_last()) + escape_char(s.last())
    }
}

/// A JSON string literal holding `s`.
pub open spec fn quoted(s: Seq<char>) -> Seq<char> {
    seq!['"'] + escape(s) + seq!['"']
}

/// Compact JSON text of a value: no whitespace, members in the order held.
pub open spec fn json_text(v: JsonV) -> Seq<char>
    decreases v,
{
    match v {
        JsonV::Null => seq!['n', 'u', 'l', 'l'],
        JsonV::Bool(b) => if b { seq!['t', 'r', 'u', 'e'] } else { seq!['f', 'a', 'l', 's', 'e'] },
        JsonV::Number(t) => t,
        JsonV::Str(s) => quoted(s),
        JsonV::Array(items) => seq!['['] + items_text(items) + seq![']'],
        JsonV::Object(members) => seq!['{'] + members_text(members) + seq!['}'],
    }
}

/// Items separated by commas.
pub open spec fn items_text(items: Seq<JsonV>) -> Seq<char>
    decreases items,
{
    if items.len() == 0 {
        Seq::empty()
    } else if items.len() == 1 {
        json_text(items[0])
    } else {
        items_text(items.subrange(0, items.len() - 1)) + seq![','] + json_text(items[items.len() - 1])
    }
}

/// `"key":value` members separated by commas.
pub open spec fn members_text(members: Seq<(Seq<char>, JsonV)>) -> Seq<char>
    decreases members,
{
    if members.len() == 0 {
        Seq::empty()
    } else if members.len() == 1 {
        quoted(members[0].0) + seq![':'] + json_text(members[0].1)
    } else {
        members_text(members.subrange(0, members.len() - 1)) + seq![','] + quoted(
            members[members.len() - 1].0,
        ) + seq![':'] + json_text(members[members.len() - 1].1)
    }
}


// ---------------------------------------------------------------------------
// Writing the text form
// ---------------------------------------------------------------------------

fn hex_char(d: u32) -> (c: char)
    requires
        d < 16,
    ensures
        c == hex_digit(d as nat),
{
    if d == 0 { '0' }
    else if d == 1 { '1' }
    else if d == 2 { '2' }
    else if d == 3 { '3' }
    else if d == 4 { '4' }
    else if d == 5 { '5' }
    else if d == 6 { '6' }
    else if d == 7 { '7' }
    else if d == 8 { '8' }
    else if d == 9 { '9' }
    else if d == 10 { 'a' }
    else if d == 11 { 'b' }
    else if d == 12 { 'c' }
    else if d == 13 { 'd' }
    else if d == 14 { 'e' }
    else { 'f' }
}

fn write_escaped_char(c: char, out: &mut String)
    ensures
        final(out)@ == old(out)@ + escape_char(c),
{
    let ghost start = out@;
    if c == '"' {
        push_char(out, '\\');
        push_char(out, '"');
    } else if c == '\\' {
        push_char(out, '\\');
        push_char(out, '\\');
    } else if c == '\n' {
        push_char(out, '\\');
        push_char(out, 'n');
    } else if c == '\r' {
        push_char(out, '\\');
        push_char(out, 'r');
    } else if c == '\t' {
        push_char(out, '\\');
        push_char(out, 't');
    } else if c == '\x08' {
        push_char(out, '\\');
        push_char(out, 'b');
    } else if c == '\x0c' {
        push_char(out, '\\');
        push_char(out, 'f');
    } else if (c as u32) < 0x20 {
        let u = c as u32;
        push_char(out, '\\');
        push_char(out, 'u');
        push_char(out, '0');
        push_char(out, '0');
        push_char(out, hex_char(u / 16));
        push_char(out, hex_char(u % 16));
    } else {
        push_char(out, c);
    }
    assert(out@ =~= start + escape_char(c));
}

/// Appends `s` as a JSON string literal.
pub fn write_quoted(s: &str, out: &mut String)
    ensures
        final(out)@ == old(out)@ + quoted(s@),
{
    let ghost start = out@;
    let v = crate::common::text::chars_of(s);
    push_char(out, '"');
    for i in 0..v.len()
        invariant
            v@ == s@,
            out@ == start + seq!['"'] + escape(v@.take(i as int)),
    {
        assert(v@.take(i + 1).drop_last() =~= v@.take(i as int));
        write_escaped_char(v[i], out);
    }
    assert(v@.take(v@.len() as int) =~= v@);
    push_char(out, '"');
    assert(out@ =~= start + quoted(s@));
}

/// Appends the compact text of `j`.
pub fn write_json(j: &Json, out: &mut String)
    ensures
        final(out)@ == old(out)@ + json_text(j@),
    decreases j,
{
    let ghost start = out@;
    match j {
        Json::Null => {
            proof { reveal_strlit("null"); }
            push_str(out, "null");
        },
        Json::Bool(b) => {
            if *b {
                proof { reveal_strlit("true"); }
                push_str(out, "true");
            } else {
                proof { reveal_strlit("false"); }
                push_str(out, "false");
            }
        },
        Json::Number(t) => {
            push_str(out, t.as_str());
        },
        Json::Str(s) => {
            write_quoted(s.as_str(), out);
        },
        Json::Array(items) => {
            let ghost vs = items_view(items@);
            proof { lemma_items_view(items@); }
            push_char(out, '[');
            for i in 0..items.len()
                invariant
                    vs == items_view(items@),
                    *j == Json::Array(*items),
                    vs.len() == items@.len(),
                    forall|k: int| 0 <= k < items@.len() ==> #[trigger] vs[k] == json_view(items@[k]),
                    out@ == start + seq!['['] + items_text(vs.take(i as int)),
            {
                assert(vs.take(i + 1).subrange(0, i as int) =~= vs.take(i as int));
                if i > 0 {
                    push_char(out, ',');
                }
                proof {
                    assert(decreases_to!(*items => items@));
                    assert(decreases_to!(items@ => items@[i as int]));
                    assert(decreases_to!(*j => j->Array_0));
                    assert(decreases_to!(*j => items@[i as int]));
                }
                write_json(&items[i], out);
            }
            assert(vs.take(items.len() as int) =~= vs);
            push_char(out, ']');
        },
        Json::Object(members) => {
            let ghost ms = members_view(members@);
            proof { lemma_members_view(members@); }
            push_char(out, '{');
            for i in 0..members.len()
                invariant
                    ms == members_view(members@),
                    *j == Json::Object(*members),
                    ms.len() == members@.len(),
                    forall|k: int|
                        0 <= k < members@.len() ==> #[trigger] ms[k] == (
                            members@[k].0@,
                            json_view(members@[k].1),
                        ),
                    out@ == start + seq!['{'] + members_text(ms.take(i as int)),
            {
                assert(ms.take(i + 1).subrange(0, i as int) =~= ms.take(i as int));
                if i > 0 {
                    push_char(out, ',');
                }
                write_quoted(members[i].0.as_str(), out);
                push_char(out, ':');
                proof {
                    assert(decreases_to!(*members => members@));
                    assert(decreases_to!(members@ => members@[i as int]));
                    assert(decreases_to!(members@[i as int] => members@[i as int].1));
                    assert(decreases_to!(*j => j->Object_0));
                    assert(decreases_to!(*j => members@[i as int].1));
                }
                write_json(&members[i].1, out);
            }
            assert(ms.take(members.len() as int) =~= ms);
            push_char(out, '}');
        },
    }
    assert(out@ =~= start + json_text(j@));
}

/// The compact JSON text of `j`.
pub fn to_text(j: &Json) -> (r: String)
    ensures
        r@ == json_text(j@),
{
    let mut out = String::new();
    write_json(j, &mut out);
    assert(out@ =~= json_text(j@));
    out
}


// ---------------------------------------------------------------------------
// Reading values
// ---------------------------------------------------------------------------

/// The value of the first member named `k` at index `i` or later.
pub open spec fn member_from(ms: Seq<(Seq<char>, JsonV)>, k: Seq<char>, i: int) -> Option<JsonV>
    decreases ms.len() - i,
{
    if i < 0 || i >= ms.len() {
        None
    } else if ms[i].0 == k {
        Some(ms[i].1)
    } else {
        member_from(ms, k, i + 1)
    }
}

/// `v[k]` for an object `v`: the first member named `k`; `None` for other values.
pub open spec fn member(v: JsonV, k: Seq<char>) -> Option<JsonV> {
    match v {
        JsonV::Object(ms) => member_from(ms, k, 0),
        _ => None,
    }
}

/// The characters of a string value.
pub open spec fn str_value(v: JsonV) -> Option<Seq<char>> {
    match v {
        JsonV::Str(s) => Some(s),
        _ => None,
    }
}

/// The string held at member `k`, if `v` has such a member and it is a string.
pub open spec fn str_member(v: JsonV, k: Seq<char>) -> Option<Seq<char>> {
    match member(v, k) {
        Some(m) => str_value(m),
        None => None,
    }
}

pub open spec fn view_opt(r: Option<&Json>) -> Option<JsonV> {
    match r {
        Some(x) => Some(x@),
        None => None,
    }
}

impl Json {
    /// `self[key]`: the first member named `key` of an object.
    pub fn get(&self, key: &str) -> (r: Option<&Json>)
        ensures
            view_opt(r) == member(self@, key@),
    {
        match self {
            Json::Object(members) => {
                let ghost ms = members_view(members@);
                proof { lemma_members_view(members@); }
                let mut i: usize = 0;
                while i < members.len()
                    invariant
                        ms == members_view(members@),
                        self@ == JsonV::Object(ms),
                        ms.len() == members@.len(),
                        forall|k: int|
                            0 <= k < members@.len() ==> #[trigger] ms[k] == (
                                members@[k].0@,
                                json_view(members@[k].1),
                            ),
                        0 <= i <= members.len(),
                        member_from(ms, key@, 0) == member_from(ms, key@, i as int),
                    decreases members.len() - i,
                {
                    if crate::common::text::str_eq(members[i].0.as_str(), key) {
                        return Some(&members[i].1);
                    }
                    i = i + 1;
                }
                None
            },
            _ => None,
        }
    }

    /// The characters of a string value.
    pub fn as_str(&self) -> (r: Option<&str>)
        ensures
            match r {
                Some(s) => str_value(self@) == Some(s@),
                None => str_value(self@) is None,
            },
    {
        match self {
            Json::Str(s) => Some(s.as_str()),
            _ => None,
        }
    }

    /// `self[key]` when it is a string.
    pub fn get_str(&self, key: &str) -> (r: Option<&str>)
        ensures
            match r {
                Some(s) => str_member(self@, key@) == Some(s@),
                None => str_member(self@, key@) is None,
            },
    {
        match self.get(key) {
            Some(m) => m.as_str(),
            None => None,
        }
    }

    pub fn is_array(&self) -> (r: bool)
        ensures
            r == (self@ is Array),
    {
        match self {
            Json::Array(_) => true,
            _ => false,
        }
    }

    pub fn is_null(&self) -> (r: bool)
        ensures
            r == (self@ is Null),
    {
        match self {
            Json::Null => true,
            _ => false,
        }
    }

    pub fn is_string(&self) -> (r: bool)
        ensures
            r == (self@ is Str),
    {
        match self {
            Json::Str(_) => true,
            _ => false,
        }
    }

    /// The items of an array value.
    pub fn as_array(&self) -> (r: Option<&Vec<Json>>)
        ensures
            match r {
                Some(items) => self@ == JsonV::Array(items_view(items@)),
                None => !(self@ is Array),
            },
    {
        match self {
            Json::Array(items) => Some(items),
            _ => None,
        }
    }

    /// A string value.
    pub fn string(s: &str) -> (r: Json)
        ensures
            r@ == JsonV::Str(s@),
    {
        Json::Str(s.to_owned())
    }

    /// A number value with the decimal notation of `n`.
    pub fn from_u64(n: u64) -> (r: Json)
        ensures
            r@ == JsonV::Number(crate::common::text::decimal_text(n as nat)),
    {
        Json::Number(crate::common::text::u64_text(n))
    }

    /// A number value with the decimal notation of `n`.
    pub fn from_i64(n: i64) -> (r: Json)
        ensures
            r@ == JsonV::Number(crate::common::text::signed_decimal_text(n as int)),
    {
        Json::Number(crate::common::text::i64_text(n))
    }
}

/// A decimal digit.
pub open spec fn is_digit(c: char) -> bool {
    '0' <= c <= '9'
}

pub open spec fn all_digits(s: Seq<char>) -> bool {
    forall|k: int| 0 <= k < s.len() ==> is_digit(#[trigger] s[k])
}

/// The value of a string of decimal digits.
pub open spec fn digits_value(s: Seq<char>) -> int
    decreases s.len(),
{
    if s.len() == 0 {
        0
    } else {
        10 * digits_value(s.drop_last()) + (s.last() as int - '0' as int)
    }
}

/// The integer a number literal writes: digits, a `-` before them when
/// negative; `None` for fractions, exponents and anything else.
pub open spec fn integer_text_value(t: Seq<char>) -> Option<int> {
    if t.len() > 0 && t[0] == '-' {
        if t.len() > 1 && all_digits(t.drop_first()) {
            Some(-digits_value(t.drop_first()))
        } else {
            None
        }
    } else if t.len() > 0 && all_digits(t) {
        Some(digits_value(t))
    } else {
        None
    }
}

/// A number value as an `i64`: an integer literal whose value fits.
pub open spec fn json_i64(v: JsonV) -> Option<int> {
    match v {
        JsonV::Number(t) => match integer_text_value(t) {
            Some(n) => if i64::MIN <= n <= i64::MAX {
                Some(n)
            } else {
                None
            },
            None => None,
        },
        _ => None,
    }
}

proof fn lemma_digits_prefix(s: Seq<char>, i: int)
    requires
        all_digits(s),
        0 <= i <= s.len(),
    ensures
        0 <= digits_value(s.take(i)) <= digits_value(s),
    decreases s.len(),
{
    if s.len() == 0 {
        assert(s.take(i) =~= s);
    } else if i == s.len() {
        assert(s.take(i) =~= s);
        lemma_digits_prefix(s.drop_last(), 0);
        assert(is_digit(s[s.len() - 1]));
    } else {
        lemma_digits_prefix(s.drop_last(), i);
        assert(s.drop_last().take(i) =~= s.take(i));
        assert(is_digit(s[s.len() - 1]));
    }
}

/// The value of the digits `v[start..]`, when they are all digits and the
/// value is at most `2^63`.
fn digits_upto(v: &Vec<char>, start: usize) -> (r: Option<u64>)
    requires
        start < v.len(),
    ensures
        match r {
            Some(n) => all_digits(v@.subrange(start as int, v.len() as int)) && n == digits_value(
                v@.subrange(start as int, v.len() as int),
            ) && n <= 9223372036854775808u64,
            None => !all_digits(v@.subrange(start as int, v.len() as int)) || digits_value(
                v@.subrange(start as int, v.len() as int),
            ) > 9223372036854775808u64,
        },
{
    let ghost full = v@.subrange(start as int, v.len() as int);
    let mut acc: u64 = 0;
    let mut i: usize = start;
    while i < v.len()
        invariant
            start <= i <= v.len(),
            full == v@.subrange(start as int, v.len() as int),
            all_digits(v@.subrange(start as int, i as int)),
            acc == digits_value(v@.subrange(start as int, i as int)),
            acc <= 9223372036854775808u64,
        decreases v.len() - i,
    {
        let c = v[i];
        if !('0' <= c && c <= '9') {
            proof {
                assert(full[i - start] == c);
            }
            return None;
        }
        let d: u64 = (c as u32 - '0' as u32) as u64;
        let ghost pre = v@.subrange(start as int, i as int + 1);
        assert(pre.drop_last() =~= v@.subrange(start as int, i as int));
        assert(all_digits(pre));
        if acc > 922337203685477580u64 || (acc == 922337203685477580u64 && d > 8) {
            proof {
                assert(digits_value(pre) > 9223372036854775808u64);
                if all_digits(full) {
                    assert(full.take(i - start + 1) =~= pre);
                    lemma_digits_prefix(full, i - start + 1);
                }
            }
            return None;
        }
        acc = acc * 10 + d;
        i = i + 1;
    }
    Some(acc)
}

/// A number value as a `u64`: a literal of digits whose value fits.
pub open spec fn json_u64(v: JsonV) -> Option<int> {
    match v {
        JsonV::Number(t) => if t.len() > 0 && all_digits(t) && digits_value(t) <= u64::MAX {
            Some(digits_value(t))
        } else {
            None
        },
        _ => None,
    }
}

/// The literal text of a number value.
pub open spec fn number_text(v: JsonV) -> Option<Seq<char>> {
    match v {
        JsonV::Number(t) => Some(t),
        _ => None,
    }
}

/// The value of the digits `v[start..]`, when they are all digits and the
/// value fits in a `u64`.
fn digits_u64(v: &Vec<char>, start: usize) -> (r: Option<u64>)
    requires
        start < v.len(),
    ensures
        match r {
            Some(n) => all_digits(v@.subrange(start as int, v.len() as int)) && n == digits_value(
                v@.subrange(start as int, v.len() as int),
            ),
            None => !all_digits(v@.subrange(start as int, v.len() as int)) || digits_value(
                v@.subrange(start as int, v.len() as int),
            ) > u64::MAX,
        },
{
    let ghost full = v@.subrange(start as int, v.len() as int);
    let mut acc: u64 = 0;
    let mut i: usize = start;
    while i < v.len()
        invariant
            start <= i <= v.len(),
            full == v@.subrange(start as int, v.len() as int),
            all_digits(v@.subrange(start as int, i as int)),
            acc == digits_value(v@.subrange(start as int, i as int)),
        decreases v.len() - i,
    {
        let c = v[i];
        if !('0' <= c && c <= '9') {
            proof {
                assert(full[i - start] == c);
            }
            return None;
        }
        let d: u64 = (c as u32 - '0' as u32) as u64;
        let ghost pre = v@.subrange(start as int, i as int + 1);
        assert(pre.drop_last() =~= v@.subrange(start as int, i as int));
        assert(all_digits(pre));
        if acc > 1844674407370955161u64 || (acc == 1844674407370955161u64 && d > 5) {
            proof {
                assert(digits_value(pre) > u64::MAX);
                if all_digits(full) {
                    assert(full.take(i - start + 1) =~= pre);
                    lemma_digits_prefix(full, i - start + 1);
                }
            }
            return None;
        }
        acc = acc * 10 + d;
        i = i + 1;
    }
    Some(acc)
}

impl Json {
    /// A number value as a `u64`, when it is a literal of digits that fits.
    pub fn as_u64(&self) -> (r: Option<u64>)
        ensures
            match r {
                Some(n) => json_u64(self@) == Some(n as int),
                None => json_u64(self@) is None,
            },
    {
        match self {
            Json::Number(t) => {
                let v = crate::common::text::chars_of(t.as_str());
                if v.len() == 0 {
                    return None;
                }
                proof {
                    assert(v@.subrange(0, v.len() as int) =~= t@);
                }
                digits_u64(&v, 0)
            },
            _ => None,
        }
    }

    /// The literal text of a number value.
    pub fn number_literal(&self) -> (r: Option<String>)
        ensures
            match r {
                Some(t) => number_text(self@) == Some(t@),
                None => number_text(self@) is None,
            },
    {
        match self {
            Json::Number(t) => Some(t.clone()),
            _ => None,
        }
    }
}

impl Json {
    /// A number value as an `i64`, when it is an integer literal that fits.
    pub fn as_i64(&self) -> (r: Option<i64>)
        ensures
            match r {
                Some(n) => json_i64(self@) == Some(n as int),
                None => json_i64(self@) is None,
            },
    {
        match self {
            Json::Number(t) => {
                let v = crate::common::text::chars_of(t.as_str());
                if v.len() == 0 {
                    return None;
                }
                if v[0] == '-' {
                    if v.len() < 2 {
                        return None;
                    }
                    proof {
                        assert(v@.subrange(1, v.len() as int) =~= t@.drop_first());
                    }
                    match digits_upto(&v, 1) {
                        Some(n) => {
                            if n == 9223372036854775808u64 {
                                Some(i64::MIN)
                            } else {
                                let m: i64 = n as i64;
                                Some(-m)
                            }
                        },
                        None => None,
                    }
                } else {
                    proof {
                        assert(v@.subrange(0, v.len() as int) =~= t@);
                    }
                    match digits_upto(&v, 0) {
                        Some(n) => {
                            if n > 9223372036854775807u64 {
                                None
                            } else {
                                Some(n as i64)
                            }
                        },
                        None => None,
                    }
                }
            },
            _ => None,
        }
    }
}

/// String values holding `cs`, in order.
pub open spec fn str_items(cs: Seq<Seq<char>>) -> Seq<JsonV> {
    cs.map_values(|c: Seq<char>| JsonV::Str(c))
}

/// Appends the member `key: value` to an object's member list.
pub fn push_member(members: &mut Vec<(String, Json)>, key: &str, value: Json)
    ensures
        members_view(final(members)@) == members_view(old(members)@).push((key@, value@)),
{
    let ghost old_ms = members@;
    members.push((key.to_owned(), value));
    assert(members@.subrange(0, members@.len() - 1) =~= old_ms);
}

/// Appends `value` to an array's item list.
pub fn push_item(items: &mut Vec<Json>, value: Json)
    ensures
        items_view(final(items)@) == items_view(old(items)@).push(value@),
{
    let ghost old_items = items@;
    items.push(value);
    assert(items@.subrange(0, items@.len() - 1) =~= old_items);
}

} // verus!
