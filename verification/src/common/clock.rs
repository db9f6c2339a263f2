//! Wall-clock readings (nothing is promised about their values).

use vstd::prelude::*;

verus! {

/// `chrono::Utc::now().timestamp()`: the current Unix time in seconds.
/// Nothing is stated of the value: it depends on the machine's clock.
#[verifier::external_body]
pub(crate) fn now_unix_seconds() -> i64 {
    chrono::Utc::now().timestamp()
}

/// `chrono::Utc::now().timestamp_millis()`: the current Unix time in milliseconds.
/// Nothing is stated of the value: it depends on the machine's clock.
#[verifier::external_body]
pub(crate) fn now_unix_millis() -> i64 {
    chrono::Utc::now().timestamp_millis()
}

/// What `DateTime::from_timestamp(secs, nanos)` formatted with
/// `%Y-%m-%dT%H:%M:%S` reads (UTC).
pub uninterp spec fn utc_second_text(secs: int, nanos: int) -> Seq<char>;

/// `t` is the `%Y-%m-%dT%H:%M:%S` text of some instant chrono represents.
pub open spec fn is_second_text(t: Seq<char>) -> bool {
    exists|secs: int, nanos: int|
        i64::MIN <= secs <= i64::MAX && 0 <= nanos <= u32::MAX && t == #[trigger] utc_second_text(secs, nanos)
}

/// `%Y-%m-%dT%H:%M:%S` for a year between 0 and 9999: four, two, two digits
/// separated by `-`, a `T`, then two, two, two digits separated by `:`.
pub open spec fn second_text_shape(t: Seq<char>) -> bool {
    &&& t.len() == 19
    &&& t[4] == '-' && t[7] == '-' && t[10] == 'T' && t[13] == ':' && t[16] == ':'
    &&& forall|i: int| 0 <= i < 19 && i != 4 && i != 7 && i != 10 && i != 13 && i != 16
        ==> '0' <= #[trigger] t[i] <= '9'
}

/// The last second of the year 9999, UTC.
pub open spec fn last_four_digit_second() -> int {
    253402300799
}

/// `chrono::DateTime::from_timestamp(secs, nanos)`, formatted with
/// `%Y-%m-%dT%H:%M:%S`; `None` where chrono refuses the pair (seconds out of
/// its range, or an invalid nanosecond). A pair with `0 <= secs` up to the end
/// of the year 9999 and `nanos` under one second is accepted, and its text then
/// has the fixed four-digit-year shape.
#[verifier::external_body]
pub(crate) fn utc_text_of(secs: i64, nanos: u32) -> (r: Option<String>)
    ensures
        r is Some ==> r->0@ == utc_second_text(secs as int, nanos as int),
        0 <= secs <= last_four_digit_second() && nanos < 1_000_000_000 ==> r is Some
            && second_text_shape(r->0@),
{
    match chrono::DateTime::from_timestamp(secs, nanos) {
        Some(dt) => Some(dt.format("%Y-%m-%dT%H:%M:%S").to_string()),
        None => None,
    }
}

/// `chrono::Utc::now()` formatted with `%Y-%m-%dT%H:%M:%S`. Which instant it
/// is depends on the machine's clock and is not stated; chrono guarantees that
/// `DateTime::from_timestamp` round-trips with `timestamp` and
/// `timestamp_subsec_nanos`, so the text is `utc_second_text` of the current
/// instant's seconds and nanoseconds.
#[verifier::external_body]
pub(crate) fn utc_now_text() -> (r: String)
    ensures
        is_second_text(r@),
{
    chrono::Utc::now().format("%Y-%m-%dT%H:%M:%S").to_string()
}

/// What an instant chrono represents, given by its Unix seconds and
/// nanoseconds, reads in RFC 3339 form with milliseconds and a `Z` suffix.
pub uninterp spec fn utc_millis_text(secs: int, nanos: int) -> Seq<char>;

/// `t` is the RFC 3339 millisecond text of some instant chrono represents.
pub open spec fn is_millis_text(t: Seq<char>) -> bool {
    exists|secs: int, nanos: int|
        i64::MIN <= secs <= i64::MAX && 0 <= nanos <= u32::MAX && t == #[trigger] utc_millis_text(secs, nanos)
}

/// `chrono::Utc::now()` in RFC 3339 form with milliseconds and a `Z` suffix:
/// the text of the current instant. Which instant that is depends on the
/// machine's clock and is not stated.
#[verifier::external_body]
pub(crate) fn utc_now_iso8601() -> (r: String)
    ensures
        is_millis_text(r@),
        exists|secs: int, nanos: int| r@ == #[trigger] utc_millis_text(secs, nanos),
{
    chrono::Utc::now().to_rfc3339_opts(chrono::SecondsFormat::Millis, true)
}

} // verus!
