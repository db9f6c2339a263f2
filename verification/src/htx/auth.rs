//! HTX request signing.
//!
//! The auth parameters (`AccessKeyId`, `SignatureMethod`, `SignatureVersion`,
//! `Timestamp`) join the request's own parameters; all are sorted by name and
//! form-encoded into the query. The pre-sign text is
//! `METHOD\nHOST\nPATH\nQUERY`; its HMAC-SHA256 under the secret, Base64
//! encoded, is the signature.

use vstd::prelude::*;
use crate::common::clock::{
    is_second_text,
    last_four_digit_second, now_unix_millis, second_text_shape, utc_now_text, utc_second_text,
    utc_text_of,
};
use crate::common::encoding::{
    form_encode_bytes, form_encode_pairs, form_encoded, hmac_base64, hmac_base64_text, pairs_view,
    query_text,
};
use crate::common::params::{
    lemma_pairs_map_append, lemma_sorted_entries_exist, pairs_map, sorted_entries, sorted_merge,
    strictly_sorted,
};
use crate::common::text::{push_str, str_upper, to_upper};
use crate::common::types::Credentials;

verus! {

/// The auth parameters in the order they are added.
pub open spec fn auth_pairs(key: Seq<char>, version: Seq<char>, timestamp: Seq<char>) -> Seq<
    (Seq<char>, Seq<char>),
> {
    seq![
        ("AccessKeyId"@, key),
        ("SignatureMethod"@, "HmacSHA256"@),
        ("SignatureVersion"@, version),
        ("Timestamp"@, timestamp),
    ]
}

/// The request's parameters with the auth parameters set over them, sorted by name.
pub open spec fn signed_params(
    params: Seq<(Seq<char>, Seq<char>)>,
    key: Seq<char>,
    version: Seq<char>,
    timestamp: Seq<char>,
) -> Seq<(Seq<char>, Seq<char>)> {
    sorted_entries(pairs_map(params + auth_pairs(key, version, timestamp)))
}

/// `METHOD\nHOST\nPATH\nQUERY`, the method upper-cased.
pub open spec fn rest_presign(method: Seq<char>, host: Seq<char>, path: Seq<char>, query: Seq<char>) -> Seq<
    char,
> {
    str_upper(method) + "\n"@ + host + "\n"@ + path + "\n"@ + query
}

/// The signed REST query: the sorted query, then `&Signature=` and the
/// form-encoded signature of the pre-sign text.
pub open spec fn signed_query_text(
    secret: Seq<char>,
    method: Seq<char>,
    host: Seq<char>,
    path: Seq<char>,
    params: Seq<(Seq<char>, Seq<char>)>,
) -> Seq<char> {
    let query = query_text(params);
    query + "&Signature="@ + form_encoded(hmac_base64_text(secret, rest_presign(method, host, path, query)))
}

/// The WebSocket (v2.1) pre-sign text: `GET\nHOST\n/ws/v2\nQUERY`.
pub open spec fn ws_presign(host: Seq<char>, query: Seq<char>) -> Seq<char> {
    "GET\n"@ + host + "\n/ws/v2\n"@ + query
}

/// Milliseconds split as `ms / 1000` seconds (rounded toward zero) ...
pub open spec fn millis_secs(ms: int) -> int {
    if ms >= 0 { ms / 1000 } else { -((-ms) / 1000) }
}

/// ... and `(ms % 1000) * 1_000_000` nanoseconds, truncated to 32 bits.
pub open spec fn millis_nanos(ms: int) -> int {
    let rem = ms - millis_secs(ms) * 1000;
    ((rem * 1_000_000) as u32) as int
}

/// The last millisecond of the year 9999, UTC.
pub open spec fn last_four_digit_milli() -> int {
    last_four_digit_second() * 1000 + 999
}

/// The `YYYY-MM-DDThh:mm:ss` text of a millisecond Unix time, when chrono accepts it.
pub fn utc_text_of_millis(ms: i64) -> (r: Option<String>)
    ensures
        r is Some ==> r->0@ == utc_second_text(millis_secs(ms as int), millis_nanos(ms as int)),
        0 <= ms <= last_four_digit_milli() ==> r is Some && second_text_shape(r->0@),
{
    let secs: i64 = ms / 1000;
    let rem: i64 = ms % 1000;
    let nanos: u32 = (rem * 1_000_000) as u32;
    proof {
        if ms >= 0 {
            assert(rem == ms as int - millis_secs(ms as int) * 1000);
            assert(rem * 1_000_000 < 1_000_000_000);
            assert(0 <= secs <= last_four_digit_second() || ms > last_four_digit_milli());
        }
    }
    utc_text_of(secs, nanos)
}

/// The signed parameter list is in ascending name order, each name once; the
/// auth parameters carry the key, method, version and timestamp whatever the
/// request's own parameters held under those names; every other name keeps the
/// request's value.
pub proof fn lemma_signed_params(
    params: Seq<(Seq<char>, Seq<char>)>,
    key: Seq<char>,
    version: Seq<char>,
    timestamp: Seq<char>,
)
    ensures
        strictly_sorted(signed_params(params, key, version, timestamp)),
        pairs_map(signed_params(params, key, version, timestamp)) == pairs_map(params).insert(
            "AccessKeyId"@,
            key,
        ).insert("SignatureMethod"@, "HmacSHA256"@).insert("SignatureVersion"@, version).insert(
            "Timestamp"@,
            timestamp,
        ),
{
    let a = auth_pairs(key, version, timestamp);
    let all4 = params + a;
    let all3 = params + a.take(3);
    let all2 = params + a.take(2);
    let all1 = params + a.take(1);
    lemma_sorted_entries_exist(all4);
    assert(all4.drop_last() =~= all3);
    assert(all3.drop_last() =~= all2);
    assert(all2.drop_last() =~= all1);
    assert(all1.drop_last() =~= params);
    assert(pairs_map(all1) == pairs_map(params).insert("AccessKeyId"@, key));
    assert(pairs_map(all2) == pairs_map(all1).insert("SignatureMethod"@, "HmacSHA256"@));
    assert(pairs_map(all3) == pairs_map(all2).insert("SignatureVersion"@, version));
    assert(pairs_map(all4) == pairs_map(all3).insert("Timestamp"@, timestamp));
}

/// The signed query does not depend on the order the request's parameters
/// come in: two parameter lists that build the same name-to-value map sign to
/// the same query.
pub proof fn lemma_signed_query_order_free(
    secret: Seq<char>,
    method: Seq<char>,
    host: Seq<char>,
    path: Seq<char>,
    p1: Seq<(Seq<char>, Seq<char>)>,
    p2: Seq<(Seq<char>, Seq<char>)>,
    key: Seq<char>,
    version: Seq<char>,
    timestamp: Seq<char>,
)
    requires
        pairs_map(p1) == pairs_map(p2),
    ensures
        signed_query_text(secret, method, host, path, signed_params(p1, key, version, timestamp))
            == signed_query_text(secret, method, host, path, signed_params(p2, key, version, timestamp)),
{
    let a = auth_pairs(key, version, timestamp);
    lemma_pairs_map_append(p1, a);
    lemma_pairs_map_append(p2, a);
}

/// `t` is what the timestamp reads for a local clock reading `local` and
/// offset `offset`: a `%Y-%m-%dT%H:%M:%S` text, and where the shifted instant
/// lies between 1970 and the end of 9999, the 19-character text of that instant.
pub open spec fn clock_timestamp(offset: int, local: int, t: Seq<char>) -> bool {
    &&& is_second_text(t)
    &&& (0 <= local + offset <= last_four_digit_milli() ==> t == utc_second_text(
        millis_secs(local + offset),
        millis_nanos(local + offset),
    ) && second_text_shape(t))
}

/// The offset after syncing to `server` at local reading `local`: their
/// difference where it fits in an `i64`, else the old offset.
pub open spec fn synced_offset(old_offset: int, server: int, local: int, new_offset: int) -> bool {
    if i64::MIN <= server - local <= i64::MAX {
        new_offset == server - local
    } else {
        new_offset == old_offset
    }
}

/// HTX signing state: the key pair and the offset from the local clock to
/// the server's, in milliseconds.
pub struct HtxAuth {
    api_key: String,
    api_secret: String,
    time_offset_ms: i64,
}

impl HtxAuth {
    pub closed spec fn key(&self) -> Seq<char> {
        self.api_key@
    }

    pub closed spec fn secret(&self) -> Seq<char> {
        self.api_secret@
    }

    pub closed spec fn offset(&self) -> int {
        self.time_offset_ms as int
    }

    /// A handler for these credentials, with no clock offset.
    pub fn new(credentials: &Credentials) -> (r: Self)
        ensures
            r.key() == credentials.api_key@,
            r.secret() == credentials.api_secret@,
            r.offset() == 0,
    {
        HtxAuth {
            api_key: credentials.api_key.as_str().to_owned(),
            api_secret: credentials.api_secret.as_str().to_owned(),
            time_offset_ms: 0,
        }
    }

    /// Two states hold the same key pair.
    pub open spec fn same_credentials(&self, other: &HtxAuth) -> bool {
        self.key() == other.key() && self.secret() == other.secret()
    }

    /// Along any run of calls, each of which keeps the key pair (every method
    /// does: only the clock offset ever changes), every state holds the key
    /// pair of the first: `api_key` reads the key it was made with.
    pub proof fn lemma_credentials_kept(states: Seq<HtxAuth>)
        requires
            forall|i: int| 0 <= i < states.len() - 1 ==> #[trigger] states[i].same_credentials(&states[i + 1]),
        ensures
            forall|i: int| 0 <= i < states.len() ==> #[trigger] states[i].same_credentials(&states[0]),
        decreases states.len(),
    {
        if states.len() > 1 {
            let front = states.drop_last();
            assert forall|i: int| 0 <= i < front.len() - 1 implies #[trigger] front[i].same_credentials(&front[i + 1]) by {
                assert(states[i].same_credentials(&states[i + 1]));
            }
            Self::lemma_credentials_kept(front);
            assert forall|i: int| 0 <= i < states.len() implies #[trigger] states[i].same_credentials(&states[0]) by {
                if i < states.len() - 1 {
                    assert(front[i].same_credentials(&front[0]));
                } else {
                    let j = i - 1;
                    assert(states[j].same_credentials(&states[j + 1]));
                    assert(front[i - 1].same_credentials(&front[0]));
                }
            }
        }
    }

    /// The API key.
    pub fn api_key(&self) -> (r: &str)
        ensures
            r@ == self.key(),
    {
        self.api_key.as_str()
    }

    /// Records the offset `server_time_ms - local_time_ms`.
    pub fn sync_time_at(&mut self, server_time_ms: i64, local_time_ms: i64)
        requires
            i64::MIN <= server_time_ms - local_time_ms <= i64::MAX,
        ensures
            final(self).offset() == server_time_ms - local_time_ms,
            final(self).key() == old(self).key(),
            final(self).secret() == old(self).secret(),
            old(self).same_credentials(&*final(self)),
    {
        self.time_offset_ms = server_time_ms - local_time_ms;
    }

    /// Records the offset from the local clock to a server time read from
    /// `/v1/common/timestamp`. Where the difference does not fit in an `i64`
    /// the offset is left as it was.
    pub fn sync_time(&mut self, server_time_ms: i64)
        ensures
            exists|local: i64| #[trigger] synced_offset(old(self).offset(), server_time_ms as int, local as int, final(self).offset()),
            final(self).key() == old(self).key(),
            final(self).secret() == old(self).secret(),
            old(self).same_credentials(&*final(self)),
    {
        let local = now_unix_millis();
        if let Some(_) = server_time_ms.checked_sub(local) {
            self.sync_time_at(server_time_ms, local);
        }
        assert(synced_offset(old(self).offset(), server_time_ms as int, local as int, self.offset()));
    }

    /// The timestamp for a local clock reading `local_ms`: the reading moved by
    /// the offset, as `YYYY-MM-DDThh:mm:ss` (UTC); `None` where the sum does not
    /// fit in an `i64` or chrono refuses the instant.
    pub fn timestamp_at(&self, local_ms: i64) -> (r: Option<String>)
        ensures
            !(i64::MIN <= local_ms + self.offset() <= i64::MAX) ==> r is None,
            r is Some ==> i64::MIN <= local_ms + self.offset() <= i64::MAX && r->0@ == utc_second_text(
                millis_secs(local_ms + self.offset()),
                millis_nanos(local_ms + self.offset()),
            ),
            0 <= local_ms + self.offset() <= last_four_digit_milli() ==> r is Some && second_text_shape(
                r->0@,
            ),
    {
        match local_ms.checked_add(self.time_offset_ms) {
            Some(adjusted) => utc_text_of_millis(adjusted),
            None => None,
        }
    }

    /// The server-synchronised time: the local clock moved by the offset, as
    /// `YYYY-MM-DDThh:mm:ss` (UTC). Where that instant cannot be written the
    /// current time unshifted is written instead.
    pub fn get_timestamp(&self) -> (r: String)
        ensures
            exists|local: i64| #[trigger] clock_timestamp(self.offset(), local as int, r@),
    {
        let local = now_unix_millis();
        match self.timestamp_at(local) {
            Some(t) => {
                proof {
                    let a = local + self.offset();
                    assert(t@ == utc_second_text(millis_secs(a), millis_nanos(a)));
                    assert(i64::MIN <= millis_secs(a) <= i64::MAX);
                    assert(is_second_text(t@));
                    assert(clock_timestamp(self.offset(), local as int, t@));
                }
                t
            },
            None => {
                let t = utc_now_text();
                proof {
                    assert(!(0 <= local + self.offset() <= last_four_digit_milli()));
                    assert(clock_timestamp(self.offset(), local as int, t@));
                }
                t
            },
        }
    }

    /// The auth parameters for a signature version and a timestamp.
    fn auth_params(&self, version: &str, timestamp: &str) -> (r: Vec<(String, String)>)
        ensures
            pairs_view(r@) == auth_pairs(self.key(), version@, timestamp@),
    {
        let mut v: Vec<(String, String)> = Vec::new();
        v.push(("AccessKeyId".to_owned(), self.api_key.as_str().to_owned()));
        v.push(("SignatureMethod".to_owned(), "HmacSHA256".to_owned()));
        v.push(("SignatureVersion".to_owned(), version.to_owned()));
        v.push(("Timestamp".to_owned(), timestamp.to_owned()));
        assert(pairs_view(v@) =~= auth_pairs(self.key(), version@, timestamp@));
        v
    }

    /// The signed query string for a REST request made at `timestamp`:
    /// `params` with the auth parameters set over them, sorted by name and
    /// form-encoded, then `&Signature=` and the form-encoded signature of
    /// `METHOD\nHOST\nPATH\nQUERY`.
    pub fn build_signed_query_at(
        &self,
        method: &str,
        host: &str,
        path: &str,
        params: &Vec<(String, String)>,
        timestamp: &str,
    ) -> (r: String)
        ensures
            r@ == signed_query_text(
                self.secret(),
                method@,
                host@,
                path@,
                signed_params(pairs_view(params@), self.key(), "2"@, timestamp@),
            ),
    {
        let auth = self.auth_params("2", timestamp);
        let sorted = sorted_merge(params, &auth);
        let query = form_encode_pairs(&sorted);
        let mut pre = to_upper(method);
        push_str(&mut pre, "\n");
        push_str(&mut pre, host);
        push_str(&mut pre, "\n");
        push_str(&mut pre, path);
        push_str(&mut pre, "\n");
        push_str(&mut pre, query.as_str());
        let signature = hmac_base64(self.api_secret.as_str(), pre.as_str());
        let encoded = form_encode_bytes(signature.as_str().as_bytes());
        let mut out = query;
        push_str(&mut out, "&Signature=");
        push_str(&mut out, encoded.as_str());
        out
    }

    /// The signed query for a REST request made now (see `build_signed_query_at`).
    pub fn build_signed_query(&self, method: &str, host: &str, path: &str, params: &Vec<(String, String)>) -> (r:
        String)
        ensures
            exists|local: i64, timestamp: Seq<char>|
                #[trigger] clock_timestamp(self.offset(), local as int, timestamp) && r@ == signed_query_text(
                    self.secret(),
                    method@,
                    host@,
                    path@,
                    signed_params(pairs_view(params@), self.key(), "2"@, timestamp),
                ),
    {
        let timestamp = self.get_timestamp();
        self.build_signed_query_at(method, host, path, params, timestamp.as_str())
    }

    /// The WebSocket v2.1 login fields for a connection made at `timestamp`:
    /// key, timestamp, `HmacSHA256`, `2.1`, and the (not form-encoded)
    /// signature of `GET\nHOST\n/ws/v2\nQUERY`.
    pub fn sign_websocket_auth_at(&self, host: &str, timestamp: &str) -> (r: (String, String, String, String, String))
        ensures
            r.0@ == self.key(),
            r.4@.len() == 44,
            r.1@ == timestamp@,
            r.2@ == "HmacSHA256"@,
            r.3@ == "2.1"@,
            r.4@ == hmac_base64_text(
                self.secret(),
                ws_presign(host@, query_text(signed_params(Seq::empty(), self.key(), "2.1"@, timestamp@))),
            ),
    {
        let auth = self.auth_params("2.1", timestamp);
        let none: Vec<(String, String)> = Vec::new();
        let sorted = sorted_merge(&none, &auth);
        proof {
            assert(pairs_view(none@) =~= Seq::<(Seq<char>, Seq<char>)>::empty());
        }
        let query = form_encode_pairs(&sorted);
        let mut pre = "GET\n".to_owned();
        push_str(&mut pre, host);
        push_str(&mut pre, "\n/ws/v2\n");
        push_str(&mut pre, query.as_str());
        let signature = hmac_base64(self.api_secret.as_str(), pre.as_str());
        (
            self.api_key.as_str().to_owned(),
            timestamp.to_owned(),
            "HmacSHA256".to_owned(),
            "2.1".to_owned(),
            signature,
        )
    }

    /// The WebSocket v2.1 login fields for a connection made now
    /// (see `sign_websocket_auth_at`).
    pub fn sign_websocket_auth(&self, host: &str) -> (r: (String, String, String, String, String))
        ensures
            r.0@ == self.key(),
            exists|local: i64| #[trigger] clock_timestamp(self.offset(), local as int, r.1@),
            r.4@.len() == 44,
            r.2@ == "HmacSHA256"@,
            r.3@ == "2.1"@,
            r.4@ == hmac_base64_text(
                self.secret(),
                ws_presign(host@, query_text(signed_params(Seq::empty(), self.key(), "2.1"@, r.1@))),
            ),
    {
        let timestamp = self.get_timestamp();
        self.sign_websocket_auth_at(host, timestamp.as_str())
    }
}

} // verus!
