//! Byte-to-text encodings used when signing requests: the
//! `application/x-www-form-urlencoded` serializer and standard Base64.

use vstd::prelude::*;

verus! {

/// Upper-case hexadecimal digit for `d < 16`.
pub open spec fn hex_upper(d: int) -> char {
    if d < 10 {
        crate::common::text::digit_char(d as nat)
    } else if d == 10 { 'A' }
    else if d == 11 { 'B' }
    else if d == 12 { 'C' }
    else if d == 13 { 'D' }
    else if d == 14 { 'E' }
    else { 'F' }
}

/// Bytes the form serializer copies as they are: `*-._`, digits and ASCII letters.
pub open spec fn form_unchanged(b: u8) -> bool {
    b == 0x2a || b == 0x2d || b == 0x2e || b == 0x5f
        || (0x30 <= b <= 0x39) || (0x41 <= b <= 0x5a) || (0x61 <= b <= 0x7a)
}

/// How the form serializer writes one byte: unchanged, `+` for a space,
/// otherwise `%` and two upper-case hex digits.
pub open spec fn form_byte(b: u8) -> Seq<char> {
    if form_unchanged(b) {
        seq![b as char]
    } else if b == 0x20 {
        seq!['+']
    } else {
        seq!['%', hex_upper(b as int / 16), hex_upper(b as int % 16)]
    }
}

/// The form serialization of a byte string.
pub open spec fn form_bytes(bs: Seq<u8>) -> Seq<char>
    decreases bs.len(),
{
    if bs.len() == 0 {
        Seq::empty()
    } else {
        form_byte(bs[0]) + form_bytes(bs.drop_first())
    }
}

/// The form serialization of a string's UTF-8 encoding.
pub open spec fn form_encoded(s: Seq<char>) -> Seq<char> {
    form_bytes(vstd::utf8::encode_utf8(s))
}

/// `name=value`, both form-encoded.
pub open spec fn pair_text(p: (Seq<char>, Seq<char>)) -> Seq<char> {
    form_encoded(p.0) + seq!['='] + form_encoded(p.1)
}

/// Name/value pairs in the order given, joined by `&`.
pub open spec fn query_text(ps: Seq<(Seq<char>, Seq<char>)>) -> Seq<char>
    decreases ps.len(),
{
    if ps.len() == 0 {
        Seq::empty()
    } else if ps.len() == 1 {
        pair_text(ps[0])
    } else {
        query_text(ps.drop_last()) + seq!['&'] + pair_text(ps.last())
    }
}

/// The character views of a list of string pairs.
pub open spec fn pairs_view(ps: Seq<(String, String)>) -> Seq<(Seq<char>, Seq<char>)> {
    ps.map_values(|p: (String, String)| (p.0@, p.1@))
}

/// `form_urlencoded::byte_serialize`, collected into a `String`: each byte
/// is written as `form_byte` says (source: `url::form_urlencoded` 1.2, `byte_serialize`
/// and `percent_encoding::percent_encode_byte`).
#[verifier::external_body]
pub(crate) fn form_encode_bytes(bytes: &[u8]) -> (r: String)
    ensures
        r@ == form_bytes(bytes@),
{
    url::form_urlencoded::byte_serialize(bytes).collect::<String>()
}

/// `form_urlencoded::Serializer::new(String::new()).extend_pairs(..).finish()`:
/// each pair becomes `name=value`, both form-encoded from their UTF-8 bytes,
/// and pairs are separated by `&` in the order given.
#[verifier::external_body]
pub(crate) fn form_encode_pairs(pairs: &Vec<(String, String)>) -> (r: String)
    ensures
        r@ == query_text(pairs_view(pairs@)),
{
    url::form_urlencoded::Serializer::new(String::new()).extend_pairs(pairs.iter()).finish()
}

/// The standard Base64 alphabet: `A-Z`, `a-z`, `0-9`, `+`, `/`.
pub open spec fn b64_digit(n: int) -> char {
    if n < 26 {
        ('A' as int + n) as char
    } else if n < 52 {
        ('a' as int + (n - 26)) as char
    } else if n < 62 {
        ('0' as int + (n - 52)) as char
    } else if n == 62 {
        '+'
    } else {
        '/'
    }
}

/// Standard Base64 with `=` padding: every 3 bytes become 4 digits.
pub open spec fn base64_text(b: Seq<u8>) -> Seq<char>
    decreases b.len(),
{
    if b.len() == 0 {
        Seq::empty()
    } else if b.len() == 1 {
        seq![b64_digit(b[0] as int / 4), b64_digit((b[0] as int % 4) * 16), '=', '=']
    } else if b.len() == 2 {
        seq![
            b64_digit(b[0] as int / 4),
            b64_digit((b[0] as int % 4) * 16 + b[1] as int / 16),
            b64_digit((b[1] as int % 16) * 4),
            '=',
        ]
    } else {
        seq![
            b64_digit(b[0] as int / 4),
            b64_digit((b[0] as int % 4) * 16 + b[1] as int / 16),
            b64_digit((b[1] as int % 16) * 4 + b[2] as int / 64),
            b64_digit(b[2] as int % 64),
        ] + base64_text(b.skip(3))
    }
}

/// The Base64 digit for `n < 64`.
fn b64_char(n: u8) -> (r: char)
    requires
        n < 64,
    ensures
        r == b64_digit(n as int),
{
    if n < 26 {
        (65u8 + n) as char
    } else if n < 52 {
        (97u8 + (n - 26)) as char
    } else if n < 62 {
        (48u8 + (n - 52)) as char
    } else if n == 62 {
        '+'
    } else {
        '/'
    }
}

/// Standard Base64 with `=` padding.
pub fn base64_encode(bytes: &[u8]) -> (r: String)
    ensures
        r@ == base64_text(bytes@),
{
    let b = bytes;
    let mut out: Vec<char> = Vec::new();
    let mut i: usize = 0;
    assert(b@.skip(0) =~= b@);
    assert(out@ + base64_text(b@) =~= base64_text(b@));
    while b.len() - i >= 3
        invariant
            i <= b.len(),
            base64_text(b@) == out@ + base64_text(b@.skip(i as int)),
        decreases b.len() - i,
    {
        let x = b[i];
        let y = b[i + 1];
        let z = b[i + 2];
        let ghost rest = b@.skip(i as int);
        assert(rest.skip(3) =~= b@.skip(i + 3));
        assert(rest[0] == x && rest[1] == y && rest[2] == z);
        out.push(b64_char(x / 4));
        out.push(b64_char((x % 4) * 16 + y / 16));
        out.push(b64_char((y % 16) * 4 + z / 64));
        out.push(b64_char(z % 64));
        i = i + 3;
    }
    let ghost rest = b@.skip(i as int);
    let left = b.len() - i;
    if left == 1 {
        let x = b[i];
        assert(rest[0] == x);
        out.push(b64_char(x / 4));
        out.push(b64_char((x % 4) * 16));
        out.push('=');
        out.push('=');
    } else if left == 2 {
        let x = b[i];
        let y = b[i + 1];
        assert(rest[0] == x && rest[1] == y);
        out.push(b64_char(x / 4));
        out.push(b64_char((x % 4) * 16 + y / 16));
        out.push(b64_char((y % 16) * 4));
        out.push('=');
    }
    assert(out@ =~= base64_text(b@));
    crate::common::text::string_of(&out)
}

/// What HMAC-SHA256 computes for a key and a message.
pub uninterp spec fn hmac_sha256_of(key: Seq<u8>, msg: Seq<u8>) -> Seq<u8>;

/// `hmac::Hmac::<sha2::Sha256>`: keyed with `key` (any length is accepted),
/// fed `msg`, finalized. The 32-byte tag is named, not described.
#[verifier::external_body]
pub(crate) fn hmac_sha256(key: &[u8], msg: &[u8]) -> (r: Vec<u8>)
    ensures
        r@ == hmac_sha256_of(key@, msg@),
        r@.len() == 32,
{
    let mut mac = <hmac::Hmac<sha2::Sha256> as hmac::KeyInit>::new_from_slice(key)
        .expect("HMAC accepts keys of any length");
    hmac::Mac::update(&mut mac, msg);
    hmac::Mac::finalize(mac).into_bytes().to_vec()
}

/// Base64 of the HMAC-SHA256 of `text` under `secret` (both taken as UTF-8).
pub open spec fn hmac_base64_text(secret: Seq<char>, text: Seq<char>) -> Seq<char> {
    base64_text(hmac_sha256_of(vstd::utf8::encode_utf8(secret), vstd::utf8::encode_utf8(text)))
}

/// Base64 writes four digits for every started group of three bytes.
pub proof fn lemma_base64_len(b: Seq<u8>)
    ensures
        base64_text(b).len() == 4 * ((b.len() + 2) / 3),
    decreases b.len(),
{
    if b.len() >= 3 {
        lemma_base64_len(b.skip(3));
    }
}

/// Signs `text` with `secret`: HMAC-SHA256, then standard Base64 (44 digits
/// for the 32-byte tag).
pub fn hmac_base64(secret: &str, text: &str) -> (r: String)
    ensures
        r@ == hmac_base64_text(secret@, text@),
        r@.len() == 44,
{
    let tag = hmac_sha256(secret.as_bytes(), text.as_bytes());
    proof {
        lemma_base64_len(tag@);
    }
    base64_encode(tag.as_slice())
}

} // verus!
