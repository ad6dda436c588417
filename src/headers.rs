//! HTTP header values and header maps of the transport, and what they hold.
use vstd::prelude::*;
use vstd::utf8::{encode_utf8, is_ascii_chars, is_ascii_chars_encode_utf8};

use crate::numeric::decimal_digits;

verus! {

#[verifier::external_type_specification]
#[verifier::external_body]
pub struct ExHeaderValue(reqwest::header::HeaderValue);

#[verifier::external_type_specification]
#[verifier::external_body]
pub struct ExInvalidHeaderValue(reqwest::header::InvalidHeaderValue);

#[verifier::external_type_specification]
#[verifier::external_body]
#[verifier::reject_recursive_types(T)]
pub struct ExHeaderMap<T>(reqwest::header::HeaderMap<T>);

#[verifier::external_type_specification]
#[verifier::external_body]
pub struct ExClient(reqwest::Client);

#[verifier::external_type_specification]
#[verifier::external_body]
pub struct ExReqwestError(reqwest::Error);

/// The bytes that a header value holds.
pub uninterp spec fn header_value_bytes(v: reqwest::header::HeaderValue) -> Seq<u8>;

/// What a header map holds: each header name, lower case, with the bytes of its value.
pub uninterp spec fn header_entries(m: reqwest::header::HeaderMap) -> Map<Seq<char>, Seq<u8>>;

/// A byte that may stand in a header value: visible ASCII, a space, a tab,
/// or any byte from 0x80 up.
pub open spec fn is_header_value_byte(b: u8) -> bool {
    (b >= 32 && b != 127) || b == 9
}

pub open spec fn is_header_value_text(s: Seq<char>) -> bool {
    forall|i: int|
        0 <= i < encode_utf8(s).len() ==> is_header_value_byte(#[trigger] encode_utf8(s)[i])
}

/// Text of printable ASCII is a valid header value.
pub proof fn lemma_printable_header_text(s: Seq<char>)
    requires
        forall|i: int| 0 <= i < s.len() ==> ' ' <= #[trigger] s[i] && s[i] <= '~',
    ensures
        is_header_value_text(s),
{
    assert(is_ascii_chars(s));
    is_ascii_chars_encode_utf8(s);
    assert forall|i: int| 0 <= i < encode_utf8(s).len() implies (encode_utf8(s)[i] >= 32
        && encode_utf8(s)[i] != 127) by {
        assert(s[i] as u8 == encode_utf8(s)[i]);
    }
}

/// A header name as the map stores it: lower-case ASCII letters and `-`.
pub open spec fn is_lower_header_name(s: Seq<char>) -> bool {
    s.len() > 0 && forall|i: int|
        0 <= i < s.len() ==> (('a' <= #[trigger] s[i] && s[i] <= 'z') || s[i] == '-')
}

/// A header map with nothing in it.
pub open spec fn no_headers() -> Map<Seq<char>, Seq<u8>> {
    Map::empty()
}

/// The ASCII bytes of a text of ASCII characters.
pub open spec fn ascii_bytes(s: Seq<char>) -> Seq<u8> {
    Seq::new(s.len(), |i: int| s[i] as u8)
}

/// The decimal text of an integer, with a leading `-` when it is negative.
pub open spec fn int_decimal(n: int) -> Seq<char> {
    if n < 0 {
        seq!['-'] + decimal_digits((-n) as nat)
    } else {
        decimal_digits(n as nat)
    }
}

/// Relies on `HeaderValue::from_str`, which checks every byte of the text
/// and keeps the bytes unchanged.
#[verifier::external_body]
pub(crate) fn header_value_from_str(s: &str) -> (r: Result<
    reqwest::header::HeaderValue,
    reqwest::header::InvalidHeaderValue,
>)
    ensures
        r is Ok <==> is_header_value_text(s@),
        r is Ok ==> header_value_bytes(r->Ok_0) == encode_utf8(s@),
{
    reqwest::header::HeaderValue::from_str(s)
}

/// Relies on `HeaderValue::from(i32)`, which writes the decimal text of the integer.
#[verifier::external_body]
pub(crate) fn header_value_from_i32(n: i32) -> (r: reqwest::header::HeaderValue)
    ensures
        header_value_bytes(r) == ascii_bytes(int_decimal(n as int)),
{
    reqwest::header::HeaderValue::from(n)
}

/// Relies on `HeaderMap::new`, which makes an empty map.
#[verifier::external_body]
pub(crate) fn header_map_new() -> (r: reqwest::header::HeaderMap)
    ensures
        header_entries(r) == no_headers(),
{
    reqwest::header::HeaderMap::new()
}

/// Relies on `HeaderMap::insert` with a static name, which replaces any value
/// under that name; it panics on a malformed name, on a name of 65536 bytes
/// or more, and on a map that has reached its size limit.
#[verifier::external_body]
pub(crate) fn header_map_insert(
    m: &mut reqwest::header::HeaderMap,
    name: &'static str,
    v: reqwest::header::HeaderValue,
)
    requires
        is_lower_header_name(name@),
        name@.len() < 65536,
        header_entries(*old(m)).len() < 1024,
    ensures
        header_entries(*final(m)) == header_entries(*old(m)).insert(name@, header_value_bytes(v)),
{
    m.insert(name, v);
}

/// Relies on `ClientBuilder::build` with the given default headers, which
/// prepares the client and its connection pool without any network traffic.
#[verifier::external_body]
pub(crate) fn client_with_headers(h: reqwest::header::HeaderMap) -> (r: Result<
    reqwest::Client,
    reqwest::Error,
>) {
    reqwest::ClientBuilder::new().default_headers(h).build()
}

} // verus!
