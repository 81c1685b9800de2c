//! HTTP headers. The header types are those of the `http` crate; this module
//! says which bytes they accept and what they then hold.

use http::header::{HeaderMap, HeaderName, HeaderValue, InvalidHeaderName, InvalidHeaderValue};
use vstd::prelude::*;

verus! {

/// A header name of the `http` crate. What it holds is `header_name_text`.
#[verifier::external_type_specification]
#[verifier::external_body]
pub struct ExHeaderName(http::header::HeaderName);

/// A header value of the `http` crate. What it holds is `header_value_bytes`
/// and `header_value_sensitive`.
#[verifier::external_type_specification]
#[verifier::external_body]
pub struct ExHeaderValue(http::header::HeaderValue);

/// The header map of the `http` crate. What it holds is `header_map_entries`.
#[verifier::external_type_specification]
#[verifier::external_body]
#[verifier::reject_recursive_types(T)]
pub struct ExHeaderMap<T>(http::header::HeaderMap<T>);

/// The bytes of a header name: what `HeaderName::as_str` gives.
pub uninterp spec fn header_name_text(name: HeaderName) -> Seq<u8>;

/// The bytes of a header value: what `HeaderValue::as_bytes` gives.
pub uninterp spec fn header_value_bytes(value: HeaderValue) -> Seq<u8>;

/// Whether a header value is marked as sensitive, so that it is kept out of
/// logs: what `HeaderValue::is_sensitive` gives.
pub uninterp spec fn header_value_sensitive(value: HeaderValue) -> bool;

/// The names that a header map holds, each with its values in the order in
/// which `HeaderMap::get_all` gives them; a value is its bytes and whether it
/// is sensitive.
pub uninterp spec fn header_map_entries(map: HeaderMap<HeaderValue>) -> Map<
    Seq<u8>,
    Seq<(Seq<u8>, bool)>,
>;

/// What a header map holds when it holds nothing.
pub open spec fn no_headers() -> Map<Seq<u8>, Seq<(Seq<u8>, bool)>> {
    Map::empty()
}

/// The number of names that a header map holds: what `HeaderMap::keys_len`
/// gives.
pub uninterp spec fn header_map_names(map: HeaderMap<HeaderValue>) -> nat;

/// The most names a header map may hold for the next one to be sure of its
/// place. A map refuses a name only when its table would have to grow beyond
/// 32768 slots, and a table grows only when the names fill a fifth of it.
pub const HEADER_MAP_FULL: usize = 6553;

/// The most names a header map may hold for the next two to be sure of their
/// place.
pub const HEADER_MAP_ROOM: usize = 6552;

/// The byte may stand in a header value: a tab, or any byte from the space
/// on but DEL.
pub open spec fn is_header_value_byte(b: u8) -> bool {
    (b >= 32 && b != 127) || b == 9
}

/// The bytes make a header value.
pub open spec fn is_header_value(bytes: Seq<u8>) -> bool {
    forall|i: int| 0 <= i < bytes.len() ==> is_header_value_byte(#[trigger] bytes[i])
}

/// The byte that a header name holds where `b` was written: the small letter
/// for a capital one, `b` itself for any other character of a token, and 0
/// for a byte that may not stand in a header name.
pub open spec fn header_name_byte(b: u8) -> u8 {
    if 65 <= b <= 90 {
        (b + 32) as u8
    } else if (97 <= b <= 122) || (48 <= b <= 57) || b == 33 || (35 <= b <= 39) || b == 42 || b
        == 43 || b == 45 || b == 46 || b == 94 || b == 95 || b == 96 || b == 124 || b == 126 {
        b
    } else {
        0
    }
}

/// The bytes make a header name: between 1 and 65535 characters of a token.
pub open spec fn is_header_name(bytes: Seq<u8>) -> bool {
    &&& 1 <= bytes.len() <= 65535
    &&& forall|i: int| 0 <= i < bytes.len() ==> header_name_byte(#[trigger] bytes[i]) != 0
}

/// The header name that the bytes are read as: the same bytes, capital
/// letters made small.
pub open spec fn normalized_name(bytes: Seq<u8>) -> Seq<u8> {
    bytes.map_values(|b: u8| header_name_byte(b))
}

/// The name of the header that carries credentials.
pub open spec fn authorization_name() -> Seq<u8> {
    seq![97u8, 117u8, 116u8, 104u8, 111u8, 114u8, 105u8, 122u8, 97u8, 116u8, 105u8, 111u8, 110u8]
}

/// `http::HeaderName::from_bytes`: accepts exactly the names of
/// `is_header_name`, and the name it returns holds them with capital letters
/// made small.
#[verifier::external_body]
pub(crate) fn header_name_from_bytes(src: &[u8]) -> (r: Result<HeaderName, InvalidHeaderName>)
    ensures
        r is Ok <==> is_header_name(src@),
        r matches Ok(name) ==> header_name_text(name) == normalized_name(src@),
{
    HeaderName::from_bytes(src)
}

/// `http::HeaderValue::from_bytes`: accepts exactly the bytes of
/// `is_header_value`, and the value it returns holds them and is not
/// sensitive.
#[verifier::external_body]
pub(crate) fn header_value_from_bytes(src: &[u8]) -> (r: Result<HeaderValue, InvalidHeaderValue>)
    ensures
        r is Ok <==> is_header_value(src@),
        r matches Ok(value) ==> header_value_bytes(value) == src@ && !header_value_sensitive(
            value,
        ),
{
    HeaderValue::from_bytes(src)
}

/// `http::HeaderValue::set_sensitive`: sets the mark and leaves the bytes.
#[verifier::external_body]
pub(crate) fn header_value_set_sensitive(value: &mut HeaderValue, sensitive: bool)
    ensures
        header_value_bytes(*final(value)) == header_value_bytes(*old(value)),
        header_value_sensitive(*final(value)) == sensitive,
{
    value.set_sensitive(sensitive)
}

/// `http::header::AUTHORIZATION`: the header name `authorization`.
#[verifier::external_body]
pub(crate) fn authorization_header_name() -> (r: HeaderName)
    ensures
        header_name_text(r) == authorization_name(),
{
    http::header::AUTHORIZATION
}

/// `http::HeaderMap::new`: a map that holds nothing.
#[verifier::external_body]
pub(crate) fn header_map_new() -> (r: HeaderMap<HeaderValue>)
    ensures
        header_map_entries(r) == no_headers(),
        header_map_names(r) == 0,
{
    HeaderMap::new()
}

/// `http::HeaderMap::insert`: afterwards the name has the one value given,
/// whatever it had before, and every other name has what it had. The map
/// holds one name more at most. The call panics when the map cannot take
/// another name, which cannot be while it holds `HEADER_MAP_FULL` names or
/// fewer.
#[verifier::external_body]
pub(crate) fn header_map_insert(
    map: &mut HeaderMap<HeaderValue>,
    name: HeaderName,
    value: HeaderValue,
)
    requires
        header_map_names(*old(map)) <= HEADER_MAP_FULL,
    ensures
        header_map_entries(*final(map)) == header_map_entries(*old(map)).insert(
            header_name_text(name),
            seq![(header_value_bytes(value), header_value_sensitive(value))],
        ),
        header_map_names(*old(map)) <= header_map_names(*final(map)) <= header_map_names(
            *old(map),
        ) + 1,
{
    map.insert(name, value);
}

} // verus!
