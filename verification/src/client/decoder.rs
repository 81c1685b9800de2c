//! What one endpoint's answer comes to. An answer with a status from 200 to
//! 299 is a success and its body is decoded; with any other status it is the
//! registry's own refusal, and the body is kept as text for the caller.

use crate::error::HttpCallError;
use vstd::prelude::*;
use vstd::utf8::{decode_utf8, valid_utf8};

verus! {

/// The media type that every request asks for.
pub const VND_SCHEMA_REGISTRY_V1_JSON: &'static str = "application/vnd.schemaregistry.v1+json";

/// The text that bytes are read as when they are not held to be UTF-8: what
/// `String::from_utf8_lossy` makes of them.
pub uninterp spec fn utf8_lossy(bytes: Seq<u8>) -> Seq<char>;

/// `String::from_utf8_lossy`: the bytes as text, with a replacement
/// character wherever they are not UTF-8. Bytes that are UTF-8 come out as
/// the text they encode.
#[verifier::external_body]
pub(crate) fn text_from_utf8_lossy(bytes: &[u8]) -> (r: String)
    ensures
        r@ == utf8_lossy(bytes@),
        valid_utf8(bytes@) ==> r@ == decode_utf8(bytes@),
{
    String::from_utf8_lossy(bytes).into_owned()
}

/// `text` is the body `bytes` as a caller gets to read it: the text that the
/// bytes encode where they are UTF-8, and otherwise that text with a
/// replacement character for whatever is not.
pub open spec fn is_body_text(text: Seq<char>, bytes: Seq<u8>) -> bool {
    &&& text == utf8_lossy(bytes)
    &&& valid_utf8(bytes) ==> text == decode_utf8(bytes)
}

/// The status is one of success: 200 to 299.
pub open spec fn is_success(status: u16) -> bool {
    200 <= status <= 299
}

/// Whether the status is one of success.
pub fn status_is_success(status: u16) -> (r: bool)
    ensures
        r == is_success(status),
{
    200 <= status && status <= 299
}

/// The error for an answer with a status that is not one of success: it
/// keeps the URL that answered, the status and the body as text.
pub fn upstream_error(url: String, status: u16, bytes: &[u8]) -> (r: HttpCallError)
    ensures
        r matches HttpCallError::UpstreamError { url: u, status: s, body } && u == url && s
            == status && is_body_text(body@, bytes@),
{
    HttpCallError::UpstreamError { url, status, body: text_from_utf8_lossy(bytes) }
}

/// The error for a successful answer whose body did not decode: it keeps the
/// body as text, the name of the type that was asked for and the decoder's
/// error.
pub fn decode_error(bytes: &[u8], target: &'static str, source: serde_json::Error) -> (r:
    HttpCallError)
    ensures
        r matches HttpCallError::JsonParse { body, target: t, source: s } && is_body_text(
            body@,
            bytes@,
        ) && t == target && s == source,
{
    HttpCallError::JsonParse { body: text_from_utf8_lossy(bytes), target, source }
}

/// What an answer comes to, given the URL that answered, its status and its
/// body, the name of the type that is expected and a decoder for it.
///
/// With a status of success the decoder is run on the body: what it decodes
/// is the result, and where it fails the result is a decode error. With any
/// other status the decoder is not run and the result is an upstream error.
pub fn parse_response<T, D: FnOnce(&[u8]) -> Result<T, serde_json::Error>>(
    url: String,
    status: u16,
    bytes: &[u8],
    target: &'static str,
    decode: D,
) -> (r: Result<T, HttpCallError>)
    requires
        is_success(status) ==> call_requires(decode, (bytes,)),
    ensures
        is_success(status) ==> match r {
            Ok(value) => call_ensures(decode, (bytes,), Ok(value)),
            Err(HttpCallError::JsonParse { body, target: t, source }) => {
                &&& call_ensures(decode, (bytes,), Err(source))
                &&& is_body_text(body@, bytes@)
                &&& t == target
            },
            Err(_) => false,
        },
        !is_success(status) ==> match r {
            Err(HttpCallError::UpstreamError { url: u, status: s, body }) => {
                &&& u == url
                &&& s == status
                &&& is_body_text(body@, bytes@)
            },
            _ => false,
        },
{
    if status_is_success(status) {
        match decode(bytes) {
            Ok(value) => Ok(value),
            Err(source) => Err(decode_error(bytes, target, source)),
        }
    } else {
        Err(upstream_error(url, status, bytes))
    }
}

/// An answer is a decode error or an upstream error by its status alone: the
/// first needs a status of success, the second any other. No answer can be
/// taken for both.
pub proof fn lemma_kinds_distinct<T>(status: u16, outcome: Result<T, HttpCallError>)
    requires
        is_success(status) ==> outcome is Ok || outcome matches Err(
            HttpCallError::JsonParse { .. },
        ),
        !is_success(status) ==> outcome matches Err(HttpCallError::UpstreamError { .. }),
    ensures
        outcome matches Err(HttpCallError::UpstreamError { .. }) <==> !is_success(status),
        outcome matches Err(HttpCallError::JsonParse { .. }) ==> is_success(status),
        !(outcome matches Err(HttpCallError::Unexpected { .. })),
{
}

} // verus!
