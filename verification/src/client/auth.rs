//! The one header that carries the client's credentials: `authorization`,
//! with a bearer token or with a user name and password in base64.

use crate::client::config::Authentication;
use crate::client::header::{
    authorization_header_name, authorization_name, header_name_text, header_value_bytes,
    header_value_from_bytes, header_value_sensitive, header_value_set_sensitive, is_header_value,
    is_header_value_byte,
};
use crate::error::ConfigurationError;
use base64::engine::general_purpose::STANDARD;
use base64::write::EncoderWriter;
use http::header::{HeaderName, HeaderValue};
use std::io::Write;
use vstd::prelude::*;
use vstd::string::StringSliceAdditionalSpecFns;
use vstd::utf8::encode_utf8;

verus! {

/// The base64 text of `input`, in the standard alphabet and padded: what the
/// `base64` crate's `STANDARD` engine encodes `input` to.
pub uninterp spec fn base64_standard(input: Seq<u8>) -> Seq<u8>;

/// The byte may stand in padded base64 of the standard alphabet: a letter,
/// a digit, `+`, `/` or `=`.
pub open spec fn is_base64_byte(b: u8) -> bool {
    (65 <= b <= 90) || (97 <= b <= 122) || (48 <= b <= 57) || b == 43 || b == 47 || b == 61
}

/// Every byte may stand in padded base64 of the standard alphabet.
pub open spec fn is_base64_text(bytes: Seq<u8>) -> bool {
    forall|i: int| 0 <= i < bytes.len() ==> is_base64_byte(#[trigger] bytes[i])
}

/// `base64::write::EncoderWriter` over a fresh `Vec`, with the `STANDARD`
/// engine: `write_all` of the input, then `finish`. What was written is the
/// base64 text of the input, and every byte of it is of the standard
/// alphabet or the padding.
///
/// The call does not fail. The encoder hands on no error but that of the
/// writer it wraps, and a `Vec` takes every write whole, by appending. With
/// nothing left over from an earlier write, the encoder takes at least one
/// byte of any input that is not empty, so `write_all` never sees a write of
/// no bytes.
#[verifier::external_body]
pub(crate) fn encode_base64(input: &[u8]) -> (r: Result<Vec<u8>, std::io::Error>)
    ensures
        r is Ok,
        r matches Ok(text) ==> text@ == base64_standard(input@) && is_base64_text(text@),
{
    let mut encoder = EncoderWriter::new(Vec::new(), &STANDARD);
    encoder.write_all(input)?;
    encoder.finish()
}

/// The bytes of the header value for a bearer token.
pub open spec fn bearer_value(token: Seq<char>) -> Seq<u8> {
    encode_utf8("Bearer "@ + token)
}

/// The bytes that are encoded for a user name and password: the name, a
/// colon, and the password where there is one.
pub open spec fn basic_credentials(username: Seq<char>, password: Option<Seq<char>>) -> Seq<u8> {
    encode_utf8(
        username + ":"@ + match password {
            Some(p) => p,
            None => Seq::empty(),
        },
    )
}

/// The bytes of the header value for credentials whose base64 text is
/// `encoded`.
pub open spec fn basic_value(encoded: Seq<u8>) -> Seq<u8> {
    encode_utf8("Basic "@) + encoded
}

/// The bytes of the header value that authenticates as `auth`.
pub open spec fn auth_value(auth: Authentication) -> Seq<u8> {
    match auth {
        Authentication::Bearer { token } => bearer_value(token@),
        Authentication::Basic { username, password } => basic_value(
            base64_standard(
                basic_credentials(
                    username@,
                    match password {
                        Some(p) => Some(p@),
                        None => None,
                    },
                ),
            ),
        ),
    }
}

/// The credentials make a header. A bearer token does where a header value
/// may hold every byte of it; a user name and password always do, since
/// they are sent as base64 text.
pub open spec fn credentials_accepted(auth: Authentication) -> bool {
    match auth {
        Authentication::Bearer { token } => is_header_value(bearer_value(token@)),
        Authentication::Basic { .. } => true,
    }
}

/// `r` is what building the header for `auth` comes to: the sensitive
/// `authorization` header with the value for `auth` where the credentials
/// are accepted, and the error of a refused header value where they are not.
pub open spec fn is_auth_result(
    auth: Authentication,
    r: Result<(HeaderName, HeaderValue), ConfigurationError>,
) -> bool {
    match r {
        Ok(header) => credentials_accepted(auth) && is_auth_header(header, auth_value(auth)),
        Err(e) => !credentials_accepted(auth) && e is InvalidHeaderValue,
    }
}

/// The pair is the `authorization` header with the given bytes for its
/// value, marked as sensitive.
pub open spec fn is_auth_header(header: (HeaderName, HeaderValue), value: Seq<u8>) -> bool {
    &&& header_name_text(header.0) == authorization_name()
    &&& header_value_bytes(header.1) == value
    &&& header_value_sensitive(header.1)
}

/// The `authorization` header with the given bytes for its value, marked as
/// sensitive; refused where a byte may not stand in a header value.
fn sensitive_authorization(value: &[u8]) -> (r: Result<(HeaderName, HeaderValue), ConfigurationError>)
    ensures
        match r {
            Ok(header) => is_header_value(value@) && is_auth_header(header, value@),
            Err(e) => !is_header_value(value@) && e is InvalidHeaderValue,
        },
{
    match header_value_from_bytes(value) {
        Ok(header_value) => {
            let mut header_value = header_value;
            header_value_set_sensitive(&mut header_value, true);
            Ok((authorization_header_name(), header_value))
        },
        Err(source) => Err(ConfigurationError::InvalidHeaderValue { source }),
    }
}

/// The header for a bearer token: `authorization: Bearer <token>`, marked as
/// sensitive. A token with a byte that no header value may hold is refused.
pub fn bearer_auth(token: &str) -> (r: Result<(HeaderName, HeaderValue), ConfigurationError>)
    ensures
        match r {
            Ok(header) => is_header_value(bearer_value(token@)) && is_auth_header(
                header,
                bearer_value(token@),
            ),
            Err(e) => !is_header_value(bearer_value(token@)) && e is InvalidHeaderValue,
        },
{
    let mut text = String::from_str("Bearer ");
    text.append(token);
    sensitive_authorization(text.as_str().as_bytes())
}

/// The header for credentials that the encoder has been through: with their
/// base64 text, `authorization: Basic <text>`, marked as sensitive; with the
/// encoder's error, that error.
pub fn basic_auth_encoded(encoded: Result<Vec<u8>, std::io::Error>) -> (r: Result<
    (HeaderName, HeaderValue),
    ConfigurationError,
>)
    ensures
        match encoded {
            Ok(text) => match r {
                Ok(header) => is_header_value(basic_value(text@)) && is_auth_header(
                    header,
                    basic_value(text@),
                ),
                Err(e) => !is_header_value(basic_value(text@)) && e is InvalidHeaderValue,
            },
            Err(source) => r == Err::<(HeaderName, HeaderValue), ConfigurationError>(
                ConfigurationError::Io { source },
            ),
        },
{
    match encoded {
        Ok(text) => {
            let mut text = text;
            let mut value = "Basic ".as_bytes_vec();
            value.append(&mut text);
            sensitive_authorization(value.as_slice())
        },
        Err(source) => Err(ConfigurationError::Io { source }),
    }
}

/// The header for a user name and password:
/// `authorization: Basic <base64 of name:password>`, marked as sensitive.
/// Every user name and password give one: there is no input on which this
/// fails.
pub fn basic_auth(username: &str, password: Option<&str>) -> (r: Result<
    (HeaderName, HeaderValue),
    ConfigurationError,
>)
    ensures
        r matches Ok(header) && is_auth_header(
            header,
            basic_value(
                base64_standard(
                    basic_credentials(
                        username@,
                        match password {
                            Some(p) => Some(p@),
                            None => None,
                        },
                    ),
                ),
            ),
        ),
{
    let mut credentials = String::from_str(username);
    credentials.append(":");
    match password {
        Some(p) => {
            credentials.append(p);
        },
        None => {
            assert(credentials@ + Seq::<char>::empty() =~= credentials@);
        },
    }
    let encoded = encode_base64(credentials.as_str().as_bytes());
    proof {
        if encoded is Ok {
            lemma_basic_value_accepted(encoded->Ok_0@);
        }
    }
    basic_auth_encoded(encoded)
}

/// The header that authenticates as `auth`: for a bearer token that of
/// `bearer_auth`, for a user name and password that of `basic_auth`. It
/// fails on a bearer token that no header value may hold, and on nothing
/// else.
pub fn build_auth_headers(auth: &Authentication) -> (r: Result<
    (HeaderName, HeaderValue),
    ConfigurationError,
>)
    ensures
        is_auth_result(*auth, r),
{
    match auth {
        Authentication::Bearer { token } => bearer_auth(token.as_str()),
        Authentication::Basic { username, password } => {
            let password = match password {
                Some(p) => Some(p.as_str()),
                None => None,
            };
            basic_auth(username.as_str(), password)
        },
    }
}

/// A header value may hold `Basic ` followed by any base64 text.
pub proof fn lemma_basic_value_accepted(encoded: Seq<u8>)
    requires
        is_base64_text(encoded),
    ensures
        is_header_value(basic_value(encoded)),
{
    broadcast use vstd::string::group_string_axioms;

    reveal_strlit("Basic ");
    let prefix = "Basic ";
    assert(vstd::string::is_ascii(prefix));
    assert(prefix.spec_bytes() =~= Seq::new(prefix@.len(), |i: int| prefix@.index(i) as u8));
    let value = basic_value(encoded);
    assert forall|i: int| 0 <= i < value.len() implies is_header_value_byte(
        #[trigger] value[i],
    ) by {
        if i >= 6 {
            assert(value[i] == encoded[i - 6]);
            assert(is_base64_byte(encoded[i - 6]));
        }
    }
}

/// Building the header twice for the same credentials comes to the same:
/// both times it fails, or both times it gives the same name and the same
/// bytes, marked as sensitive.
pub proof fn lemma_auth_header_repeatable(
    auth: Authentication,
    first: Result<(HeaderName, HeaderValue), ConfigurationError>,
    second: Result<(HeaderName, HeaderValue), ConfigurationError>,
)
    requires
        is_auth_result(auth, first),
        is_auth_result(auth, second),
    ensures
        first is Ok <==> second is Ok,
        first is Err ==> first->Err_0 is InvalidHeaderValue && second->Err_0 is InvalidHeaderValue,
        match (first, second) {
            (Ok(a), Ok(b)) => {
                &&& header_name_text(a.0) == header_name_text(b.0)
                &&& header_value_bytes(a.1) == header_value_bytes(b.1)
                &&& header_value_sensitive(a.1) && header_value_sensitive(b.1)
            },
            _ => true,
        },
{
}

} // verus!
