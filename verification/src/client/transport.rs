//! From a configuration to the pieces of the transport: the headers that
//! every request carries, the proxy, and the `reqwest` client built on both.

use crate::client::auth::{auth_value, build_auth_headers, credentials_accepted};
use crate::client::config::SchemaRegistryConfig;
use crate::client::header::{
    authorization_name, header_map_entries, header_map_insert, header_map_names, header_map_new,
    header_name_from_bytes, header_value_from_bytes, is_header_name, is_header_value, no_headers,
    normalized_name, HEADER_MAP_ROOM,
};
use crate::error::ConfigurationError;
use http::header::HeaderMap;
use vstd::prelude::*;
use vstd::utf8::encode_utf8;

verus! {

/// A proxy of `reqwest`. Nothing is known of its inside.
#[verifier::external_type_specification]
#[verifier::external_body]
pub struct ExProxy(reqwest::Proxy);

/// A client of `reqwest`. Nothing is known of its inside.
#[verifier::external_type_specification]
#[verifier::external_body]
pub struct ExClient(reqwest::Client);

/// A client of `reqwest` in the making. Nothing is known of its inside.
#[verifier::external_type_specification]
#[verifier::external_body]
pub struct ExClientBuilder(reqwest::ClientBuilder);

/// Whether `reqwest::Proxy::all` takes the text for the URL of a proxy.
pub uninterp spec fn proxy_accepted(url: Seq<char>) -> bool;

/// `reqwest::Proxy::all`: a proxy for all traffic, or an error where the
/// text is not taken for the URL of a proxy.
#[verifier::external_body]
pub(crate) fn proxy_for_all(url: &str) -> (r: Result<reqwest::Proxy, reqwest::Error>)
    ensures
        r is Ok <==> proxy_accepted(url@),
{
    reqwest::Proxy::all(url)
}

/// `reqwest::Client::builder`: a builder with `reqwest`'s defaults, which
/// hold one header.
pub assume_specification[ reqwest::Client::builder ]() -> (r: reqwest::ClientBuilder);

/// `reqwest::ClientBuilder::default_headers`: copies each header into the
/// builder's own map, which holds one header besides; so the map given must
/// leave room for one.
pub assume_specification[ reqwest::ClientBuilder::default_headers ](
    builder: reqwest::ClientBuilder,
    headers: HeaderMap,
) -> (r: reqwest::ClientBuilder)
    requires
        header_map_names(headers) <= HEADER_MAP_ROOM,
;

/// `reqwest::ClientBuilder::proxy`: adds the proxy.
pub assume_specification[ reqwest::ClientBuilder::proxy ](
    builder: reqwest::ClientBuilder,
    proxy: reqwest::Proxy,
) -> (r: reqwest::ClientBuilder);

/// `reqwest::ClientBuilder::build`: the client, or the error of whatever part
/// of the transport could not be set up. Which of the two depends on the
/// machine.
pub assume_specification[ reqwest::ClientBuilder::build ](builder: reqwest::ClientBuilder) -> (r:
    Result<reqwest::Client, reqwest::Error>);

/// `Clone` of `reqwest::Client`: another handle on the same transport.
pub assume_specification[ <reqwest::Client as Clone>::clone ](client: &reqwest::Client) -> (r:
    reqwest::Client);

/// The most headers a configuration may hold. With the credentials and the
/// header that the transport adds of its own, no header map then runs out of
/// room.
pub const MAX_HEADERS: usize = 6551;

/// Both the name and the value of the pair are accepted for a header.
pub open spec fn pair_accepted(pair: (String, String)) -> bool {
    is_header_name(encode_utf8(pair.0@)) && is_header_value(encode_utf8(pair.1@))
}

/// Every pair is accepted for a header.
pub open spec fn all_accepted(pairs: Seq<(String, String)>) -> bool {
    forall|i: int| 0 <= i < pairs.len() ==> pair_accepted(#[trigger] pairs[i])
}

/// The pair at `i` is the first that is not accepted for a header.
pub open spec fn is_first_refused(pairs: Seq<(String, String)>, i: int) -> bool {
    &&& 0 <= i < pairs.len()
    &&& !pair_accepted(pairs[i])
    &&& forall|j: int| 0 <= j < i ==> pair_accepted(#[trigger] pairs[j])
}

/// `e` is the error that the pair is refused with: for its name where the
/// name is not accepted, else for its value.
pub open spec fn is_refusal_of(pair: (String, String), e: ConfigurationError) -> bool {
    if !is_header_name(encode_utf8(pair.0@)) {
        e is InvalidHeaderName
    } else {
        !is_header_value(encode_utf8(pair.1@)) && e is InvalidHeaderValue
    }
}

/// `e` is the error of the first pair that is not accepted for a header.
pub open spec fn is_first_refusal(pairs: Seq<(String, String)>, e: ConfigurationError) -> bool {
    exists|i: int| is_first_refused(pairs, i) && is_refusal_of(pairs[i], e)
}

/// What a header map holds once the pairs were inserted one after the other:
/// each name with capital letters made small, with the one value that was
/// given last for it, not sensitive.
pub open spec fn header_entries(pairs: Seq<(String, String)>) -> Map<Seq<u8>, Seq<(Seq<u8>, bool)>>
    decreases pairs.len(),
{
    if pairs.len() == 0 {
        no_headers()
    } else {
        header_entries(pairs.drop_last()).insert(
            normalized_name(encode_utf8(pairs.last().0@)),
            seq![(encode_utf8(pairs.last().1@), false)],
        )
    }
}

/// The headers of a configuration, none where none were set.
pub open spec fn configured_headers(conf: SchemaRegistryConfig) -> Seq<(String, String)> {
    match conf.headers {
        Some(headers) => headers@,
        None => Seq::empty(),
    }
}

/// What the header map of a client holds: the configured headers, and over
/// them the credentials where there are any.
pub open spec fn client_entries(conf: SchemaRegistryConfig) -> Map<Seq<u8>, Seq<(Seq<u8>, bool)>> {
    match conf.authentication {
        Some(auth) => header_entries(configured_headers(conf)).insert(
            authorization_name(),
            seq![(auth_value(auth), true)],
        ),
        None => header_entries(configured_headers(conf)),
    }
}

/// The credentials of the configuration, if there are any, make a header.
pub open spec fn credentials_fit(conf: SchemaRegistryConfig) -> bool {
    match conf.authentication {
        Some(auth) => credentials_accepted(auth),
        None => true,
    }
}

/// Every configured header is accepted, and so are the credentials.
pub open spec fn headers_accepted(conf: SchemaRegistryConfig) -> bool {
    all_accepted(configured_headers(conf)) && credentials_fit(conf)
}

/// `e` is the error that the headers of the configuration end in: that of
/// the first pair that is refused, or else that of the credentials.
pub open spec fn is_headers_error(conf: SchemaRegistryConfig, e: ConfigurationError) -> bool {
    if !all_accepted(configured_headers(conf)) {
        is_first_refusal(configured_headers(conf), e)
    } else {
        !credentials_fit(conf) && e is InvalidHeaderValue
    }
}

/// The configuration names a proxy whose URL is not accepted.
pub open spec fn proxy_refused(conf: SchemaRegistryConfig) -> bool {
    conf.proxy matches Some(url) && !proxy_accepted(url@)
}

/// `e` is an error that building the transport for the configuration can
/// end in: the error of its headers where they are not accepted, and
/// otherwise that of the proxy or of the transport itself.
pub open spec fn is_transport_error(conf: SchemaRegistryConfig, e: ConfigurationError) -> bool {
    if !headers_accepted(conf) {
        is_headers_error(conf, e)
    } else {
        e is Proxy
    }
}

/// The header map for the pairs, inserted in their order. The first pair
/// whose name or value is not accepted ends the work with its error.
pub fn build_headers(headers: &Vec<(String, String)>) -> (r: Result<
    HeaderMap,
    ConfigurationError,
>)
    requires
        headers@.len() <= MAX_HEADERS,
    ensures
        match r {
            Ok(map) => {
                &&& all_accepted(headers@)
                &&& header_map_entries(map) == header_entries(headers@)
                &&& header_map_names(map) <= headers@.len()
            },
            Err(e) => is_first_refusal(headers@, e),
        },
{
    let mut map = header_map_new();
    let mut i: usize = 0;
    assert(headers@.take(0) =~= Seq::<(String, String)>::empty());
    while i < headers.len()
        invariant
            i <= headers@.len() <= MAX_HEADERS,
            all_accepted(headers@.take(i as int)),
            header_map_entries(map) == header_entries(headers@.take(i as int)),
            header_map_names(map) <= i,
        decreases headers@.len() - i,
    {
        let ghost pair = headers@[i as int];
        assert forall|j: int| 0 <= j < i implies pair_accepted(#[trigger] headers@[j]) by {
            assert(headers@.take(i as int)[j] == headers@[j]);
        }
        let name = match header_name_from_bytes(headers[i].0.as_str().as_bytes()) {
            Ok(name) => name,
            Err(source) => {
                let e = ConfigurationError::InvalidHeaderName { source };
                assert(is_first_refused(headers@, i as int) && is_refusal_of(pair, e));
                return Err(e);
            },
        };
        let value = match header_value_from_bytes(headers[i].1.as_str().as_bytes()) {
            Ok(value) => value,
            Err(source) => {
                let e = ConfigurationError::InvalidHeaderValue { source };
                assert(is_first_refused(headers@, i as int) && is_refusal_of(pair, e));
                return Err(e);
            },
        };
        header_map_insert(&mut map, name, value);
        assert(headers@.take(i + 1).drop_last() =~= headers@.take(i as int));
        assert(headers@.take(i + 1).last() == pair);
        assert forall|j: int| 0 <= j < i + 1 implies pair_accepted(
            #[trigger] headers@.take(i + 1)[j],
        ) by {
            if j < i {
                assert(headers@.take(i as int)[j] == headers@.take(i + 1)[j]);
            }
        }
        i += 1;
    }
    assert(headers@.take(i as int) =~= headers@);
    Ok(map)
}

/// The proxy for all traffic at the given URL.
pub fn build_proxy(proxy: &String) -> (r: Result<reqwest::Proxy, ConfigurationError>)
    ensures
        r is Ok <==> proxy_accepted(proxy@),
        r matches Err(e) ==> e is Proxy,
{
    match proxy_for_all(proxy.as_str()) {
        Ok(proxy) => Ok(proxy),
        Err(source) => Err(ConfigurationError::Proxy { source }),
    }
}

/// The headers that every request of a client carries: the configured
/// headers, and over them the credentials. Credentials replace a configured
/// header of the name `authorization`.
pub fn default_headers(conf: &SchemaRegistryConfig) -> (r: Result<HeaderMap, ConfigurationError>)
    requires
        configured_headers(*conf).len() <= MAX_HEADERS,
    ensures
        match r {
            Ok(map) => {
                &&& headers_accepted(*conf)
                &&& header_map_entries(map) == client_entries(*conf)
                &&& header_map_names(map) <= configured_headers(*conf).len() + 1
            },
            Err(e) => !headers_accepted(*conf) && is_headers_error(*conf, e),
        },
{
    let mut map = match &conf.headers {
        Some(headers) => match build_headers(headers) {
            Ok(map) => map,
            Err(e) => {
                return Err(e);
            },
        },
        None => header_map_new(),
    };
    match &conf.authentication {
        Some(auth) => match build_auth_headers(auth) {
            Ok(header) => {
                header_map_insert(&mut map, header.0, header.1);
            },
            Err(e) => {
                return Err(e);
            },
        },
        None => {},
    }
    Ok(map)
}

/// What the construction of a client comes to once the transport has been
/// through its own: the client, or a configuration error with the
/// transport's error.
pub fn built_client(built: Result<reqwest::Client, reqwest::Error>) -> (r: Result<
    reqwest::Client,
    ConfigurationError,
>)
    ensures
        match built {
            Ok(client) => r == Ok::<reqwest::Client, ConfigurationError>(client),
            Err(source) => r == Err::<reqwest::Client, ConfigurationError>(
                ConfigurationError::Proxy { source },
            ),
        },
{
    match built {
        Ok(client) => Ok(client),
        Err(source) => Err(ConfigurationError::Proxy { source }),
    }
}

/// The transport of a client: a `reqwest` client that sends the headers of
/// `default_headers` with every request and goes through the proxy where one
/// is configured.
///
/// The headers are looked at first, then the proxy; an error of the headers
/// is reported in preference to one of the proxy. Headers or credentials
/// that are not accepted end in their error, and a proxy URL that is not
/// accepted ends in the proxy's. Whether the transport itself can then be
/// set up is for `reqwest` to say, so an error of the proxy's kind can come
/// on any configuration and success is promised on none.
pub fn build_http_client(conf: &SchemaRegistryConfig) -> (r: Result<
    reqwest::Client,
    ConfigurationError,
>)
    requires
        configured_headers(*conf).len() <= MAX_HEADERS,
    ensures
        match r {
            Ok(_) => headers_accepted(*conf) && !proxy_refused(*conf),
            Err(e) => is_transport_error(*conf, e),
        },
{
    let headers = match default_headers(conf) {
        Ok(headers) => headers,
        Err(e) => {
            return Err(e);
        },
    };
    let proxy = match &conf.proxy {
        Some(url) => match build_proxy(url) {
            Ok(proxy) => Some(proxy),
            Err(e) => {
                return Err(e);
            },
        },
        None => None,
    };
    let mut builder = reqwest::Client::builder().default_headers(headers);
    match proxy {
        Some(proxy) => {
            builder = builder.proxy(proxy);
        },
        None => {},
    }
    built_client(builder.build())
}

} // verus!
