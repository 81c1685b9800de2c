//! The errors a caller can receive, grouped by where they arise: while a
//! client is being configured, while one endpoint is being called, or while a
//! value of the registry's vocabulary is being parsed.

use http::header::{InvalidHeaderName, InvalidHeaderValue};
use vstd::prelude::*;
use vstd::std_specs::convert::FromSpecImpl;

verus! {

/// The error of `http::HeaderName::from_bytes`. Nothing is known of its inside.
#[verifier::external_type_specification]
#[verifier::external_body]
pub struct ExInvalidHeaderName(http::header::InvalidHeaderName);

/// The error of `http::HeaderValue::from_bytes`. Nothing is known of its inside.
#[verifier::external_type_specification]
#[verifier::external_body]
pub struct ExInvalidHeaderValue(http::header::InvalidHeaderValue);

/// The error of a `std::io::Write`. Nothing is known of its inside.
#[verifier::external_type_specification]
#[verifier::external_body]
pub struct ExIoError(std::io::Error);

/// The error of `reqwest`, for a proxy, a client under construction or a
/// transport failure. Nothing is known of its inside.
#[verifier::external_type_specification]
#[verifier::external_body]
pub struct ExTransportError(reqwest::Error);

/// The error of a `serde_json` decoder. Nothing is known of its inside.
#[verifier::external_type_specification]
#[verifier::external_body]
pub struct ExJsonError(serde_json::Error);

/// A failure raised while a client is constructed, never during a call.
#[allow(inconsistent_fields)]
#[derive(Debug)]
pub enum ConfigurationError {
    /// A configured header name is not a valid HTTP header name.
    InvalidHeaderName { source: InvalidHeaderName },
    /// A configured header value, or the authentication header, holds a byte
    /// that no HTTP header value may hold.
    InvalidHeaderValue { source: InvalidHeaderValue },
    /// The credentials could not be written to the encoder.
    Io { source: std::io::Error },
    /// The proxy URL was refused, or the transport could not be built.
    Proxy { source: reqwest::Error },
}

impl From<InvalidHeaderName> for ConfigurationError {
    fn from(source: InvalidHeaderName) -> (r: Self) {
        ConfigurationError::InvalidHeaderName { source }
    }
}

impl FromSpecImpl<InvalidHeaderName> for ConfigurationError {
    open spec fn obeys_from_spec() -> bool {
        true
    }

    open spec fn from_spec(source: InvalidHeaderName) -> Self {
        ConfigurationError::InvalidHeaderName { source }
    }
}

impl From<InvalidHeaderValue> for ConfigurationError {
    fn from(source: InvalidHeaderValue) -> (r: Self) {
        ConfigurationError::InvalidHeaderValue { source }
    }
}

impl FromSpecImpl<InvalidHeaderValue> for ConfigurationError {
    open spec fn obeys_from_spec() -> bool {
        true
    }

    open spec fn from_spec(source: InvalidHeaderValue) -> Self {
        ConfigurationError::InvalidHeaderValue { source }
    }
}

impl From<std::io::Error> for ConfigurationError {
    fn from(source: std::io::Error) -> (r: Self) {
        ConfigurationError::Io { source }
    }
}

impl FromSpecImpl<std::io::Error> for ConfigurationError {
    open spec fn obeys_from_spec() -> bool {
        true
    }

    open spec fn from_spec(source: std::io::Error) -> Self {
        ConfigurationError::Io { source }
    }
}

impl From<reqwest::Error> for ConfigurationError {
    fn from(source: reqwest::Error) -> (r: Self) {
        ConfigurationError::Proxy { source }
    }
}

impl FromSpecImpl<reqwest::Error> for ConfigurationError {
    open spec fn obeys_from_spec() -> bool {
        true
    }

    open spec fn from_spec(source: reqwest::Error) -> Self {
        ConfigurationError::Proxy { source }
    }
}

/// A failure of one call against one endpoint. The three kinds are told
/// apart by variant, not by message.
#[allow(inconsistent_fields)]
#[derive(Debug)]
pub enum HttpCallError {
    /// A response with a success status whose body did not decode into the
    /// type that was asked for: `body` is the response body as text, `target`
    /// names that type, `source` is the decoder's own error.
    JsonParse { body: String, target: &'static str, source: serde_json::Error },
    /// A response with any other status: the URL that answered, the status,
    /// and the response body as text.
    UpstreamError { url: String, status: u16, body: String },
    /// No response was obtained at all.
    Unexpected { source: reqwest::Error },
}

impl From<reqwest::Error> for HttpCallError {
    fn from(source: reqwest::Error) -> (r: Self) {
        HttpCallError::Unexpected { source }
    }
}

impl FromSpecImpl<reqwest::Error> for HttpCallError {
    open spec fn obeys_from_spec() -> bool {
        true
    }

    open spec fn from_spec(source: reqwest::Error) -> Self {
        HttpCallError::Unexpected { source }
    }
}

/// Every error of the library.
#[derive(Debug)]
pub enum SchemaRegistryError {
    Configuration(ConfigurationError),
    HttpCall(HttpCallError),
    /// A text that names no schema type.
    InvalidSchemaType { message: String },
    /// A text that names no compatibility level.
    InvalidCompatibilityLevel { message: String },
}

impl From<ConfigurationError> for SchemaRegistryError {
    fn from(source: ConfigurationError) -> (r: Self) {
        SchemaRegistryError::Configuration(source)
    }
}

impl FromSpecImpl<ConfigurationError> for SchemaRegistryError {
    open spec fn obeys_from_spec() -> bool {
        true
    }

    open spec fn from_spec(source: ConfigurationError) -> Self {
        SchemaRegistryError::Configuration(source)
    }
}

impl From<HttpCallError> for SchemaRegistryError {
    fn from(source: HttpCallError) -> (r: Self) {
        SchemaRegistryError::HttpCall(source)
    }
}

impl FromSpecImpl<HttpCallError> for SchemaRegistryError {
    open spec fn obeys_from_spec() -> bool {
        true
    }

    open spec fn from_spec(source: HttpCallError) -> Self {
        SchemaRegistryError::HttpCall(source)
    }
}

impl SchemaRegistryError {
    /// The error for a text `s` that names no schema type; it keeps the text.
    pub fn invalid_schema_type(s: &str) -> (r: Self)
        ensures
            r matches SchemaRegistryError::InvalidSchemaType { message } && message@ == s@,
    {
        SchemaRegistryError::InvalidSchemaType { message: String::from_str(s) }
    }
}

} // verus!
