//! The client: its configuration, the requests of each operation, the race
//! over the configured endpoints and the classification of their answers.

use crate::client::config::SchemaRegistryConfig;
use crate::client::executor::startable;
use crate::client::request::{texts, urls_for, Method, Request};
use crate::client::transport::{
    build_http_client, configured_headers, headers_accepted, is_transport_error, proxy_refused,
    MAX_HEADERS,
};
use crate::error::SchemaRegistryError;
use vstd::prelude::*;

pub mod auth;
pub mod config;
pub mod decoder;
pub mod executor;
pub mod header;
pub mod implementation;
pub mod request;
pub mod transport;

verus! {

/// A client of a schema registry: the endpoints it was configured with, in
/// their order, and the transport that reaches them. Neither changes once
/// the client is built.
#[derive(Clone)]
pub struct SchemaRegistryClient {
    urls: Vec<String>,
    http: reqwest::Client,
}

impl SchemaRegistryClient {
    /// The base URLs of the endpoints, in the order in which they were
    /// configured.
    pub closed spec fn endpoints(&self) -> Seq<Seq<char>> {
        texts(self.urls@)
    }

    /// A client for the one endpoint at `url`, with no credentials, no proxy
    /// and no headers of its own. Only the transport can fail.
    pub fn from_url(url: &str) -> (r: Result<Self, SchemaRegistryError>)
        ensures
            match r {
                Ok(client) => client.endpoints() == seq![url@],
                Err(e) => e matches SchemaRegistryError::Configuration(source) && source is Proxy,
            },
    {
        let conf = SchemaRegistryConfig::new().url(url);
        match build_http_client(&conf) {
            Ok(http) => {
                let mut urls: Vec<String> = Vec::new();
                urls.push(String::from_str(url));
                assert(texts(urls@) =~= seq![url@]);
                Ok(SchemaRegistryClient { urls, http })
            },
            Err(source) => Err(SchemaRegistryError::Configuration(source)),
        }
    }

    /// A client for the endpoints of the configuration, with its
    /// credentials, proxy and headers.
    ///
    /// A header or credentials that are not accepted end the construction
    /// with their error; so does a proxy that is not accepted, or a
    /// transport that cannot be set up, with the transport's error. Where
    /// the construction succeeds, nothing of the configuration was refused
    /// and the client has its endpoints, in their order.
    pub fn from_conf(conf: SchemaRegistryConfig) -> (r: Result<Self, SchemaRegistryError>)
        requires
            configured_headers(conf).len() <= MAX_HEADERS,
        ensures
            match r {
                Ok(client) => {
                    &&& client.endpoints() == texts(conf.urls@)
                    &&& headers_accepted(conf)
                    &&& !proxy_refused(conf)
                },
                Err(SchemaRegistryError::Configuration(e)) => is_transport_error(conf, e),
                Err(_) => false,
            },
    {
        match build_http_client(&conf) {
            Ok(http) => Ok(SchemaRegistryClient { urls: conf.urls, http }),
            Err(source) => Err(SchemaRegistryError::Configuration(source)),
        }
    }

    /// The base URLs of the endpoints.
    pub fn urls(&self) -> (r: &Vec<String>)
        ensures
            texts(r@) == self.endpoints(),
    {
        &self.urls
    }

    /// The transport that the client was built with.
    pub closed spec fn transport(&self) -> reqwest::Client {
        self.http
    }

    /// The transport that the client was built with, for sending requests.
    pub fn http(&self) -> (r: &reqwest::Client)
        ensures
            *r == self.transport(),
    {
        &self.http
    }

    /// Whether the client has an endpoint at all. A client without one can
    /// make no call.
    pub fn has_endpoints(&self) -> (r: bool)
        ensures
            r == (self.endpoints().len() > 0),
    {
        self.urls.len() > 0
    }

    /// The call of `method` on `path` with `body`, made ready for every
    /// endpoint of the client.
    pub fn call<B>(&self, method: Method, path: String, body: Option<B>) -> (r: Request<B>)
        ensures
            r.is_call(self.endpoints(), method, path@, body),
    {
        let urls = urls_for(&self.urls, path.as_str());
        Request {
            method,
            path,
            urls,
            accept: crate::client::decoder::VND_SCHEMA_REGISTRY_V1_JSON,
            body,
        }
    }
}

/// A client without endpoints can make no call. Whatever the operation,
/// its request then stands for no call at all, and no race can be started
/// over it: nothing is sent and nothing is waited for.
pub proof fn lemma_no_endpoint_no_call<B>(
    client: SchemaRegistryClient,
    request: Request<B>,
    method: Method,
    path: Seq<char>,
    body: Option<B>,
)
    requires
        client.endpoints().len() == 0,
        request.is_call(client.endpoints(), method, path, body),
    ensures
        request.urls@.len() == 0,
        !startable(request.urls@.len()),
{
}

/// A client with an endpoint makes one call for each endpoint, and a race
/// over them can be started.
pub proof fn lemma_endpoints_make_calls<B>(
    client: SchemaRegistryClient,
    request: Request<B>,
    method: Method,
    path: Seq<char>,
    body: Option<B>,
)
    requires
        client.endpoints().len() > 0,
        request.is_call(client.endpoints(), method, path, body),
    ensures
        request.urls@.len() == client.endpoints().len(),
        startable(request.urls@.len()),
{
}

} // verus!
