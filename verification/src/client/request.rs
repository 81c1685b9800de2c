//! One logical call: a method, a path under every endpoint, the media type
//! that is asked for and, for some operations, a body.

use crate::client::decoder::VND_SCHEMA_REGISTRY_V1_JSON;
use vstd::prelude::*;

verus! {

/// The HTTP method of a request.
#[derive(Debug, Clone, Copy, Eq, PartialEq, Structural)]
pub enum Method {
    Get,
    Post,
    Put,
    Delete,
}

/// One logical call, made ready for every endpoint. It is built anew for
/// each call and sent once to each endpoint.
#[derive(Debug)]
pub struct Request<B> {
    /// The method, the same for every endpoint.
    pub method: Method,
    /// The path below an endpoint's base URL, with its query.
    pub path: String,
    /// The full URL for each endpoint, in the order of the endpoints.
    pub urls: Vec<String>,
    /// The value of the `Accept` header.
    pub accept: &'static str,
    /// What is sent as the JSON body, if anything.
    pub body: Option<B>,
}

impl<B> Request<B> {
    /// The request is the call of `method` on `path` with `body`, made ready
    /// for the given endpoints: one URL for each, the endpoint's base URL
    /// followed by the path, and the registry's media type asked for.
    pub open spec fn is_call(
        &self,
        endpoints: Seq<Seq<char>>,
        method: Method,
        path: Seq<char>,
        body: Option<B>,
    ) -> bool {
        &&& self.method == method
        &&& self.path@ == path
        &&& self.accept@ == VND_SCHEMA_REGISTRY_V1_JSON@
        &&& self.body == body
        &&& self.urls@.len() == endpoints.len()
        &&& forall|i: int|
            0 <= i < endpoints.len() ==> (#[trigger] self.urls@[i])@ == endpoints[i] + path
    }

    /// The number of calls that the request stands for: one for each
    /// endpoint.
    pub fn calls(&self) -> (n: usize)
        ensures
            n == self.urls@.len(),
    {
        self.urls.len()
    }
}

/// The texts of the URLs.
pub open spec fn texts(urls: Seq<String>) -> Seq<Seq<char>> {
    urls.map_values(|url: String| url@)
}

/// The URL of `path` under each base URL, in the order of the base URLs.
pub fn urls_for(bases: &Vec<String>, path: &str) -> (r: Vec<String>)
    ensures
        r@.len() == bases@.len(),
        forall|i: int| 0 <= i < bases@.len() ==> (#[trigger] r@[i])@ == bases@[i]@ + path@,
{
    let mut r: Vec<String> = Vec::new();
    let mut i: usize = 0;
    while i < bases.len()
        invariant
            i <= bases@.len(),
            r@.len() == i,
            forall|j: int| 0 <= j < i ==> (#[trigger] r@[j])@ == bases@[j]@ + path@,
        decreases bases@.len() - i,
    {
        let mut url = bases[i].clone();
        url.append(path);
        r.push(url);
        i += 1;
    }
    r
}

} // verus!
