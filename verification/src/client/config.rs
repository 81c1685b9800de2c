//! What a client is configured with: the endpoints, at most one way to
//! authenticate, a proxy and the headers that every request carries.

use crate::list::reversed;
use vstd::prelude::*;

verus! {

/// How the client authenticates. A configuration holds one of the two at
/// most: setting one replaces the other.
#[derive(Clone, Eq, PartialEq)]
pub enum Authentication {
    Bearer { token: String },
    Basic { username: String, password: Option<String> },
}

impl Authentication {
    /// The authentication as a message may show it. No secret is in it.
    pub open spec fn shown(&self) -> Seq<char> {
        match self {
            Authentication::Bearer { .. } => "Bearer ******"@,
            Authentication::Basic { username, .. } => "Basic "@ + username@ + ":******"@,
        }
    }

    /// The authentication as a diagnostic dump may show it. No secret is in
    /// it.
    pub open spec fn dumped(&self) -> Seq<char> {
        match self {
            Authentication::Bearer { .. } => "BearerAuthentication { token: ****** }"@,
            Authentication::Basic { username, .. } => "BasicAuthentication { username: "@
                + username@ + ", password ****** }"@,
        }
    }

    /// The authentication as a message may show it: the kind, the user name
    /// where there is one, and asterisks in place of the secret.
    pub fn to_string(&self) -> (r: String)
        ensures
            r@ == self.shown(),
    {
        match self {
            Authentication::Bearer { .. } => String::from_str("Bearer ******"),
            Authentication::Basic { username, .. } => {
                let mut r = String::from_str("Basic ");
                r.append(username.as_str());
                r.append(":******");
                r
            },
        }
    }

    /// The authentication as a diagnostic dump may show it, with asterisks in
    /// place of the secret.
    pub fn to_debug_string(&self) -> (r: String)
        ensures
            r@ == self.dumped(),
    {
        match self {
            Authentication::Bearer { .. } => String::from_str(
                "BearerAuthentication { token: ****** }",
            ),
            Authentication::Basic { username, .. } => {
                let mut r = String::from_str("BasicAuthentication { username: ");
                r.append(username.as_str());
                r.append(", password ****** }");
                r
            },
        }
    }

    /// What is shown of a bearer token does not depend on the token, and what
    /// is shown of a user name and password does not depend on the password.
    pub proof fn lemma_secret_not_shown(a: Authentication, b: Authentication)
        requires
            a is Bearer && b is Bearer || (a matches Authentication::Basic { username: ua, .. }
                && b matches Authentication::Basic { username: ub, .. } && ua@ == ub@),
        ensures
            a.shown() == b.shown(),
            a.dumped() == b.dumped(),
    {
    }
}

/// The value that each name has once the pairs were set one after the other:
/// where a name occurs twice, its later value stands.
pub open spec fn settings(pairs: Seq<(String, String)>) -> Map<Seq<char>, Seq<char>>
    decreases pairs.len(),
{
    if pairs.len() == 0 {
        Map::empty()
    } else {
        settings(pairs.drop_last()).insert(pairs.last().0@, pairs.last().1@)
    }
}

/// The names of the pairs, in their order.
pub open spec fn names(pairs: Seq<(String, String)>) -> Seq<Seq<char>> {
    pairs.map_values(|pair: (String, String)| pair.0@)
}

/// The names of the pairs, each once, in the order in which they first occur.
pub open spec fn names_once(pairs: Seq<(String, String)>) -> Seq<Seq<char>>
    decreases pairs.len(),
{
    if pairs.len() == 0 {
        Seq::empty()
    } else if names_once(pairs.drop_last()).contains(pairs.last().0@) {
        names_once(pairs.drop_last())
    } else {
        names_once(pairs.drop_last()).push(pairs.last().0@)
    }
}

/// No name occurs twice among the pairs.
pub open spec fn names_distinct(pairs: Seq<(String, String)>) -> bool {
    forall|i: int, j: int| 0 <= i < j < pairs.len() ==> pairs[i].0@ != pairs[j].0@
}

/// The configuration of a client.
#[derive(Clone)]
pub struct SchemaRegistryConfig {
    /// The base URLs of the registry's endpoints, in the order given.
    pub urls: Vec<String>,
    /// How to authenticate, if at all.
    pub authentication: Option<Authentication>,
    /// The URL of a proxy for all traffic.
    pub proxy: Option<String>,
    /// The headers to send with every request, each name once.
    pub headers: Option<Vec<(String, String)>>,
}

impl Default for SchemaRegistryConfig {
    fn default() -> (r: Self)
        ensures
            r.is_unset(),
    {
        SchemaRegistryConfig { urls: Vec::new(), authentication: None, proxy: None, headers: None }
    }
}

impl SchemaRegistryConfig {
    /// Nothing is configured: no endpoint, no authentication, no proxy and no
    /// headers.
    pub open spec fn is_unset(&self) -> bool {
        &&& self.urls@.len() == 0
        &&& self.authentication is None
        &&& self.proxy is None
        &&& self.headers is None
    }

    /// A configuration with nothing in it.
    pub fn new() -> (r: Self)
        ensures
            r.is_unset(),
    {
        SchemaRegistryConfig { urls: Vec::new(), authentication: None, proxy: None, headers: None }
    }

    /// Adds an endpoint behind those that are configured.
    pub fn url(self, url: &str) -> (r: Self)
        ensures
            r == (SchemaRegistryConfig { urls: r.urls, ..self }),
            r.urls@.len() == self.urls@.len() + 1,
            r.urls@.drop_last() == self.urls@,
            r.urls@.last()@ == url@,
    {
        let mut r = self;
        r.urls.push(String::from_str(url));
        assert(r.urls@.drop_last() =~= self.urls@);
        r
    }

    /// Authenticates with a user name and, where one is given, a password,
    /// in place of whatever was configured. Without a user name nothing
    /// changes.
    pub fn basic_auth(self, username: Option<&String>, password: Option<&String>) -> (r: Self)
        ensures
            username is None ==> r == self,
            username matches Some(name) ==> r == (SchemaRegistryConfig {
                authentication: Some(
                    Authentication::Basic {
                        username: *name,
                        password: match password {
                            Some(p) => Some(*p),
                            None => None,
                        },
                    },
                ),
                ..self
            }),
    {
        match username {
            None => self,
            Some(name) => {
                let password = match password {
                    Some(p) => Some(p.clone()),
                    None => None,
                };
                let mut r = self;
                r.authentication = Some(Authentication::Basic { username: name.clone(), password });
                r
            },
        }
    }

    /// Authenticates with a bearer token, in place of whatever was
    /// configured. Without a token nothing changes.
    pub fn bearer_auth(self, token: Option<&String>) -> (r: Self)
        ensures
            token is None ==> r == self,
            token matches Some(t) ==> r == (SchemaRegistryConfig {
                authentication: Some(Authentication::Bearer { token: *t }),
                ..self
            }),
    {
        match token {
            None => self,
            Some(t) => {
                let mut r = self;
                r.authentication = Some(Authentication::Bearer { token: t.clone() });
                r
            },
        }
    }

    /// Sets the proxy, or takes it away where none is given.
    pub fn proxy(self, proxy: Option<&String>) -> (r: Self)
        ensures
            r == (SchemaRegistryConfig {
                proxy: match proxy {
                    Some(p) => Some(*p),
                    None => None,
                },
                ..self
            }),
    {
        let mut r = self;
        r.proxy = match proxy {
            Some(p) => Some(p.clone()),
            None => None,
        };
        r
    }

    /// Sets the headers to send with every request, in place of any that
    /// were configured. Each name is kept once, where it first stood and
    /// with the value that was given for it last.
    pub fn headers(self, headers: Vec<(String, String)>) -> (r: Self)
        ensures
            r == (SchemaRegistryConfig { headers: r.headers, ..self }),
            r.headers matches Some(kept) && names_distinct(kept@) && names(kept@) == names_once(
                headers@,
            ) && settings(kept@) == settings(headers@),
    {
        let mut r = self;
        r.headers = Some(each_name_once(headers));
        r
    }
}

/// Where `name` stands among the pairs, if it does.
fn position_of(pairs: &Vec<(String, String)>, name: &String) -> (r: Option<usize>)
    ensures
        match r {
            Some(at) => at < pairs@.len() && pairs@[at as int].0@ == name@,
            None => forall|i: int| 0 <= i < pairs@.len() ==> pairs@[i].0@ != name@,
        },
{
    let mut i: usize = 0;
    while i < pairs.len()
        invariant
            i <= pairs@.len(),
            forall|j: int| 0 <= j < i ==> pairs@[j].0@ != name@,
        decreases pairs@.len() - i,
    {
        if pairs[i].0 == *name {
            return Some(i);
        }
        i += 1;
    }
    None
}

/// The pairs with each name kept once, at the place where it first stood and
/// with the value that was given for it last.
fn each_name_once(pairs: Vec<(String, String)>) -> (kept: Vec<(String, String)>)
    ensures
        names_distinct(kept@),
        names(kept@) == names_once(pairs@),
        settings(kept@) == settings(pairs@),
{
    let ghost all = pairs@;
    let mut later = reversed(pairs);
    let mut kept: Vec<(String, String)> = Vec::new();
    assert(all.subrange(0, 0) =~= Seq::<(String, String)>::empty());
    while later.len() > 0
        invariant
            later@.len() <= all.len(),
            forall|i: int| 0 <= i < later@.len() ==> later@[i] == all[all.len() - 1 - i],
            names_distinct(kept@),
            names(kept@) =~= names_once(all.subrange(0, all.len() - later@.len())),
            settings(kept@) == settings(all.subrange(0, all.len() - later@.len())),
        decreases later@.len(),
    {
        let ghost done = all.len() - later@.len();
        let pair = later.pop().unwrap();
        assert(pair == all[done]);
        assert(all.subrange(0, done + 1).drop_last() =~= all.subrange(0, done));
        assert(all.subrange(0, done + 1).last() == pair);
        let ghost before = kept@;
        match position_of(&kept, &pair.0) {
            Some(at) => {
                proof {
                    lemma_settings_replace(kept@, at as int, pair);
                    assert(names(before)[at as int] == pair.0@);
                }
                kept.set(at, pair);
                assert(names(kept@) =~= names(before));
            },
            None => {
                assert(kept@.push(pair).drop_last() =~= kept@);
                assert(!names(before).contains(pair.0@)) by {
                    if names(before).contains(pair.0@) {
                        let i = choose|i: int|
                            0 <= i < names(before).len() && names(before)[i] == pair.0@;
                        assert(before[i].0@ == pair.0@);
                    }
                }
                kept.push(pair);
                assert(names(kept@) =~= names(before).push(pair.0@));
            },
        }
    }
    assert(all.subrange(0, all.len() as int) =~= all);
    kept
}

/// Giving one name of a list without repeated names another value is the
/// same as setting that value behind all the others.
proof fn lemma_settings_replace(pairs: Seq<(String, String)>, at: int, pair: (String, String))
    requires
        names_distinct(pairs),
        0 <= at < pairs.len(),
        pairs[at].0@ == pair.0@,
    ensures
        names_distinct(pairs.update(at, pair)),
        settings(pairs.update(at, pair)) == settings(pairs).insert(pair.0@, pair.1@),
    decreases pairs.len(),
{
    let changed = pairs.update(at, pair);
    let last = pairs.len() - 1;
    if at == last {
        assert(changed.drop_last() =~= pairs.drop_last());
        assert(settings(changed) =~= settings(pairs).insert(pair.0@, pair.1@));
    } else {
        assert(changed.drop_last() =~= pairs.drop_last().update(at, pair));
        assert(names_distinct(pairs.drop_last()));
        lemma_settings_replace(pairs.drop_last(), at, pair);
        assert(pairs[last].0@ != pair.0@);
        assert(settings(changed) =~= settings(pairs).insert(pair.0@, pair.1@));
    }
}

} // verus!
