//! How to reach a node: endpoint, credentials, timeout and headers.
use vstd::prelude::*;

verus! {

/// Extra HTTP headers, by name.
#[verifier::external_body]
pub struct Headers {
    map: hashbrown::HashMap<String, String>,
}

/// The headers that `h` holds, by name.
pub uninterp spec fn header_entries(h: Headers) -> Map<Seq<char>, Seq<char>>;

impl Headers {
    /// Relies on hashbrown's `HashMap::new`: a map with no entries.
    #[verifier::external_body]
    pub fn new() -> (r: Headers)
        ensures
            forall|k: Seq<char>| !#[trigger] header_entries(r).contains_key(k),
    {
        Headers { map: hashbrown::HashMap::new() }
    }

    /// Relies on hashbrown's `HashMap::insert`: the entry for `name` becomes `value`.
    #[verifier::external_body]
    pub fn insert(&mut self, name: String, value: String)
        ensures
            header_entries(*final(self)) == header_entries(*old(self)).insert(name@, value@),
    {
        self.map.insert(name, value);
    }

    /// Relies on hashbrown's `HashMap::get`: the value for `name`, where there is one.
    #[verifier::external_body]
    pub fn get(&self, name: &str) -> (r: Option<String>)
        ensures
            r is Some <==> header_entries(*self).contains_key(name@),
            r matches Some(v) ==> header_entries(*self)[name@] == v@,
    {
        self.map.get(name).cloned()
    }
}

/// How long a call may take, in seconds, unless the caller says otherwise.
pub const DEFAULT_TIMEOUT: u32 = 60;

/// How to reach a node. Fixed once the client is built.
pub struct ConnectionInfo {
    pub url: String,
    pub user: Option<String>,
    pub password: Option<String>,
    pub allow_insecure: bool,
    pub timeout: Option<u32>,
    pub headers: Headers,
}

impl ConnectionInfo {
    /// The node at `url`, with no credentials, secure connections only, the default timeout
    /// and no extra headers.
    pub fn new(url: String) -> (r: ConnectionInfo)
        ensures
            r.url == url,
            r.user is None,
            r.password is None,
            !r.allow_insecure,
            r.timeout == Some(DEFAULT_TIMEOUT),
            forall|k: Seq<char>| !#[trigger] header_entries(r.headers).contains_key(k),
    {
        ConnectionInfo {
            url,
            user: None,
            password: None,
            allow_insecure: false,
            timeout: Some(DEFAULT_TIMEOUT),
            headers: Headers::new(),
        }
    }
}

} // verus!
