//! The configuration records: headers, request matching, responses,
//! mappings, and the proxy, files and runtime settings.
use crate::error::Error;
use vstd::prelude::*;
use vstd::string::StringExecFns;

verus! {

/// A header: a name and a value.
#[derive(Debug)]
pub struct Header {
    pub key: String,
    pub value: String,
}

impl Header {
    /// A header with the given name and value.
    pub fn new(key: &str, value: &str) -> (r: Header)
        ensures
            r.key@ == key@,
            r.value@ == value@,
    {
        Header { key: key.to_owned(), value: value.to_owned() }
    }

    /// A copy of this header.
    pub fn duplicate(&self) -> (r: Header)
        ensures
            r == *self,
    {
        Header { key: self.key.clone(), value: self.value.clone() }
    }
}

impl Default for Header {
    fn default() -> (r: Header)
        ensures
            r.key@ == Seq::<char>::empty(),
            r.value@ == Seq::<char>::empty(),
    {
        Header { key: String::new(), value: String::new() }
    }
}

/// A copy of a list of headers.
pub fn duplicate_headers(headers: &Vec<Header>) -> (r: Vec<Header>)
    ensures
        r@ == headers@,
{
    let mut r: Vec<Header> = Vec::new();
    let mut i: usize = 0;
    while i < headers.len()
        invariant
            i <= headers@.len(),
            r@ == headers@.subrange(0, i as int),
        decreases headers@.len() - i,
    {
        r.push(headers[i].duplicate());
        i = i + 1;
    }
    assert(r@ == headers@.subrange(0, headers@.len() as int));
    r
}

/// One side of a header pattern: a literal (`Left`) or a regex source (`Right`).
#[derive(Debug)]
pub enum Either {
    Left(String),
    Right(String),
}

/// A header pattern: the name and the value are each a literal or a regex.
#[derive(Debug)]
pub struct HeaderPattern {
    pub key: Either,
    pub value: Either,
}

/// The request matching configuration of a mapping. Each field that is set
/// (or, for `headers`, not empty) enables one predicate.
#[derive(Debug)]
pub struct Request {
    /// The HTTP method to match exactly.
    pub method: Option<String>,
    /// The regex that the HTTP method must match.
    pub method_pattern: Option<String>,
    /// The path to match exactly.
    pub url: Option<String>,
    /// The regex that the path must match.
    pub url_pattern: Option<String>,
    /// Headers that must each be present.
    pub headers: Vec<Header>,
    /// A header that exactly one request header must equal.
    pub header: Option<Header>,
    /// A pattern that exactly one request header must match.
    pub header_pattern: Option<HeaderPattern>,
    /// Patterns that must each be matched by some request header.
    pub header_patterns: Vec<HeaderPattern>,
}

impl Request {
    /// No field is configured.
    pub open spec fn is_unconfigured(&self) -> bool {
        &&& self.method is None
        &&& self.method_pattern is None
        &&& self.url is None
        &&& self.url_pattern is None
        &&& self.headers@.len() == 0
        &&& self.header is None
        &&& self.header_pattern is None
        &&& self.header_patterns@.len() == 0
    }
}

impl Default for Request {
    fn default() -> (r: Request)
        ensures
            r.is_unconfigured(),
    {
        Request {
            method: None,
            method_pattern: None,
            url: None,
            url_pattern: None,
            headers: Vec::new(),
            header: None,
            header_pattern: None,
            header_patterns: Vec::new(),
        }
    }
}

/// The response configuration of a mapping.
#[derive(Debug)]
pub struct Response {
    /// The status code; 200 when unset.
    pub status: Option<u16>,
    /// Headers to send with the response.
    pub headers: Option<Vec<Header>>,
    /// The name of the file, under the files root, that holds the body.
    pub body_file_name: Option<String>,
    /// When set, the body is fetched from this base url and the request's uri.
    pub proxy_base_url: Option<String>,
    /// Headers to add to the upstream request.
    pub additional_proxy_request_headers: Option<Vec<Header>>,
}

impl Default for Response {
    fn default() -> (r: Response)
        ensures
            r.status is None,
            r.headers is None,
            r.body_file_name is None,
            r.proxy_base_url is None,
            r.additional_proxy_request_headers is None,
    {
        Response {
            status: None,
            headers: None,
            body_file_name: None,
            proxy_base_url: None,
            additional_proxy_request_headers: None,
        }
    }
}

/// A mapping: what a request must look like, and what to answer.
/// Among several matching mappings the lowest priority wins.
#[derive(Debug)]
pub struct Mapping {
    pub name: String,
    pub priority: u8,
    pub request: Request,
    pub response: Response,
}

impl Mapping {
    /// Orders two mappings by priority alone: `true` when `self` comes first.
    pub fn precedes(&self, other: &Mapping) -> (r: bool)
        ensures
            r == (self.priority < other.priority),
    {
        self.priority < other.priority
    }
}

impl Default for Mapping {
    fn default() -> (r: Mapping)
        ensures
            r.name@ == Seq::<char>::empty(),
            r.priority == 0,
            r.request.is_unconfigured(),
            r.response.status is None,
            r.response.headers is None,
            r.response.body_file_name is None,
            r.response.proxy_base_url is None,
            r.response.additional_proxy_request_headers is None,
    {
        Mapping {
            name: String::new(),
            priority: 0,
            request: Request::default(),
            response: Response::default(),
        }
    }
}

/// The forward proxy settings.
#[derive(Debug)]
pub struct Proxy {
    use_proxy: bool,
    proxy_url: Option<String>,
    proxy_username: Option<String>,
    proxy_password: Option<String>,
}

impl Proxy {
    /// The settings hold together: a proxy that is used has a url.
    pub open spec fn wf(&self) -> bool {
        self.spec_use_proxy() ==> self.spec_proxy_url() is Some
    }

    pub closed spec fn spec_use_proxy(&self) -> bool {
        self.use_proxy
    }

    pub closed spec fn spec_proxy_url(&self) -> Option<String> {
        self.proxy_url
    }

    pub closed spec fn spec_proxy_username(&self) -> Option<String> {
        self.proxy_username
    }

    pub closed spec fn spec_proxy_password(&self) -> Option<String> {
        self.proxy_password
    }

    /// Minimal settings, without credentials.
    pub fn new(use_proxy: bool, proxy_url: Option<String>) -> (r: Proxy)
        ensures
            r.spec_use_proxy() == use_proxy,
            r.spec_proxy_url() == proxy_url,
            r.spec_proxy_username() is None,
            r.spec_proxy_password() is None,
    {
        Proxy { use_proxy, proxy_url, proxy_username: None, proxy_password: None }
    }

    /// Settings from the command line options; a proxy that is switched on
    /// needs a url.
    pub fn from_options(
        use_proxy: bool,
        proxy_url: Option<String>,
        proxy_username: Option<String>,
        proxy_password: Option<String>,
    ) -> (r: Result<Proxy, Error>)
        ensures
            (use_proxy && proxy_url is None) ==> r == Err::<Proxy, Error>(Error::InvalidProxyConfig),
            !(use_proxy && proxy_url is None) ==> r is Ok,
            r is Ok ==> ({
                let p = r->Ok_0;
                &&& p.wf()
                &&& p.spec_use_proxy() == use_proxy
                &&& p.spec_proxy_url() == proxy_url
                &&& p.spec_proxy_username() == proxy_username
                &&& p.spec_proxy_password() == proxy_password
            }),
    {
        if use_proxy && proxy_url.is_none() {
            Err(Error::InvalidProxyConfig)
        } else {
            Ok(Proxy { use_proxy, proxy_url, proxy_username, proxy_password })
        }
    }

    /// Whether the proxy is switched on.
    pub fn use_proxy(&self) -> (r: bool)
        ensures
            r == self.spec_use_proxy(),
    {
        self.use_proxy
    }

    /// The proxy url.
    pub fn proxy_url(&self) -> (r: &Option<String>)
        ensures
            *r == self.spec_proxy_url(),
    {
        &self.proxy_url
    }

    /// The user name for proxy authentication.
    pub fn proxy_username(&self) -> (r: &Option<String>)
        ensures
            *r == self.spec_proxy_username(),
    {
        &self.proxy_username
    }

    /// The password for proxy authentication.
    pub fn proxy_password(&self) -> (r: &Option<String>)
        ensures
            *r == self.spec_proxy_password(),
    {
        &self.proxy_password
    }

    /// Basic credentials are sent when both the user name and the password are set.
    pub fn has_credentials(&self) -> (r: bool)
        ensures
            r == (self.spec_proxy_username() is Some && self.spec_proxy_password() is Some),
    {
        self.proxy_username.is_some() && self.proxy_password.is_some()
    }
}

impl Default for Proxy {
    fn default() -> (r: Proxy)
        ensures
            !r.spec_use_proxy(),
            r.spec_proxy_url() is None,
            r.spec_proxy_username() is None,
            r.spec_proxy_password() is None,
    {
        Proxy { use_proxy: false, proxy_url: None, proxy_username: None, proxy_password: None }
    }
}

/// Where the body files are found.
#[derive(Debug)]
pub struct Files {
    pub path: String,
}

impl Files {
    /// The `files` directory under `root`, or `files` when no root is given.
    pub fn from_root(root: Option<&str>) -> (r: Files)
        ensures
            r.path@ == match root {
                Some(p) => p@ + "/files"@,
                None => "files"@,
            },
    {
        match root {
            Some(p) => {
                let mut path = p.to_owned();
                path.append("/files");
                Files { path }
            },
            None => Files { path: "files".to_owned() },
        }
    }
}

/// Where the server listens, and the root of its configuration.
#[derive(Debug)]
pub struct Runtime {
    pub ip: Option<String>,
    pub port: Option<u32>,
    pub path: Option<String>,
}

impl Default for Runtime {
    fn default() -> (r: Runtime)
        ensures
            r.ip is None,
            r.port is None,
            r.path is None,
    {
        Runtime { ip: None, port: None, path: None }
    }
}

} // verus!
