//! Answers: static responses assembled from a mapping, JSON error
//! responses, the body file cache, and the plan for a request.
use crate::config::{duplicate_headers, Header, Mapping, Proxy, Response};
use crate::keyed::{keys_unique, lemma_map_of_entry, lemma_map_of_keys, lemma_map_of_push, map_of};
use crate::mappings::Mappings;
use crate::matcher::{matches_at, selects, HttpRequest, Matcher};
use crate::wire::{
    configured_name, header_value_is_valid, normalize_configured_name, valid_header_value,
};
use vstd::prelude::*;
use vstd::string::StringExecFns;

verus! {

/// A response ready to be sent: status, headers (names in lower case) and body.
#[derive(Debug)]
pub struct HttpResponse {
    pub status: u16,
    pub headers: Vec<Header>,
    pub body: String,
}

/// A lower case hexadecimal digit.
pub open spec fn hex_digit(n: u32) -> char {
    if n < 10 {
        (('0' as u32) + n) as char
    } else {
        (('a' as u32) + n - 10) as char
    }
}

/// How `serde_json` writes one character inside a string: quote and
/// backslash escaped, the control characters below 0x20 escaped (by a short
/// escape where JSON has one, else as `\u00XX`), everything else as it is.
pub open spec fn json_char(c: char) -> Seq<char> {
    if c == '"' {
        seq!['\\', '"']
    } else if c == '\\' {
        seq!['\\', '\\']
    } else if c == '\x08' {
        seq!['\\', 'b']
    } else if c == '\t' {
        seq!['\\', 't']
    } else if c == '\n' {
        seq!['\\', 'n']
    } else if c == '\x0c' {
        seq!['\\', 'f']
    } else if c == '\r' {
        seq!['\\', 'r']
    } else if (c as u32) < 0x20 {
        seq!['\\', 'u', '0', '0', hex_digit((c as u32) / 16), hex_digit((c as u32) % 16)]
    } else {
        seq![c]
    }
}

/// The characters of a text, each written as `json_char` says.
pub open spec fn json_escaped(s: Seq<char>) -> Seq<char>
    decreases s.len(),
{
    if s.len() == 0 {
        Seq::empty()
    } else {
        json_escaped(s.drop_last()) + json_char(s.last())
    }
}

/// What `serde_json::to_string` makes of a text: a JSON string literal.
pub open spec fn json_string_of(s: Seq<char>) -> Seq<char> {
    seq!['"'] + json_escaped(s) + seq!['"']
}

/// Relies on `serde_json::to_string` on a `str`: the text as a JSON string.
/// Serialising a `str` into memory does not fail.
#[verifier::external_body]
fn json_string(s: &str) -> (r: String)
    ensures
        r@ == json_string_of(s@),
{
    serde_json::to_string(s).unwrap_or_default()
}

/// The body of an error response that carries `message`.
pub open spec fn error_body(message: Seq<char>) -> Seq<char> {
    "{\"message\":"@ + json_string_of(message) + "}"@
}

/// `r` is the JSON error response for `message` with status `status`: that
/// status, a JSON content type, and the body `{"message":...}`.
pub open spec fn is_error_response(r: HttpResponse, status: u16, message: Seq<char>) -> bool {
    &&& r.status == status
    &&& r.headers@.len() == 1
    &&& r.headers@[0].key@ == "content-type"@
    &&& r.headers@[0].value@ == "application/json"@
    &&& r.body@ == error_body(message)
}

/// The JSON error response for `message`, with status `status`.
pub fn error_response(message: &str, status: u16) -> (r: HttpResponse)
    ensures
        is_error_response(r, status, message@),
{
    let encoded = json_string(message);
    let mut body = "{\"message\":".to_owned();
    body.append(encoded.as_str());
    body.append("}");
    let mut headers: Vec<Header> = Vec::new();
    headers.push(Header::new("content-type", "application/json"));
    HttpResponse { status, headers, body }
}

/// The answer to a request that matches no mapping: 404 with the message
/// "No mapping found".
pub fn not_found_response() -> (r: HttpResponse)
    ensures
        is_error_response(r, 404, "No mapping found"@),
{
    error_response("No mapping found", 404)
}

/// The status of a static response: the configured one, 200 where none is
/// configured.
pub open spec fn status_of(status: Option<u16>) -> u16 {
    match status {
        Some(s) => s,
        None => 200,
    }
}

/// The configured status, if any, is a valid code (100 to 599).
pub open spec fn status_valid(status: Option<u16>) -> bool {
    match status {
        Some(s) => 100 <= s < 600,
        None => true,
    }
}

/// The body of a static response: the body file's contents where a file is
/// configured and was found, else a fixed text.
pub open spec fn body_of(body_file_name: Option<String>, file_body: Option<String>) -> Seq<char> {
    match body_file_name {
        Some(_) => match file_body {
            Some(c) => c@,
            None => "Body file not found!"@,
        },
        None => "Unable to process body"@,
    }
}

/// A configured header that a response can carry: a valid name and value.
pub open spec fn sendable(h: Header) -> bool {
    configured_name(h.key@) is Some && valid_header_value(h.value@)
}

/// The message for the first header that a response cannot carry.
pub open spec fn header_error(h: Header) -> Seq<char> {
    if configured_name(h.key@) is None {
        "invalid HTTP header name"@
    } else {
        "failed to parse header value"@
    }
}

/// The headers that a response configuration lists.
pub open spec fn configured_headers(cfg: Response) -> Seq<Header> {
    match cfg.headers {
        Some(v) => v@,
        None => Seq::<Header>::empty(),
    }
}

/// Every header can be sent.
pub open spec fn all_sendable(hs: Seq<Header>) -> bool {
    forall|i: int| 0 <= i < hs.len() ==> #[trigger] sendable(hs[i])
}

/// The header at `k` is the first that cannot be sent.
pub open spec fn first_unsendable(hs: Seq<Header>, k: int) -> bool {
    &&& 0 <= k < hs.len()
    &&& !sendable(hs[k])
    &&& forall|i: int| 0 <= i < k ==> #[trigger] sendable(hs[i])
}

/// The configured headers with their names normalised, or the position of
/// the first one that cannot be sent.
fn normalized_headers(hs: &Vec<Header>) -> (r: Result<Vec<Header>, usize>)
    ensures
        r matches Ok(out) ==> all_sendable(hs@) && out@.len() == hs@.len() && forall|i: int|
            0 <= i < hs@.len() ==> (#[trigger] out@[i]).key@ == configured_name(hs@[i].key@)->Some_0
                && out@[i].value@ == hs@[i].value@,
        r matches Err(k) ==> first_unsendable(hs@, k as int),
{
    let mut out: Vec<Header> = Vec::new();
    let mut i: usize = 0;
    while i < hs.len()
        invariant
            i <= hs@.len(),
            out@.len() == i,
            forall|j: int| 0 <= j < i ==> #[trigger] sendable(hs@[j]),
            forall|j: int|
                0 <= j < i ==> (#[trigger] out@[j]).key@ == configured_name(hs@[j].key@)->Some_0
                    && out@[j].value@ == hs@[j].value@,
        decreases hs@.len() - i,
    {
        let h = &hs[i];
        match normalize_configured_name(h.key.as_str()) {
            Some(name) => {
                if !header_value_is_valid(h.value.as_str()) {
                    return Err(i);
                }
                out.push(Header { key: name, value: h.value.clone() });
            },
            None => {
                return Err(i);
            },
        }
        i = i + 1;
    }
    Ok(out)
}

/// The static response that a mapping's response configuration describes,
/// given what was found for its body file. Where it cannot be built, the
/// answer is a JSON error response with status 500: for a status that is
/// not a valid code, else for the first configured header that cannot be
/// sent.
pub fn static_response(cfg: &Response, file_body: Option<String>) -> (r: HttpResponse)
    ensures
        !status_valid(cfg.status) ==> is_error_response(r, 500, "invalid status code"@),
        status_valid(cfg.status) && all_sendable(configured_headers(*cfg)) ==> {
            let hs = configured_headers(*cfg);
            &&& r.status == status_of(cfg.status)
            &&& r.body@ == body_of(cfg.body_file_name, file_body)
            &&& r.headers@.len() == hs.len()
            &&& forall|i: int|
                0 <= i < hs.len() ==> (#[trigger] r.headers@[i]).key@ == configured_name(
                    hs[i].key@,
                )->Some_0 && r.headers@[i].value@ == hs[i].value@
        },
        status_valid(cfg.status) && !all_sendable(configured_headers(*cfg)) ==> exists|k: int|
            first_unsendable(configured_headers(*cfg), k) && is_error_response(
                r,
                500,
                header_error(configured_headers(*cfg)[k]),
            ),
{
    let status = match cfg.status {
        Some(s) => {
            if !crate::wire::status_code_is_valid(s) {
                return error_response("invalid status code", 500);
            }
            s
        },
        None => 200,
    };
    let normalized = match &cfg.headers {
        Some(v) => normalized_headers(v),
        None => Ok(Vec::new()),
    };
    match normalized {
        Ok(headers) => {
            let body = match &cfg.body_file_name {
                Some(_) => match file_body {
                    Some(c) => c,
                    None => "Body file not found!".to_owned(),
                },
                None => "Unable to process body".to_owned(),
            };
            HttpResponse { status, headers, body }
        },
        Err(k) => {
            let hs = cfg.headers.as_ref().unwrap();
            let h = &hs[k];
            let message = if normalize_configured_name(h.key.as_str()).is_none() {
                "invalid HTTP header name"
            } else {
                "failed to parse header value"
            };
            proof {
                reveal_strlit("invalid HTTP header name");
                reveal_strlit("failed to parse header value");
            }
            let r = error_response(message, 500);
            assert(first_unsendable(configured_headers(*cfg), k as int));
            r
        },
    }
}

/// The contents of the body files read so far, keyed by file name. Entries
/// are never changed or removed.
pub struct BodyCache {
    entries: Vec<(String, String)>,
}

impl BodyCache {
    pub closed spec fn pairs(&self) -> Seq<(Seq<char>, Seq<char>)> {
        self.entries@.map_values(|e: (String, String)| (e.0@, e.1@))
    }

    /// Each cached file name with its contents.
    pub closed spec fn view(&self) -> Map<Seq<char>, Seq<char>> {
        map_of(self.pairs())
    }

    pub closed spec fn wf(&self) -> bool {
        keys_unique(self.pairs())
    }

    /// Every entry of `self` stays in `later` as it is.
    pub open spec fn kept_in(&self, later: &BodyCache) -> bool {
        forall|k: Seq<char>| #[trigger]
            self.view().contains_key(k) ==> later.view().contains_key(k) && later.view()[k]
                == self.view()[k]
    }

    /// An empty cache.
    pub fn new() -> (r: BodyCache)
        ensures
            r.wf(),
            r.view() == Map::<Seq<char>, Seq<char>>::empty(),
    {
        let r = BodyCache { entries: Vec::new() };
        assert(r.pairs() =~= Seq::<(Seq<char>, Seq<char>)>::empty());
        r
    }

    /// Where the entry for `name` stands.
    fn find(&self, name: &String) -> (r: Option<usize>)
        requires
            self.wf(),
        ensures
            r matches Some(i) ==> i < self.entries@.len() && self.entries@[i as int].0@ == name@
                && self.view().contains_key(name@) && self.view()[name@]
                == self.entries@[i as int].1@,
            r is None ==> !self.view().contains_key(name@),
    {
        let mut i: usize = 0;
        while i < self.entries.len()
            invariant
                self.wf(),
                i <= self.entries@.len(),
                forall|j: int| 0 <= j < i ==> self.entries@[j].0@ != name@,
            decreases self.entries@.len() - i,
        {
            if self.entries[i].0 == *name {
                proof {
                    assert(self.pairs()[i as int].0 == name@);
                    lemma_map_of_entry(self.pairs(), i as int);
                }
                return Some(i);
            }
            i = i + 1;
        }
        proof {
            lemma_map_of_keys(self.pairs(), name@);
            if self.view().contains_key(name@) {
                let j = choose|j: int| 0 <= j < self.pairs().len() && self.pairs()[j].0 == name@;
                assert(self.pairs()[j].0 == self.entries@[j].0@);
            }
        }
        None
    }

    /// The cached contents of `name`, if any.
    pub fn cached(&self, name: &str) -> (r: Option<String>)
        requires
            self.wf(),
        ensures
            r is Some <==> self.view().contains_key(name@),
            r matches Some(c) ==> c@ == self.view()[name@],
    {
        let key = name.to_owned();
        match self.find(&key) {
            Some(i) => Some(self.entries[i].1.clone()),
            None => None,
        }
    }

    /// The contents of `name`: the cached ones where there are some (what
    /// was loaded now is then not used), else what was loaded now, which is
    /// then cached. A file that was not found is not cached.
    pub fn resolve(&mut self, name: &str, loaded: Option<String>) -> (r: Option<String>)
        requires
            old(self).wf(),
        ensures
            final(self).wf(),
            old(self).kept_in(final(self)),
            old(self).view().contains_key(name@) ==> (r matches Some(c) && c@ == old(
                self,
            ).view()[name@] && final(self).view() == old(self).view()),
            !old(self).view().contains_key(name@) ==> match loaded {
                Some(l) => r matches Some(c) && c@ == l@ && final(self).view() == old(
                    self,
                ).view().insert(name@, l@),
                None => r is None && final(self).view() == old(self).view(),
            },
    {
        let key = name.to_owned();
        match self.find(&key) {
            Some(i) => Some(self.entries[i].1.clone()),
            None => match loaded {
                Some(contents) => {
                    let ghost before = self.pairs();
                    proof {
                        lemma_map_of_push(before, name@, contents@);
                    }
                    let result = contents.clone();
                    self.entries.push((key, contents));
                    proof {
                        assert(self.pairs() =~= before.push((name@, result@)));
                        assert forall|k: Seq<char>| #[trigger]
                            old(self).view().contains_key(k) implies self.view().contains_key(k)
                            && self.view()[k] == old(self).view()[k] by {
                            assert(k != name@);
                        }
                    }
                    Some(result)
                },
                None => None,
            },
        }
    }
}

/// Once a body file's contents are cached, every later state of the cache
/// gives the same contents for it.
pub proof fn cached_body_is_stable(
    first: BodyCache,
    second: BodyCache,
    third: BodyCache,
    name: Seq<char>,
)
    requires
        first.view().contains_key(name),
        first.kept_in(&second),
        second.kept_in(&third),
    ensures
        third.view().contains_key(name),
        third.view()[name] == first.view()[name],
{
}

/// How the upstream server is reached.
#[derive(Debug)]
pub enum Connector {
    /// Through the forward proxy at `proxy_url`, for all traffic, with Basic
    /// credentials (user name, password) where both are configured.
    Forward { proxy_url: String, credentials: Option<(String, String)> },
    /// Directly, over TLS.
    Tls,
    /// Directly, over plain TCP.
    Plain,
}

/// Whether `s` starts with `prefix`.
pub fn starts_with(s: &str, prefix: &str) -> (r: bool)
    ensures
        r == (prefix@.len() <= s@.len() && s@.subrange(0, prefix@.len() as int) == prefix@),
{
    let n = prefix.unicode_len();
    let m = s.unicode_len();
    if n > m {
        return false;
    }
    let mut i: usize = 0;
    while i < n
        invariant
            n == prefix@.len(),
            m == s@.len(),
            n <= m,
            i <= n,
            forall|j: int| 0 <= j < i ==> s@[j] == prefix@[j],
        decreases n - i,
    {
        if s.get_char(i) != prefix.get_char(i) {
            assert(s@.subrange(0, n as int)[i as int] != prefix@[i as int]);
            return false;
        }
        i = i + 1;
    }
    assert(s@.subrange(0, n as int) =~= prefix@);
    true
}

/// How to reach `url`: through the forward proxy when it is switched on,
/// else over TLS for an `https` url and plain TCP otherwise.
pub fn connector_for(proxy: &Proxy, url: &str) -> (r: Connector)
    requires
        proxy.wf(),
    ensures
        proxy.spec_use_proxy() ==> (r matches Connector::Forward { proxy_url, credentials }
            && Some(proxy_url) == proxy.spec_proxy_url() && match (
            proxy.spec_proxy_username(),
            proxy.spec_proxy_password(),
        ) {
            (Some(u), Some(p)) => credentials == Some((u, p)),
            _ => credentials is None,
        }),
        !proxy.spec_use_proxy() && url@.len() >= 5 && url@.subrange(0, 5) == "https"@ ==> r
            is Tls,
        !proxy.spec_use_proxy() && !(url@.len() >= 5 && url@.subrange(0, 5) == "https"@) ==> r
            is Plain,
{
    proof {
        reveal_strlit("https");
    }
    if proxy.use_proxy() {
        let proxy_url = proxy.proxy_url().as_ref().unwrap().clone();
        let credentials = match (proxy.proxy_username(), proxy.proxy_password()) {
            (Some(u), Some(p)) => Some((u.clone(), p.clone())),
            _ => None,
        };
        Connector::Forward { proxy_url, credentials }
    } else if starts_with(url, "https") {
        Connector::Tls
    } else {
        Connector::Plain
    }
}

/// What to do next for a request whose mapping was chosen.
#[derive(Debug)]
pub enum Plan {
    /// Fetch the body from `url`, sending `headers` along.
    Fetch { url: String, headers: Vec<Header> },
    /// Read the body file `file_name` from the files root.
    Load { file_name: String },
    /// Build the static response, with this body file contents (if any).
    Build { file_body: Option<String> },
}

/// Whether `r` is the next step for the response configuration `cfg`, for
/// a request with uri `uri`, with the body files in `cached` read already.
pub open spec fn plan_fits(
    cfg: Response,
    uri: Seq<char>,
    cached: Map<Seq<char>, Seq<char>>,
    r: Plan,
) -> bool {
    match cfg.proxy_base_url {
        Some(base) => r matches Plan::Fetch { url, headers } && url@ == base@ + uri && headers@
            == match cfg.additional_proxy_request_headers {
            Some(v) => v@,
            None => Seq::<Header>::empty(),
        },
        None => match cfg.body_file_name {
            Some(n) => if cached.contains_key(n@) {
                r matches Plan::Build { file_body } && file_body matches Some(c) && c@ == cached[n@]
            } else {
                r matches Plan::Load { file_name } && file_name@ == n@
            },
            None => r matches Plan::Build { file_body } && file_body is None,
        },
    }
}

/// The next step for a mapping's response configuration: a proxied response
/// is fetched from its base url followed by the request's uri; a static one
/// is built at once unless its body file still has to be read.
pub fn response_plan(cfg: &Response, uri: &str, bodies: &BodyCache) -> (r: Plan)
    requires
        bodies.wf(),
    ensures
        plan_fits(*cfg, uri@, bodies.view(), r),
{
    match &cfg.proxy_base_url {
        Some(base) => {
            let mut url = base.clone();
            url.append(uri);
            let headers = match &cfg.additional_proxy_request_headers {
                Some(v) => duplicate_headers(v),
                None => Vec::new(),
            };
            Plan::Fetch { url, headers }
        },
        None => match &cfg.body_file_name {
            Some(n) => match bodies.cached(n.as_str()) {
                Some(c) => Plan::Build { file_body: Some(c) },
                None => Plan::Load { file_name: n.clone() },
            },
            None => Plan::Build { file_body: None },
        },
    }
}

/// What came of an upstream request.
#[derive(Debug)]
pub enum Upstream {
    /// The whole body, as bytes.
    Body(Vec<u8>),
    /// The response came but its body could not be read.
    ReadFailed,
    /// The request failed (connecting, or the time ran out), for this reason.
    RequestFailed(String),
}

/// What `String::from_utf8_lossy` makes of bytes: the text, with each
/// invalid sequence replaced.
pub uninterp spec fn utf8_lossy_of(b: Seq<u8>) -> Seq<char>;

/// Relies on `String::from_utf8_lossy`.
#[verifier::external_body]
fn decode_lossy(b: &Vec<u8>) -> (r: String)
    ensures
        r@ == utf8_lossy_of(b@),
{
    String::from_utf8_lossy(b).into_owned()
}

/// The text of an upstream outcome, as `upstream_response` sends it.
pub open spec fn upstream_text(outcome: Upstream) -> Seq<char> {
    match outcome {
        Upstream::Body(b) => utf8_lossy_of(b@),
        Upstream::ReadFailed => "Unable to process upstream response!"@,
        Upstream::RequestFailed(e) => "Unable to process upstream response! "@ + e@,
    }
}

/// The answer for a proxied request: status 200, no headers, and the
/// upstream body decoded as UTF-8, or the text of the failure.
pub fn upstream_response(outcome: Upstream) -> (r: HttpResponse)
    ensures
        r.status == 200,
        r.headers@.len() == 0,
        r.body@ == upstream_text(outcome),
{
    let body = match &outcome {
        Upstream::Body(b) => decode_lossy(b),
        Upstream::ReadFailed => "Unable to process upstream response!".to_owned(),
        Upstream::RequestFailed(e) => {
            let mut t = "Unable to process upstream response! ".to_owned();
            t.append(e.as_str());
            t
        },
    };
    HttpResponse { status: 200, headers: Vec::new(), body }
}

/// What to do with a request.
#[derive(Debug)]
pub enum Step<'a> {
    /// Send this answer: no mapping matches.
    Reply(HttpResponse),
    /// Go on with the chosen mapping, as the plan says.
    Proceed(&'a Mapping, Plan),
}

/// The first step of answering a request: the 404 answer when no mapping
/// matches, else the chosen mapping and the plan for its response.
pub fn respond<'a>(
    matcher: &mut Matcher,
    req: &HttpRequest,
    mappings: &'a Mappings,
    bodies: &BodyCache,
) -> (r: Step<'a>)
    requires
        old(matcher).wf(),
        req.wf(),
        bodies.wf(),
    ensures
        final(matcher).wf(),
        final(matcher).predicates() == old(matcher).predicates(),
        old(matcher).regexes().kept_in(&final(matcher).regexes()),
        r is Reply <==> !exists|i: int| matches_at(old(matcher).predicates(), *req, mappings@, i),
        r matches Step::Reply(resp) ==> is_error_response(resp, 404, "No mapping found"@),
        r matches Step::Proceed(m, plan) ==> (exists|i: int|
            selects(old(matcher).predicates(), *req, mappings@, i) && *m == mappings@[i].1)
            && plan_fits(m.response, req.uri@, bodies.view(), plan),
{
    match matcher.get_match(req, mappings) {
        Ok(m) => {
            let plan = response_plan(&m.response, req.uri.as_str(), bodies);
            Step::Proceed(m, plan)
        },
        Err(_) => Step::Reply(not_found_response()),
    }
}

} // verus!
