//! Request matching: the predicates, the flags that enable them, and the
//! choice of one mapping for a request.
use crate::config::{Either, Header, HeaderPattern, Mapping, Request};
use crate::error::Error;
use crate::mappings::Mappings;
use crate::pattern::{pattern_hit, RegexCache};
use crate::text::{lower_of, lowercase};
use crate::wire::{
    configured_name, header_value_is_valid, is_visible_text, normalize_configured_name,
    valid_header_value, visible_text,
};
use vstd::prelude::*;

verus! {

/// An incoming request, as the matcher sees it: the method, the path, the
/// full uri (path and query) and the headers, whose names are in lower case.
#[derive(Debug)]
pub struct HttpRequest {
    pub method: String,
    pub path: String,
    pub uri: String,
    pub headers: Vec<Header>,
}

/// A header name as `http` hands it over: no upper case ASCII letter.
pub open spec fn lower_case_name(s: Seq<char>) -> bool {
    forall|i: int| 0 <= i < s.len() ==> !('A' <= #[trigger] s[i] && s[i] <= 'Z')
}

impl HttpRequest {
    /// Every header name is in lower case, as the matcher compares them.
    pub open spec fn wf(&self) -> bool {
        forall|i: int| 0 <= i < self.headers@.len() ==> lower_case_name(#[trigger] self.headers@[i].key@)
    }

    /// Whether every header name is in lower case.
    pub fn has_lower_case_names(&self) -> (r: bool)
        ensures
            r == self.wf(),
    {
        let mut i: usize = 0;
        while i < self.headers.len()
            invariant
                i <= self.headers@.len(),
                forall|j: int| 0 <= j < i ==> lower_case_name(#[trigger] self.headers@[j].key@),
            decreases self.headers@.len() - i,
        {
            let key = self.headers[i].key.as_str();
            let n = key.unicode_len();
            let mut k: usize = 0;
            while k < n
                invariant
                    i < self.headers@.len(),
                    key@ == self.headers@[i as int].key@,
                    n == key@.len(),
                    k <= n,
                    forall|m: int| 0 <= m < k ==> !('A' <= #[trigger] key@[m] && key@[m] <= 'Z'),
                decreases n - k,
            {
                let c = key.get_char(k);
                if 'A' <= c && c <= 'Z' {
                    return false;
                }
                k = k + 1;
            }
            i = i + 1;
        }
        true
    }
}

/// Exact matching on the path.
pub const EXACT_URL: u32 = 0b0000_0000_0001;
/// Exact matching on the method.
pub const EXACT_METHOD: u32 = 0b0000_0000_0010;
/// Exact matching on a list of headers.
pub const EXACT_HEADERS: u32 = 0b0000_0000_0100;
/// Exact matching on one header.
pub const EXACT_HEADER: u32 = 0b0000_0000_1000;
/// Pattern matching on the path.
pub const PATTERN_URL: u32 = 0b0000_0001_0000;
/// Pattern matching on one header.
pub const PATTERN_HEADER: u32 = 0b0000_1000_0000;
/// Pattern matching on the method.
pub const PATTERN_METHOD: u32 = 0b0001_0000_0000;
/// Pattern matching on a list of headers.
pub const PATTERN_HEADERS: u32 = 0b0010_0000_0000;

/// A set of enabled predicates, one bit each.
#[derive(Clone, Copy, Debug, PartialEq, Eq, Structural)]
pub struct Enabled {
    pub bits: u32,
}

impl Enabled {
    /// No predicate.
    pub fn empty() -> (r: Enabled)
        ensures
            r.bits == 0,
    {
        Enabled { bits: 0 }
    }

    /// The predicates of both sets.
    pub fn union(self, other: Enabled) -> (r: Enabled)
        ensures
            r.bits == self.bits | other.bits,
    {
        Enabled { bits: self.bits | other.bits }
    }

    /// Whether every predicate of `other` is in this set.
    pub fn contains(self, other: Enabled) -> (r: bool)
        ensures
            r == (self.bits & other.bits == other.bits),
    {
        self.bits & other.bits == other.bits
    }

    /// Whether no predicate is enabled.
    pub fn is_empty(self) -> (r: bool)
        ensures
            r == (self.bits == 0),
    {
        self.bits == 0
    }

    /// All the exact predicates.
    pub fn exact() -> (r: Enabled)
        ensures
            r.bits == EXACT_URL | EXACT_METHOD | EXACT_HEADER | EXACT_HEADERS,
    {
        Enabled::exact_url().union(Enabled::exact_method()).union(Enabled::exact_header()).union(
            Enabled::exact_headers(),
        )
    }

    /// All the pattern predicates.
    pub fn pattern() -> (r: Enabled)
        ensures
            r.bits == PATTERN_URL | PATTERN_METHOD | PATTERN_HEADER | PATTERN_HEADERS,
    {
        Enabled::pattern_url().union(Enabled::pattern_method()).union(
            Enabled::pattern_header(),
        ).union(Enabled::pattern_headers())
    }

    /// Exact matching on the path.
    pub fn exact_url() -> (r: Enabled)
        ensures
            r.bits == EXACT_URL,
    {
        Enabled { bits: EXACT_URL }
    }

    /// Exact matching on the method.
    pub fn exact_method() -> (r: Enabled)
        ensures
            r.bits == EXACT_METHOD,
    {
        Enabled { bits: EXACT_METHOD }
    }

    /// Exact matching on one header.
    pub fn exact_header() -> (r: Enabled)
        ensures
            r.bits == EXACT_HEADER,
    {
        Enabled { bits: EXACT_HEADER }
    }

    /// Exact matching on a list of headers.
    pub fn exact_headers() -> (r: Enabled)
        ensures
            r.bits == EXACT_HEADERS,
    {
        Enabled { bits: EXACT_HEADERS }
    }

    /// Pattern matching on the path.
    pub fn pattern_url() -> (r: Enabled)
        ensures
            r.bits == PATTERN_URL,
    {
        Enabled { bits: PATTERN_URL }
    }

    /// Pattern matching on the method.
    pub fn pattern_method() -> (r: Enabled)
        ensures
            r.bits == PATTERN_METHOD,
    {
        Enabled { bits: PATTERN_METHOD }
    }

    /// Pattern matching on one header.
    pub fn pattern_header() -> (r: Enabled)
        ensures
            r.bits == PATTERN_HEADER,
    {
        Enabled { bits: PATTERN_HEADER }
    }

    /// Pattern matching on a list of headers.
    pub fn pattern_headers() -> (r: Enabled)
        ensures
            r.bits == PATTERN_HEADERS,
    {
        Enabled { bits: PATTERN_HEADERS }
    }
}

/// The predicates that a request can be held to.
#[derive(Clone, Copy, Debug, PartialEq, Eq, Structural)]
pub enum Predicate {
    ExactUrl,
    PatternUrl,
    ExactMethod,
    PatternMethod,
    ExactHeader,
    PatternHeader,
    ExactHeaders,
    PatternHeaders,
}

/// The flag of each predicate.
pub open spec fn flag_of(p: Predicate) -> u32 {
    match p {
        Predicate::ExactUrl => EXACT_URL,
        Predicate::PatternUrl => PATTERN_URL,
        Predicate::ExactMethod => EXACT_METHOD,
        Predicate::PatternMethod => PATTERN_METHOD,
        Predicate::ExactHeader => EXACT_HEADER,
        Predicate::PatternHeader => PATTERN_HEADER,
        Predicate::ExactHeaders => EXACT_HEADERS,
        Predicate::PatternHeaders => PATTERN_HEADERS,
    }
}

/// `p` alone when its flag is in `bits`, else nothing.
pub open spec fn if_enabled(bits: u32, p: Predicate) -> Seq<Predicate> {
    if bits & flag_of(p) != 0 {
        seq![p]
    } else {
        Seq::empty()
    }
}

/// The predicates that `bits` enables, in the order in which they are tried.
pub open spec fn predicates_of(bits: u32) -> Seq<Predicate> {
    if_enabled(bits, Predicate::ExactUrl) + if_enabled(bits, Predicate::PatternUrl) + if_enabled(
        bits,
        Predicate::ExactMethod,
    ) + if_enabled(bits, Predicate::PatternMethod) + if_enabled(bits, Predicate::ExactHeader)
        + if_enabled(bits, Predicate::PatternHeader) + if_enabled(bits, Predicate::ExactHeaders)
        + if_enabled(bits, Predicate::PatternHeaders)
}

/// Whether the configuration sets the field that `p` reads.
pub open spec fn configures(p: Predicate, cfg: Request) -> bool {
    match p {
        Predicate::ExactUrl => cfg.url is Some,
        Predicate::PatternUrl => cfg.url_pattern is Some,
        Predicate::ExactMethod => cfg.method is Some,
        Predicate::PatternMethod => cfg.method_pattern is Some,
        Predicate::ExactHeader => cfg.header is Some,
        Predicate::PatternHeader => cfg.header_pattern is Some,
        Predicate::ExactHeaders => cfg.headers@.len() > 0,
        Predicate::PatternHeaders => cfg.header_patterns@.len() > 0,
    }
}

/// The (name, value) pair that a configured header stands for: its name
/// normalised as `http` does, when the name and the value are both valid.
pub open spec fn expected_header(h: Header) -> Option<(Seq<char>, Seq<char>)> {
    match configured_name(h.key@) {
        Some(name) => if valid_header_value(h.value@) {
            Some((name, h.value@))
        } else {
            None
        },
        None => None,
    }
}

/// How many of the headers equal the pair `e`.
pub open spec fn count_equal(hs: Seq<Header>, e: (Seq<char>, Seq<char>)) -> nat
    decreases hs.len(),
{
    if hs.len() == 0 {
        0
    } else {
        count_equal(hs.drop_last(), e) + if hs.last().key@ == e.0 && hs.last().value@ == e.1 {
            1nat
        } else {
            0nat
        }
    }
}

/// Exactly one request header equals the configured one; a configured header
/// that is not valid matches nothing.
pub open spec fn exact_header_holds(hs: Seq<Header>, h: Header) -> bool {
    match expected_header(h) {
        Some(e) => count_equal(hs, e) == 1,
        None => false,
    }
}

/// Every configured header is among the request headers; a configured
/// header that is not valid equals none of them.
pub open spec fn exact_headers_hold(hs: Seq<Header>, cfg: Seq<Header>) -> bool {
    forall|i: int|
        0 <= i < cfg.len() ==> match #[trigger] expected_header(cfg[i]) {
            Some(e) => count_equal(hs, e) > 0,
            None => false,
        }
}

/// Whether one side of a pattern accepts a text: a literal by equality (for a
/// name, with the literal in lower case), a regex by matching.
pub open spec fn side_hit(side: Either, actual: Seq<char>, is_name: bool) -> bool {
    match side {
        Either::Left(lit) => if is_name {
            actual == lower_of(lit@)
        } else {
            actual == lit@
        },
        Either::Right(re) => pattern_hit(re@, actual),
    }
}

/// A request header matches a pattern when its value reads as text and both
/// its name and its value are accepted.
pub open spec fn header_pattern_hit(h: Header, hp: HeaderPattern) -> bool {
    visible_text(h.value@) && side_hit(hp.key, h.key@, true) && side_hit(hp.value, h.value@, false)
}

/// How many of the headers match the pattern.
pub open spec fn count_pattern(hs: Seq<Header>, hp: HeaderPattern) -> nat
    decreases hs.len(),
{
    if hs.len() == 0 {
        0
    } else {
        count_pattern(hs.drop_last(), hp) + if header_pattern_hit(hs.last(), hp) {
            1nat
        } else {
            0nat
        }
    }
}

/// Every configured pattern is matched by some request header.
pub open spec fn pattern_headers_hold(hs: Seq<Header>, cfg: Seq<HeaderPattern>) -> bool {
    forall|i: int| 0 <= i < cfg.len() ==> count_pattern(hs, #[trigger] cfg[i]) > 0
}

/// What a predicate says of a request under a configuration: `None` when the
/// configuration does not set the predicate's field, else whether it holds.
pub open spec fn outcome(p: Predicate, req: HttpRequest, cfg: Request) -> Option<bool> {
    match p {
        Predicate::ExactUrl => match cfg.url {
            Some(u) => Some(req.path@ == u@),
            None => None,
        },
        Predicate::PatternUrl => match cfg.url_pattern {
            Some(u) => Some(pattern_hit(u@, req.path@)),
            None => None,
        },
        Predicate::ExactMethod => match cfg.method {
            Some(m) => Some(req.method@ == m@),
            None => None,
        },
        Predicate::PatternMethod => match cfg.method_pattern {
            Some(m) => Some(pattern_hit(m@, req.method@)),
            None => None,
        },
        Predicate::ExactHeader => match cfg.header {
            Some(h) => Some(exact_header_holds(req.headers@, h)),
            None => None,
        },
        Predicate::PatternHeader => match cfg.header_pattern {
            Some(hp) => Some(count_pattern(req.headers@, hp) == 1),
            None => None,
        },
        Predicate::ExactHeaders => if cfg.headers@.len() == 0 {
            None
        } else {
            Some(exact_headers_hold(req.headers@, cfg.headers@))
        },
        Predicate::PatternHeaders => if cfg.header_patterns@.len() == 0 {
            None
        } else {
            Some(pattern_headers_hold(req.headers@, cfg.header_patterns@))
        },
    }
}

/// A request matches a configuration when at least one of the predicates
/// applies and none of those that apply fails.
pub open spec fn matches(preds: Seq<Predicate>, req: HttpRequest, cfg: Request) -> bool {
    &&& exists|i: int| 0 <= i < preds.len() && (#[trigger] outcome(preds[i], req, cfg)) is Some
    &&& forall|i: int| 0 <= i < preds.len() ==> #[trigger] outcome(preds[i], req, cfg) != Some(false)
}

/// The mapping at position `i` of the store matches the request.
pub open spec fn matches_at(
    preds: Seq<Predicate>,
    req: HttpRequest,
    store: Seq<(u128, Mapping)>,
    i: int,
) -> bool {
    0 <= i < store.len() && matches(preds, req, store[i].1.request)
}

/// The mapping at position `i` is the one chosen for the request: it matches,
/// no matching mapping has a lower priority, and every matching mapping
/// before it has a higher one.
pub open spec fn selects(
    preds: Seq<Predicate>,
    req: HttpRequest,
    store: Seq<(u128, Mapping)>,
    i: int,
) -> bool {
    &&& matches_at(preds, req, store, i)
    &&& forall|j: int|
        #![trigger matches_at(preds, req, store, j)]
        matches_at(preds, req, store, j) ==> store[i].1.priority <= store[j].1.priority
    &&& forall|j: int|
        #![trigger matches_at(preds, req, store, j)]
        0 <= j < i && matches_at(preds, req, store, j) ==> store[i].1.priority
            < store[j].1.priority
}

/// Adds `p` to the list when its flag is in `bits`.
fn push_if_enabled(bits: u32, flag: u32, p: Predicate, v: &mut Vec<Predicate>)
    requires
        flag == flag_of(p),
    ensures
        final(v)@ == old(v)@ + if_enabled(bits, p),
{
    if bits & flag != 0 {
        v.push(p);
    }
    assert(v@ =~= old(v)@ + if_enabled(bits, p));
}

/// Chooses, for each request, the mapping that it matches.
pub struct Matcher {
    predicates: Vec<Predicate>,
    regexes: RegexCache,
}

impl Matcher {
    /// The predicates in use, in the order in which they are tried.
    pub closed spec fn predicates(&self) -> Seq<Predicate> {
        self.predicates@
    }

    /// The compiled regexes.
    pub closed spec fn regexes(&self) -> RegexCache {
        self.regexes
    }

    pub closed spec fn wf(&self) -> bool {
        self.regexes.wf()
    }

    /// A matcher with the predicates that `enabled` sets.
    pub fn new(enabled: Enabled) -> (r: Matcher)
        ensures
            r.wf(),
            r.predicates() == predicates_of(enabled.bits),
    {
        let bits = enabled.bits;
        let mut predicates: Vec<Predicate> = Vec::new();
        push_if_enabled(bits, EXACT_URL, Predicate::ExactUrl, &mut predicates);
        push_if_enabled(bits, PATTERN_URL, Predicate::PatternUrl, &mut predicates);
        push_if_enabled(bits, EXACT_METHOD, Predicate::ExactMethod, &mut predicates);
        push_if_enabled(bits, PATTERN_METHOD, Predicate::PatternMethod, &mut predicates);
        push_if_enabled(bits, EXACT_HEADER, Predicate::ExactHeader, &mut predicates);
        push_if_enabled(bits, PATTERN_HEADER, Predicate::PatternHeader, &mut predicates);
        push_if_enabled(bits, EXACT_HEADERS, Predicate::ExactHeaders, &mut predicates);
        push_if_enabled(bits, PATTERN_HEADERS, Predicate::PatternHeaders, &mut predicates);
        assert(predicates@ =~= predicates_of(bits));
        Matcher { predicates, regexes: RegexCache::new() }
    }
}

/// How many of the headers equal the pair (`name`, `value`).
fn count_equal_headers(hs: &Vec<Header>, name: &String, value: &String) -> (r: usize)
    ensures
        r == count_equal(hs@, (name@, value@)),
{
    let mut count: usize = 0;
    let mut i: usize = 0;
    while i < hs.len()
        invariant
            i <= hs@.len(),
            count <= i,
            count == count_equal(hs@.subrange(0, i as int), (name@, value@)),
        decreases hs@.len() - i,
    {
        proof {
            assert(hs@.subrange(0, i + 1).drop_last() =~= hs@.subrange(0, i as int));
        }
        if hs[i].key == *name && hs[i].value == *value {
            count = count + 1;
        }
        i = i + 1;
    }
    assert(hs@.subrange(0, hs@.len() as int) =~= hs@);
    count
}

/// The pair that a configured header stands for, as `expected_header` says.
fn expected_pair(h: &Header) -> (r: Option<(String, String)>)
    ensures
        match expected_header(*h) {
            Some(e) => r matches Some(p) && p.0@ == e.0 && p.1@ == e.1,
            None => r is None,
        },
{
    match normalize_configured_name(h.key.as_str()) {
        Some(name) => if header_value_is_valid(h.value.as_str()) {
            Some((name, h.value.clone()))
        } else {
            None
        },
        None => None,
    }
}

impl Matcher {
    /// Whether one side of a header pattern accepts `actual`.
    fn side_hits(&mut self, side: &Either, actual: &String, is_name: bool) -> (r: bool)
        requires
            old(self).wf(),
        ensures
            final(self).wf(),
            final(self).predicates() == old(self).predicates(),
            old(self).regexes().kept_in(&final(self).regexes()),
            r == side_hit(*side, actual@, is_name),
    {
        match side {
            Either::Left(lit) => if is_name {
                lowercase(lit.as_str()) == *actual
            } else {
                *lit == *actual
            },
            Either::Right(re) => self.regexes.is_match(re.as_str(), actual.as_str()),
        }
    }

    /// How many request headers match the pattern.
    fn count_pattern_headers(&mut self, hs: &Vec<Header>, hp: &HeaderPattern) -> (r: usize)
        requires
            old(self).wf(),
        ensures
            final(self).wf(),
            final(self).predicates() == old(self).predicates(),
            old(self).regexes().kept_in(&final(self).regexes()),
            r == count_pattern(hs@, *hp),
    {
        let mut count: usize = 0;
        let mut i: usize = 0;
        while i < hs.len()
            invariant
                self.wf(),
                self.predicates() == old(self).predicates(),
                old(self).regexes().kept_in(&self.regexes()),
                i <= hs@.len(),
                count <= i,
                count == count_pattern(hs@.subrange(0, i as int), *hp),
            decreases hs@.len() - i,
        {
            proof {
                assert(hs@.subrange(0, i + 1).drop_last() =~= hs@.subrange(0, i as int));
            }
            let h = &hs[i];
            if is_visible_text(h.value.as_str()) {
                let name_hit = self.side_hits(&hp.key, &h.key, true);
                if name_hit {
                    let value_hit = self.side_hits(&hp.value, &h.value, false);
                    if value_hit {
                        count = count + 1;
                    }
                }
            }
            i = i + 1;
        }
        assert(hs@.subrange(0, hs@.len() as int) =~= hs@);
        count
    }

    /// Whether every configured header is among the request headers.
    fn all_headers_present(hs: &Vec<Header>, cfg: &Vec<Header>) -> (r: bool)
        ensures
            r == exact_headers_hold(hs@, cfg@),
    {
        let mut i: usize = 0;
        while i < cfg.len()
            invariant
                i <= cfg@.len(),
                forall|j: int|
                    0 <= j < i ==> match #[trigger] expected_header(cfg@[j]) {
                        Some(e) => count_equal(hs@, e) > 0,
                        None => false,
                    },
            decreases cfg@.len() - i,
        {
            match expected_pair(&cfg[i]) {
                Some(pair) => {
                    if count_equal_headers(hs, &pair.0, &pair.1) == 0 {
                        return false;
                    }
                },
                None => {
                    return false;
                },
            }
            i = i + 1;
        }
        true
    }

    /// Whether every configured pattern is matched by some request header.
    fn all_patterns_present(&mut self, hs: &Vec<Header>, cfg: &Vec<HeaderPattern>) -> (r: bool)
        requires
            old(self).wf(),
        ensures
            final(self).wf(),
            final(self).predicates() == old(self).predicates(),
            old(self).regexes().kept_in(&final(self).regexes()),
            r == pattern_headers_hold(hs@, cfg@),
    {
        let mut i: usize = 0;
        while i < cfg.len()
            invariant
                self.wf(),
                self.predicates() == old(self).predicates(),
                old(self).regexes().kept_in(&self.regexes()),
                i <= cfg@.len(),
                forall|j: int| 0 <= j < i ==> count_pattern(hs@, #[trigger] cfg@[j]) > 0,
            decreases cfg@.len() - i,
        {
            if self.count_pattern_headers(hs, &cfg[i]) == 0 {
                return false;
            }
            i = i + 1;
        }
        true
    }

    /// What predicate `p` says of the request under the configuration.
    pub fn outcome(&mut self, p: Predicate, req: &HttpRequest, cfg: &Request) -> (r: Option<bool>)
        requires
            old(self).wf(),
            req.wf(),
        ensures
            final(self).wf(),
            final(self).predicates() == old(self).predicates(),
            old(self).regexes().kept_in(&final(self).regexes()),
            r == outcome(p, *req, *cfg),
    {
        match p {
            Predicate::ExactUrl => match &cfg.url {
                Some(u) => Some(req.path == *u),
                None => None,
            },
            Predicate::PatternUrl => match &cfg.url_pattern {
                Some(u) => Some(self.regexes.is_match(u.as_str(), req.path.as_str())),
                None => None,
            },
            Predicate::ExactMethod => match &cfg.method {
                Some(m) => Some(req.method == *m),
                None => None,
            },
            Predicate::PatternMethod => match &cfg.method_pattern {
                Some(m) => Some(self.regexes.is_match(m.as_str(), req.method.as_str())),
                None => None,
            },
            Predicate::ExactHeader => match &cfg.header {
                Some(h) => match expected_pair(h) {
                    Some(pair) => Some(count_equal_headers(&req.headers, &pair.0, &pair.1) == 1),
                    None => Some(false),
                },
                None => None,
            },
            Predicate::PatternHeader => match &cfg.header_pattern {
                Some(hp) => Some(self.count_pattern_headers(&req.headers, hp) == 1),
                None => None,
            },
            Predicate::ExactHeaders => if cfg.headers.len() == 0 {
                None
            } else {
                Some(Matcher::all_headers_present(&req.headers, &cfg.headers))
            },
            Predicate::PatternHeaders => if cfg.header_patterns.len() == 0 {
                None
            } else {
                Some(self.all_patterns_present(&req.headers, &cfg.header_patterns))
            },
        }
    }

    /// Whether the request matches the configuration: some enabled predicate
    /// applies, and every one that applies holds.
    pub fn is_match(&mut self, req: &HttpRequest, cfg: &Request) -> (r: bool)
        requires
            old(self).wf(),
            req.wf(),
        ensures
            final(self).wf(),
            final(self).predicates() == old(self).predicates(),
            old(self).regexes().kept_in(&final(self).regexes()),
            r == matches(old(self).predicates(), *req, *cfg),
    {
        let ghost preds = self.predicates();
        let mut applies = false;
        let mut holds = true;
        let mut i: usize = 0;
        while i < self.predicates.len()
            invariant
                self.wf(),
                self.predicates() == preds,
                req.wf(),
                old(self).regexes().kept_in(&self.regexes()),
                i <= preds.len(),
                applies == exists|j: int| 0 <= j < i && (#[trigger] outcome(preds[j], *req, *cfg)) is Some,
                holds == forall|j: int| 0 <= j < i ==> #[trigger] outcome(preds[j], *req, *cfg) != Some(false),
            decreases preds.len() - i,
        {
            let p = self.predicates[i];
            let o = self.outcome(p, req, cfg);
            match o {
                Some(b) => {
                    applies = true;
                    if !b {
                        holds = false;
                    }
                },
                None => {},
            }
            i = i + 1;
        }
        applies && holds
    }

    /// The mapping chosen for the request: among the mappings that it
    /// matches, the one of lowest priority, and of those the first stored.
    /// `MappingNotFound` when it matches none.
    pub fn get_match<'a>(&mut self, req: &HttpRequest, mappings: &'a Mappings) -> (r: Result<
        &'a Mapping,
        Error,
    >)
        requires
            old(self).wf(),
            req.wf(),
        ensures
            final(self).wf(),
            final(self).predicates() == old(self).predicates(),
            old(self).regexes().kept_in(&final(self).regexes()),
            r is Ok <==> exists|i: int| matches_at(old(self).predicates(), *req, mappings@, i),
            r matches Ok(m) ==> exists|i: int|
                selects(old(self).predicates(), *req, mappings@, i) && *m == mappings@[i].1,
            r is Err ==> r == Err::<&Mapping, Error>(Error::MappingNotFound),
    {
        let ghost preds = self.predicates();
        let mut best: Option<usize> = None;
        let mut i: usize = 0;
        while i < mappings.len()
            invariant
                self.wf(),
                self.predicates() == preds,
                req.wf(),
                old(self).regexes().kept_in(&self.regexes()),
                i <= mappings@.len(),
                best is None ==> forall|j: int| 0 <= j < i ==> !matches_at(preds, *req, mappings@, j),
                best matches Some(b) ==> {
                    &&& b < i
                    &&& matches_at(preds, *req, mappings@, b as int)
                    &&& forall|j: int|
                        #![trigger matches_at(preds, *req, mappings@, j)]
                        0 <= j < i && matches_at(preds, *req, mappings@, j)
                            ==> mappings@[b as int].1.priority <= mappings@[j].1.priority
                    &&& forall|j: int|
                        #![trigger matches_at(preds, *req, mappings@, j)]
                        0 <= j < b && matches_at(preds, *req, mappings@, j)
                            ==> mappings@[b as int].1.priority < mappings@[j].1.priority
                },
            decreases mappings@.len() - i,
        {
            let m = mappings.get(i);
            let hit = self.is_match(req, &m.request);
            if hit {
                match best {
                    Some(b) => {
                        if m.priority < mappings.get(b).priority {
                            best = Some(i);
                        }
                    },
                    None => {
                        best = Some(i);
                    },
                }
            }
            i = i + 1;
        }
        match best {
            Some(b) => {
                assert(selects(preds, *req, mappings@, b as int));
                Ok(mappings.get(b))
            },
            None => Err(Error::MappingNotFound),
        }
    }
}

/// A predicate whose field the configuration leaves unset is not
/// applicable, whatever the request.
pub proof fn unset_field_is_not_applicable(p: Predicate, req: HttpRequest, cfg: Request)
    requires
        !configures(p, cfg),
    ensures
        outcome(p, req, cfg) is None,
{
}

/// A mapping whose request configuration sets nothing matches no request,
/// whichever predicates are enabled.
pub proof fn unconfigured_matches_nothing(preds: Seq<Predicate>, req: HttpRequest, cfg: Request)
    requires
        cfg.is_unconfigured(),
    ensures
        !matches(preds, req, cfg),
{
    assert forall|i: int| 0 <= i < preds.len() implies (#[trigger] outcome(preds[i], req, cfg)) is None by {
        unset_field_is_not_applicable(preds[i], req, cfg);
    }
}

/// When two mappings match a request and the first has the lower priority,
/// the second is not chosen, and the chosen one has a priority no higher
/// than the first's. In a store of just these two, the first is chosen.
pub proof fn lower_priority_wins(
    preds: Seq<Predicate>,
    req: HttpRequest,
    store: Seq<(u128, Mapping)>,
    chosen: int,
    first: int,
    second: int,
)
    requires
        selects(preds, req, store, chosen),
        matches_at(preds, req, store, first),
        matches_at(preds, req, store, second),
        store[first].1.priority < store[second].1.priority,
    ensures
        chosen != second,
        store[chosen].1.priority <= store[first].1.priority,
        store.len() == 2 ==> chosen == first,
{
}

} // verus!
