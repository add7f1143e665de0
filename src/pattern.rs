//! Regular expressions: compiled through the `regex` crate and kept in a
//! cache keyed by their source, so that each source is compiled once.
use crate::keyed::{keys_unique, lemma_map_of_entry, lemma_map_of_keys, lemma_map_of_push, map_of};
use regex::Regex;
use vstd::prelude::*;

verus! {

#[verifier::external_type_specification]
#[verifier::external_body]
pub struct ExRegex(regex::Regex);

/// Whether `regex::Regex::new` accepts a source.
pub uninterp spec fn regex_compiles(p: Seq<char>) -> bool;

/// The source that a compiled regex was built from (`Regex::as_str`).
pub uninterp spec fn regex_source(re: Regex) -> Seq<char>;

/// Whether the regex compiled from `p` matches somewhere in `s` (`Regex::is_match`).
pub uninterp spec fn regex_matches(p: Seq<char>, s: Seq<char>) -> bool;

/// A pattern matches a text when its source compiles and the regex matches.
/// A source that does not compile matches nothing.
pub open spec fn pattern_hit(p: Seq<char>, s: Seq<char>) -> bool {
    regex_compiles(p) && regex_matches(p, s)
}

/// Relies on `regex::Regex::new`: a regex for every valid source, which keeps
/// that source.
#[verifier::external_body]
fn compile_regex(p: &str) -> (r: Option<Regex>)
    ensures
        r is Some <==> regex_compiles(p@),
        r matches Some(re) ==> regex_source(re) == p@,
{
    Regex::new(p).ok()
}

/// Relies on `regex::Regex::is_match`: whether the regex matches somewhere in `s`.
#[verifier::external_body]
fn regex_is_match(re: &Regex, s: &str) -> (r: bool)
    ensures
        r == regex_matches(regex_source(*re), s@),
{
    re.is_match(s)
}

/// One source and what compiling it gave; a source that does not compile is
/// kept too, so that it is not tried again.
struct CachedRegex {
    source: String,
    regex: Option<Regex>,
}

/// The compiled regexes, keyed by source. Entries are never changed or removed.
pub struct RegexCache {
    entries: Vec<CachedRegex>,
}

impl RegexCache {
    pub closed spec fn pairs(&self) -> Seq<(Seq<char>, Option<Regex>)> {
        self.entries@.map_values(|e: CachedRegex| (e.source@, e.regex))
    }

    /// What is cached: each source with its compiled regex, or `None` where it
    /// did not compile.
    pub closed spec fn view(&self) -> Map<Seq<char>, Option<Regex>> {
        map_of(self.pairs())
    }

    /// Sources are unique and each entry is what compiling its source gives.
    pub closed spec fn wf(&self) -> bool {
        &&& keys_unique(self.pairs())
        &&& forall|i: int|
            #![trigger self.entries@[i]]
            0 <= i < self.entries@.len() ==> {
                let e = self.entries@[i];
                &&& (e.regex is Some <==> regex_compiles(e.source@))
                &&& (e.regex matches Some(re) ==> regex_source(re) == e.source@)
            }
    }

    /// Every entry of `self` stays in `later` as it is.
    pub open spec fn kept_in(&self, later: &RegexCache) -> bool {
        forall|k: Seq<char>| #[trigger]
            self.view().contains_key(k) ==> later.view().contains_key(k) && later.view()[k]
                == self.view()[k]
    }

    /// An empty cache.
    pub fn new() -> (r: RegexCache)
        ensures
            r.wf(),
            r.view() == Map::<Seq<char>, Option<Regex>>::empty(),
    {
        let r = RegexCache { entries: Vec::new() };
        assert(r.pairs() =~= Seq::<(Seq<char>, Option<Regex>)>::empty());
        r
    }

    /// Where the entry for `p` stands.
    fn find(&self, p: &String) -> (r: Option<usize>)
        requires
            self.wf(),
        ensures
            r matches Some(i) ==> i < self.entries@.len() && self.entries@[i as int].source@ == p@,
            r is None ==> !self.view().contains_key(p@),
    {
        let mut i: usize = 0;
        while i < self.entries.len()
            invariant
                i <= self.entries@.len(),
                forall|j: int| 0 <= j < i ==> self.entries@[j].source@ != p@,
            decreases self.entries@.len() - i,
        {
            if self.entries[i].source == *p {
                return Some(i);
            }
            i = i + 1;
        }
        proof {
            lemma_map_of_keys(self.pairs(), p@);
            if self.view().contains_key(p@) {
                let j = choose|j: int| 0 <= j < self.pairs().len() && self.pairs()[j].0 == p@;
                assert(self.pairs()[j].0 == self.entries@[j].source@);
            }
        }
        None
    }

    /// The entry for `p`, compiling and adding it when it is not cached yet.
    fn entry(&mut self, p: &str) -> (idx: usize)
        requires
            old(self).wf(),
        ensures
            final(self).wf(),
            old(self).kept_in(final(self)),
            final(self).view() == old(self).view().insert(p@, final(self).view()[p@]),
            idx < final(self).entries@.len(),
            final(self).entries@[idx as int].source@ == p@,
            final(self).view()[p@] == final(self).entries@[idx as int].regex,
    {
        let key = p.to_owned();
        match self.find(&key) {
            Some(i) => {
                proof {
                    assert(self.pairs()[i as int].0 == p@);
                    lemma_map_of_entry(self.pairs(), i as int);
                    assert(self.view().insert(p@, self.view()[p@]) =~= self.view());
                }
                i
            },
            None => {
                let compiled = compile_regex(p);
                let ghost before = self.pairs();
                proof {
                    lemma_map_of_push(before, p@, compiled);
                }
                self.entries.push(CachedRegex { source: key, regex: compiled });
                let idx = self.entries.len() - 1;
                proof {
                    assert(self.pairs() =~= before.push((p@, compiled)));
                    assert forall|i: int| 0 <= i < self.entries@.len() implies {
                        let e = #[trigger] self.entries@[i];
                        &&& (e.regex is Some <==> regex_compiles(e.source@))
                        &&& (e.regex matches Some(re) ==> regex_source(re) == e.source@)
                    } by {
                        if i < self.entries@.len() - 1 {
                            assert(self.entries@[i] == old(self).entries@[i]);
                        }
                    }
                    assert forall|k: Seq<char>| #[trigger]
                        old(self).view().contains_key(k) implies self.view().contains_key(k)
                        && self.view()[k] == old(self).view()[k] by {
                        assert(k != p@);
                    }
                }
                idx
            },
        }
    }

    /// Whether the regex with source `pattern` matches somewhere in `text`;
    /// a source that does not compile matches nothing. The source is compiled
    /// on its first use only: afterwards the cached regex is used.
    pub fn is_match(&mut self, pattern: &str, text: &str) -> (r: bool)
        requires
            old(self).wf(),
        ensures
            final(self).wf(),
            r == pattern_hit(pattern@, text@),
            old(self).kept_in(final(self)),
            final(self).view().contains_key(pattern@),
            final(self).view() == old(self).view().insert(pattern@, final(self).view()[pattern@]),
    {
        let idx = self.entry(pattern);
        proof {
            assert(self.pairs()[idx as int].0 == pattern@);
            lemma_map_of_entry(self.pairs(), idx as int);
        }
        match &self.entries[idx].regex {
            Some(re) => regex_is_match(re, text),
            None => false,
        }
    }
}

/// A cached regex never changes: once a source is in the cache, every later
/// state of the cache holds the same compiled regex for it.
pub proof fn cached_regex_is_stable(
    first: RegexCache,
    second: RegexCache,
    third: RegexCache,
    p: Seq<char>,
)
    requires
        first.view().contains_key(p),
        first.kept_in(&second),
        second.kept_in(&third),
    ensures
        third.view().contains_key(p),
        third.view()[p] == first.view()[p],
{
}

} // verus!
