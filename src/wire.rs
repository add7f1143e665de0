//! What the `http` crate decides about header names, header values and
//! status codes.
use vstd::prelude::*;

verus! {

/// A character that `http` accepts in a header name (its token characters).
pub open spec fn header_name_char(c: char) -> bool {
    ||| ('a' <= c && c <= 'z')
    ||| ('A' <= c && c <= 'Z')
    ||| ('0' <= c && c <= '9')
    ||| c == '!' || c == '"' || c == '#' || c == '$' || c == '%' || c == '&' || c == '\''
    ||| c == '*' || c == '+' || c == '-' || c == '.' || c == '^' || c == '_' || c == '`'
    ||| c == '|' || c == '~'
}

/// A character with ASCII upper case letters turned to lower case.
pub open spec fn lower_ascii(c: char) -> char {
    if 'A' <= c && c <= 'Z' {
        ((c as u32) + 32) as char
    } else {
        c
    }
}

/// What `http::header::HeaderName::from_bytes` makes of a name: the name in
/// lower case where it is non-empty and made of token characters, else
/// `None`.
pub open spec fn header_name_of(s: Seq<char>) -> Option<Seq<char>> {
    if s.len() > 0 && forall|i: int| 0 <= i < s.len() ==> header_name_char(#[trigger] s[i]) {
        Some(s.map_values(|c: char| lower_ascii(c)))
    } else {
        None
    }
}

/// Relies on `http::header::HeaderName::from_bytes`: the normalised name,
/// read back with `HeaderName::as_str`. `from_bytes` panics on names of
/// 64 KiB or more; a character takes at most four bytes.
#[verifier::external_body]
fn normalize_header_name(s: &str) -> (r: Option<String>)
    requires
        s@.len() < 16384,
    ensures
        r is Some <==> header_name_of(s@) is Some,
        r matches Some(n) ==> n@ == header_name_of(s@)->Some_0,
{
    http::header::HeaderName::from_bytes(s.as_bytes()).ok().map(|n| n.as_str().to_owned())
}

/// The normalised form of a configured header name, or `None` where it is
/// not valid. Names of 16384 characters or more are refused.
pub open spec fn configured_name(s: Seq<char>) -> Option<Seq<char>> {
    if s.len() < 16384 {
        header_name_of(s)
    } else {
        None
    }
}

/// The normalised form of a configured header name, as `configured_name` says.
pub fn normalize_configured_name(s: &str) -> (r: Option<String>)
    ensures
        r is Some <==> configured_name(s@) is Some,
        r matches Some(n) ==> n@ == configured_name(s@)->Some_0,
{
    if s.unicode_len() >= 16384 {
        None
    } else {
        normalize_header_name(s)
    }
}

/// A character that a header value may hold: every byte of its UTF-8 form is
/// a tab, or at least 32 and not 127.
pub open spec fn header_value_char(c: char) -> bool {
    (c == '\t') || (' ' <= c && c != '\x7f')
}

/// A text that `http::header::HeaderValue` accepts.
pub open spec fn valid_header_value(s: Seq<char>) -> bool {
    forall|i: int| 0 <= i < s.len() ==> header_value_char(#[trigger] s[i])
}

/// Relies on `http::header::HeaderValue::from_bytes`, which accepts a value
/// whose bytes are each a tab, or at least 32 and not 127.
#[verifier::external_body]
pub fn header_value_is_valid(s: &str) -> (r: bool)
    ensures
        r == valid_header_value(s@),
{
    http::header::HeaderValue::from_bytes(s.as_bytes()).is_ok()
}

/// A visible ASCII character or a tab: what `HeaderValue::to_str` accepts.
pub open spec fn visible_char(c: char) -> bool {
    (c == '\t') || (' ' <= c && c < '\x7f')
}

/// A header value that reads as text.
pub open spec fn visible_text(s: Seq<char>) -> bool {
    forall|i: int| 0 <= i < s.len() ==> visible_char(#[trigger] s[i])
}

/// Whether every character of `s` is visible ASCII or a tab.
pub fn is_visible_text(s: &str) -> (r: bool)
    ensures
        r == visible_text(s@),
{
    let n = s.unicode_len();
    let mut i: usize = 0;
    while i < n
        invariant
            n == s@.len(),
            i <= n,
            forall|j: int| 0 <= j < i ==> visible_char(#[trigger] s@[j]),
        decreases n - i,
    {
        let c = s.get_char(i);
        if !(c == '\t' || (' ' <= c && c < '\x7f')) {
            return false;
        }
        i = i + 1;
    }
    true
}

/// Relies on `http::StatusCode::from_u16`, which accepts the codes from 100 to 599.
#[verifier::external_body]
pub fn status_code_is_valid(code: u16) -> (r: bool)
    ensures
        r == (100 <= code < 600),
{
    http::StatusCode::from_u16(code).is_ok()
}

} // verus!
