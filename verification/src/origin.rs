//! The origin/referrer signal detector: compares the request's declared
//! origin against its target host to flag cross-site submission.
//!
//! The host of an absolute URL is the text between the first `://` and the
//! next `/`, `:`, `?` or `#` (or the end); a URL without `://` has no host.
//! The declared origin is the `Origin` header when present, else the
//! `Referer` header. This detector only reports the comparison; whether the
//! server enforces it cannot be read off captured traffic.

use vstd::prelude::*;

use crate::shared_kernel::{header_value, Request, RequestView};
use crate::text::{chars_of, lit_matches_at, matches_at, string_of_range};

verus! {

/// A character that ends a URL's host part.
pub open spec fn is_host_end(c: char) -> bool {
    c == '/' || c == ':' || c == '?' || c == '#'
}

/// The position of the first `://` at or after `p`, or the end of the text.
pub open spec fn scheme_sep_pos(s: Seq<char>, p: int) -> int
    recommends
        0 <= p <= s.len(),
    decreases s.len() - p,
{
    if p >= s.len() {
        s.len() as int
    } else if matches_at(s, p, "://"@) {
        p
    } else {
        scheme_sep_pos(s, p + 1)
    }
}

/// The end of the host that starts at `j`: the first host-ending character
/// at or after it, or the end of the text.
pub open spec fn host_end(s: Seq<char>, j: int) -> int
    recommends
        0 <= j <= s.len(),
    decreases s.len() - j,
{
    if j < s.len() && !is_host_end(s[j]) {
        host_end(s, j + 1)
    } else {
        j
    }
}

/// The host of an absolute URL; empty when the URL holds no `://`.
pub open spec fn url_host(s: Seq<char>) -> Seq<char> {
    let p = scheme_sep_pos(s, 0);
    if p < s.len() {
        s.subrange(p + 3, host_end(s, p + 3))
    } else {
        Seq::empty()
    }
}

/// The host the request declares it was submitted from: the `Origin`
/// header's host when that header is present, else the `Referer` header's,
/// else nothing.
pub open spec fn spec_declared_host(rq: RequestView) -> Option<Seq<char>> {
    match header_value(rq.headers, "origin"@) {
        Some(v) => Some(url_host(v)),
        None => match header_value(rq.headers, "referer"@) {
            Some(v) => Some(url_host(v)),
            None => None,
        },
    }
}

/// Whether the declared origin matches the target: a declared host exists
/// and equals the target URL's host. A missing or mismatched origin is a
/// cross-site signal.
pub open spec fn spec_same_origin(rq: RequestView) -> bool {
    match spec_declared_host(rq) {
        Some(h) => h == url_host(rq.url),
        None => false,
    }
}

/// A scheme separator found before the end really is one.
proof fn lemma_scheme_sep_matches(s: Seq<char>, p: int)
    requires
        0 <= p <= s.len(),
        scheme_sep_pos(s, p) < s.len(),
    ensures
        matches_at(s, scheme_sep_pos(s, p), "://"@),
    decreases s.len() - p,
{
    if p < s.len() && !matches_at(s, p, "://"@) {
        lemma_scheme_sep_matches(s, p + 1);
    }
}

/// The position of the first `://` at or after `p`, executable form.
fn scheme_sep_pos_from(s: &Vec<char>, p: usize) -> (r: usize)
    requires
        p <= s@.len(),
    ensures
        r == scheme_sep_pos(s@, p as int),
        p <= r <= s@.len(),
    decreases s@.len() - p,
{
    if p >= s.len() {
        s.len()
    } else if lit_matches_at(s, p, "://") {
        p
    } else {
        scheme_sep_pos_from(s, p + 1)
    }
}

/// The end of the host that starts at `j`, executable form.
fn host_end_from(s: &Vec<char>, j: usize) -> (r: usize)
    requires
        j <= s@.len(),
    ensures
        r == host_end(s@, j as int),
        j <= r <= s@.len(),
    decreases s@.len() - j,
{
    if j < s.len() {
        let c = s[j];
        if c == '/' || c == ':' || c == '?' || c == '#' {
            j
        } else {
            host_end_from(s, j + 1)
        }
    } else {
        j
    }
}

/// The host of an absolute URL, executable form.
pub fn extract_host(url: &str) -> (r: String)
    ensures
        r@ == url_host(url@),
{
    let s = chars_of(url);
    let p = scheme_sep_pos_from(&s, 0);
    if p < s.len() {
        proof {
            reveal_strlit("://");
            lemma_scheme_sep_matches(s@, 0);
        }
        let e = host_end_from(&s, p + 3);
        string_of_range(&s, p + 3, e)
    } else {
        String::new()
    }
}

/// Whether the request's declared origin (`Origin`, else `Referer`) names
/// the same host as its target URL; false when neither header is present.
pub fn same_origin(request: &Request) -> (r: bool)
    ensures
        r == spec_same_origin(request@),
{
    let declared = match request.header("origin") {
        Some(v) => Some(extract_host(v.as_str())),
        None => match request.header("referer") {
            Some(v) => Some(extract_host(v.as_str())),
            None => None,
        },
    };
    match declared {
        Some(h) => {
            let target = extract_host(request.url.as_str());
            h == target
        },
        None => false,
    }
}

} // verus!
