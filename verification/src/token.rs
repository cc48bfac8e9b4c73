//! The CSRF token extractor: searches the request body, then two well-known
//! header names, for an anti-CSRF token.
//!
//! The body is scanned left to right; at each position the recognized field
//! names are tried in order of specificity (`csrf`/`xsrf` + optional `_` or
//! `-` + `token`, `authenticity` + optional separator + `token`, bare
//! `token`, bare `csrf`/`xsrf`), case-insensitively. A matching name must be
//! followed by an optional quote, optional whitespace, `:` or `=`, optional
//! whitespace and an optional quote; the token is the non-empty run of
//! letters, digits, `-`, `_` and `=` that follows. When the body yields
//! nothing, the `X-XSRF-TOKEN` and `X-CSRF-TOKEN` headers are consulted in
//! that order and the first one present wins verbatim.

use vstd::prelude::*;

use crate::shared_kernel::{header_value, Body, Request, RequestParser, RequestView};
use crate::text::{
    is_upper, lit_matches_ci_at, lower_char, matches_ci_at, skip_ws, skip_ws_from,
    string_of_range, to_lower_char,
};

verus! {

/// The extracted anti-CSRF token value, equal by value.
#[derive(Debug, PartialEq)]
pub struct CsrfToken(String);

impl View for CsrfToken {
    type V = Seq<char>;

    closed spec fn view(&self) -> Seq<char> {
        self.0@
    }
}

impl CsrfToken {
    pub fn new(s: &str) -> (r: Self)
        ensures
            r@ == s@,
    {
        CsrfToken(s.to_owned())
    }
}

/// A single or double quote.
pub open spec fn is_quote(c: char) -> bool {
    c == '"' || c == '\''
}

/// A separator accepted between a name stem and `token`.
pub open spec fn is_sep(c: char) -> bool {
    c == '_' || c == '-'
}

/// A character a token value may consist of: a letter, a digit, `-`, `_` or
/// `=`.
pub open spec fn is_token_value_char(c: char) -> bool {
    ||| ('a' as u32 <= c as u32 && c as u32 <= 'z' as u32)
    ||| is_upper(c)
    ||| ('0' as u32 <= c as u32 && c as u32 <= '9' as u32)
    ||| c == '-'
    ||| c == '_'
    ||| c == '='
}

/// The end of the run of token-value characters that starts at `j`.
pub open spec fn token_value_end(s: Seq<char>, j: int) -> int
    recommends
        0 <= j <= s.len(),
    decreases s.len() - j,
{
    if j < s.len() && is_token_value_char(s[j]) {
        token_value_end(s, j + 1)
    } else {
        j
    }
}

/// `csrf` or `xsrf`, case-insensitively, at position `p`.
pub open spec fn cx_srf_at(s: Seq<char>, p: int) -> bool {
    &&& 0 <= p
    &&& p + 4 <= s.len()
    &&& (lower_char(s[p]) == 'c' || lower_char(s[p]) == 'x')
    &&& matches_ci_at(s, p + 1, "srf"@)
}

/// The token value captured right after a field name that ends at `j`: an
/// optional quote, optional whitespace, `:` or `=`, optional whitespace, an
/// optional quote, then a non-empty run of token-value characters.
pub open spec fn token_complete(s: Seq<char>, j: int) -> Option<Seq<char>> {
    let j1 = if j < s.len() && is_quote(s[j]) {
        j + 1
    } else {
        j
    };
    let j2 = skip_ws(s, j1);
    if j2 < s.len() && (s[j2] == ':' || s[j2] == '=') {
        let j3 = skip_ws(s, j2 + 1);
        let j4 = if j3 < s.len() && is_quote(s[j3]) {
            j3 + 1
        } else {
            j3
        };
        if token_value_end(s, j4) > j4 {
            Some(s.subrange(j4, token_value_end(s, j4)))
        } else {
            None
        }
    } else {
        None
    }
}

/// Where the field-name variant numbered `k` ends when it matches at `p`.
/// Variants are numbered in matching order: `csrf`/`xsrf` with a separator
/// before `token`, the same without one, `authenticity` with and without a
/// separator, bare `token`, bare `csrf`/`xsrf`.
pub open spec fn token_name_end(s: Seq<char>, p: int, k: int) -> Option<int> {
    if k == 0 {
        if cx_srf_at(s, p) && p + 5 <= s.len() && is_sep(s[p + 4]) && matches_ci_at(
            s,
            p + 5,
            "token"@,
        ) {
            Some(p + 10)
        } else {
            None
        }
    } else if k == 1 {
        if cx_srf_at(s, p) && matches_ci_at(s, p + 4, "token"@) {
            Some(p + 9)
        } else {
            None
        }
    } else if k == 2 {
        if matches_ci_at(s, p, "authenticity"@) && p + 13 <= s.len() && is_sep(s[p + 12])
            && matches_ci_at(s, p + 13, "token"@) {
            Some(p + 18)
        } else {
            None
        }
    } else if k == 3 {
        if matches_ci_at(s, p, "authenticity"@) && matches_ci_at(s, p + 12, "token"@) {
            Some(p + 17)
        } else {
            None
        }
    } else if k == 4 {
        if matches_ci_at(s, p, "token"@) {
            Some(p + 5)
        } else {
            None
        }
    } else if k == 5 {
        if cx_srf_at(s, p) {
            Some(p + 4)
        } else {
            None
        }
    } else {
        None
    }
}

/// The number of field-name variants.
pub open spec fn token_variant_count() -> int {
    6
}

/// The value captured at position `p` by the first variant, from `k` on,
/// whose name matches there and completes.
pub open spec fn token_match_variants(s: Seq<char>, p: int, k: int) -> Option<Seq<char>>
    decreases token_variant_count() - k,
{
    if k < 0 || k >= token_variant_count() {
        None
    } else {
        match token_name_end(s, p, k) {
            Some(e) => match token_complete(s, e) {
                Some(v) => Some(v),
                None => token_match_variants(s, p, k + 1),
            },
            None => token_match_variants(s, p, k + 1),
        }
    }
}

/// The value captured at position `p`, if any variant matches and completes
/// there.
pub open spec fn token_match_at(s: Seq<char>, p: int) -> Option<Seq<char>> {
    token_match_variants(s, p, 0)
}

/// The value captured at the first position at or after `p` where a variant
/// matches and completes.
pub open spec fn token_scan(s: Seq<char>, p: int) -> Option<Seq<char>>
    recommends
        0 <= p <= s.len(),
    decreases s.len() - p,
{
    if p < s.len() {
        if token_match_at(s, p) is Some {
            token_match_at(s, p)
        } else {
            token_scan(s, p + 1)
        }
    } else {
        None
    }
}

/// What the body search finds: the first token value in the body text.
pub open spec fn spec_token_in_body(body: Seq<char>) -> Option<Seq<char>> {
    token_scan(body, 0)
}

/// What the header search finds: the value of `X-XSRF-TOKEN`, else of
/// `X-CSRF-TOKEN`, verbatim.
pub open spec fn spec_token_headers(headers: Seq<(Seq<char>, Seq<char>)>) -> Option<Seq<char>> {
    match header_value(headers, "x-xsrf-token"@) {
        Some(v) => Some(v),
        None => header_value(headers, "x-csrf-token"@),
    }
}

/// What the token extractor finds in a request: the body match if any, else
/// the header match.
pub open spec fn spec_csrf_token(rq: RequestView) -> Option<Seq<char>> {
    match spec_token_in_body(rq.body) {
        Some(v) => Some(v),
        None => spec_token_headers(rq.headers),
    }
}

/// Token-value character test, executable form.
fn is_token_value_char_exec(c: char) -> (r: bool)
    ensures
        r == is_token_value_char(c),
{
    let u = c as u32;
    ('a' as u32 <= u && u <= 'z' as u32) || ('A' as u32 <= u && u <= 'Z' as u32) || ('0' as u32
        <= u && u <= '9' as u32) || c == '-' || c == '_' || c == '='
}

/// Quote test, executable form.
fn is_quote_char(c: char) -> (r: bool)
    ensures
        r == is_quote(c),
{
    c == '"' || c == '\''
}

/// The end of the run of token-value characters that starts at `j`,
/// executable form.
fn token_value_end_from(s: &Vec<char>, j: usize) -> (r: usize)
    requires
        j <= s@.len(),
    ensures
        r == token_value_end(s@, j as int),
        j <= r <= s@.len(),
    decreases s@.len() - j,
{
    if j < s.len() && is_token_value_char_exec(s[j]) {
        token_value_end_from(s, j + 1)
    } else {
        j
    }
}

/// The range of the token value captured right after a name ending at `j`;
/// executable form of `token_complete`.
fn token_complete_at(s: &Vec<char>, j: usize) -> (r: Option<(usize, usize)>)
    requires
        j <= s@.len(),
    ensures
        match r {
            Some((a, b)) => a <= b <= s@.len() && token_complete(s@, j as int) == Some(
                s@.subrange(a as int, b as int),
            ),
            None => token_complete(s@, j as int) is None,
        },
{
    let sn = s.len();
    let j1 = if j < sn && is_quote_char(s[j]) {
        j + 1
    } else {
        j
    };
    let j2 = skip_ws_from(s, j1);
    if j2 < sn && (s[j2] == ':' || s[j2] == '=') {
        let j3 = skip_ws_from(s, j2 + 1);
        let j4 = if j3 < sn && is_quote_char(s[j3]) {
            j3 + 1
        } else {
            j3
        };
        let e = token_value_end_from(s, j4);
        if e > j4 {
            Some((j4, e))
        } else {
            None
        }
    } else {
        None
    }
}

/// `csrf` or `xsrf` at `p`, executable form.
fn cx_srf_at_pos(s: &Vec<char>, p: usize) -> (r: bool)
    requires
        p <= s@.len(),
    ensures
        r == cx_srf_at(s@, p as int),
{
    if s.len() - p < 4 {
        return false;
    }
    let c = to_lower_char(s[p]);
    (c == 'c' || c == 'x') && lit_matches_ci_at(s, p + 1, "srf")
}

/// Where the field-name variant numbered `k` ends when it matches at `p`,
/// executable form.
fn token_name_end_at(s: &Vec<char>, p: usize, k: usize) -> (r: Option<usize>)
    requires
        p <= s@.len(),
        k < token_variant_count(),
    ensures
        match r {
            Some(e) => p <= e <= s@.len() && token_name_end(s@, p as int, k as int) == Some(
                e as int,
            ),
            None => token_name_end(s@, p as int, k as int) is None,
        },
{
    proof {
        reveal_strlit("srf");
        reveal_strlit("token");
        reveal_strlit("authenticity");
    }
    let sn = s.len();
    if k == 0 {
        if cx_srf_at_pos(s, p) && sn - p >= 5 && (s[p + 4] == '_' || s[p + 4] == '-')
            && lit_matches_ci_at(s, p + 5, "token") {
            Some(p + 10)
        } else {
            None
        }
    } else if k == 1 {
        if cx_srf_at_pos(s, p) && lit_matches_ci_at(s, p + 4, "token") {
            Some(p + 9)
        } else {
            None
        }
    } else if k == 2 {
        if lit_matches_ci_at(s, p, "authenticity") && sn - p >= 13 && (s[p + 12] == '_' || s[p + 12]
            == '-') && lit_matches_ci_at(s, p + 13, "token") {
            Some(p + 18)
        } else {
            None
        }
    } else if k == 3 {
        if lit_matches_ci_at(s, p, "authenticity") && sn - p >= 17 && lit_matches_ci_at(
            s,
            p + 12,
            "token",
        ) {
            Some(p + 17)
        } else {
            None
        }
    } else if k == 4 {
        if lit_matches_ci_at(s, p, "token") {
            Some(p + 5)
        } else {
            None
        }
    } else {
        if cx_srf_at_pos(s, p) {
            Some(p + 4)
        } else {
            None
        }
    }
}

/// The value range captured at position `p`, trying the variants in order;
/// executable form of `token_match_at`.
fn token_match_at_pos(s: &Vec<char>, p: usize) -> (r: Option<(usize, usize)>)
    requires
        p <= s@.len(),
    ensures
        match r {
            Some((a, b)) => a <= b <= s@.len() && token_match_at(s@, p as int) == Some(
                s@.subrange(a as int, b as int),
            ),
            None => token_match_at(s@, p as int) is None,
        },
{
    let mut k: usize = 0;
    while k < 6
        invariant
            k <= 6,
            p <= s@.len(),
            token_match_at(s@, p as int) == token_match_variants(s@, p as int, k as int),
        decreases 6 - k,
    {
        match token_name_end_at(s, p, k) {
            Some(e) => {
                let c = token_complete_at(s, e);
                if c.is_some() {
                    return c;
                }
            },
            None => {},
        }
        k += 1;
    }
    None
}

/// The range of the first token value in `s`; executable form of
/// `token_scan`.
fn find_token_value(s: &Vec<char>) -> (r: Option<(usize, usize)>)
    ensures
        match r {
            Some((a, b)) => a <= b <= s@.len() && token_scan(s@, 0) == Some(
                s@.subrange(a as int, b as int),
            ),
            None => token_scan(s@, 0) is None,
        },
{
    let n = s.len();
    let mut p: usize = 0;
    while p < n
        invariant
            p <= n,
            n == s@.len(),
            token_scan(s@, 0) == token_scan(s@, p as int),
        decreases n - p,
    {
        let r = token_match_at_pos(s, p);
        if r.is_some() {
            return r;
        }
        p += 1;
    }
    None
}

/// The CSRF token extractor.
pub struct CsrfTokenParser {}

impl CsrfTokenParser {
    pub fn new() -> (r: Self) {
        Self {  }
    }

    /// The first token in the body text, as the body search defines it.
    fn capture_token(body: &str) -> (r: Option<CsrfToken>)
        ensures
            r is Some <==> spec_token_in_body(body@) is Some,
            r matches Some(t) ==> Some(t@) == spec_token_in_body(body@),
    {
        let chars = crate::text::chars_of(body);
        match find_token_value(&chars) {
            Some((a, b)) => Some(CsrfToken(string_of_range(&chars, a, b))),
            None => None,
        }
    }

    /// The token found in the request body, if any.
    pub fn extract_token_from_body(request: &Request) -> (r: Option<CsrfToken>)
        ensures
            r is Some <==> spec_token_in_body(request@.body) is Some,
            r matches Some(t) ==> Some(t@) == spec_token_in_body(request@.body),
    {
        match &request.body {
            Body::Text(s) => Self::capture_token(s.as_str()),
        }
    }

    /// The token carried by `X-XSRF-TOKEN` or `X-CSRF-TOKEN`, in that order.
    pub fn extract_token_from_headers(request: &Request) -> (r: Option<CsrfToken>)
        ensures
            r is Some <==> spec_token_headers(request@.headers) is Some,
            r matches Some(t) ==> Some(t@) == spec_token_headers(request@.headers),
    {
        match request.header("x-xsrf-token") {
            Some(v) => Some(CsrfToken(v)),
            None => match request.header("x-csrf-token") {
                Some(v) => Some(CsrfToken(v)),
                None => None,
            },
        }
    }
}

impl RequestParser<CsrfToken> for CsrfTokenParser {
    open spec fn spec_parse(&self, request: RequestView) -> Option<Seq<char>> {
        spec_csrf_token(request)
    }

    fn parse(&self, request: &Request) -> (r: Option<CsrfToken>) {
        match Self::extract_token_from_body(request) {
            Some(t) => Some(t),
            None => Self::extract_token_from_headers(request),
        }
    }
}

/// A token-value character is neither whitespace nor a quote.
proof fn lemma_value_char_classes(c: char)
    requires
        is_token_value_char(c),
    ensures
        !crate::text::is_ws(c),
        !is_quote(c),
{
}

/// A run that reaches the end of the text: when everything from `j` on is a
/// token-value character, the run ends at the very end.
proof fn lemma_token_value_end_all(s: Seq<char>, j: int)
    requires
        0 <= j <= s.len(),
        forall|i: int| j <= i < s.len() ==> is_token_value_char(s[i]),
    ensures
        token_value_end(s, j) == s.len(),
    decreases s.len() - j,
{
    if j < s.len() {
        lemma_token_value_end_all(s, j + 1);
    }
}

/// Completion right after a name: when position `e` holds `=` and everything
/// after it is a non-empty run of token-value characters, that run is the
/// captured value.
proof fn lemma_complete_value(s: Seq<char>, e: int, value: Seq<char>)
    requires
        0 <= e,
        s.len() == e + 1 + value.len(),
        value.len() > 0,
        s[e] == '=',
        forall|i: int| 0 <= i < value.len() ==> s[e + 1 + i] == value[i],
        forall|i: int| 0 <= i < value.len() ==> is_token_value_char(value[i]),
    ensures
        token_complete(s, e) == Some(value),
{
    assert(s[e + 1 + 0] == value[0]);
    lemma_value_char_classes(s[e + 1]);
    assert forall|i: int| e + 1 <= i < s.len() implies is_token_value_char(s[i]) by {
        assert(s[e + 1 + (i - e - 1)] == value[i - e - 1]);
    }
    lemma_token_value_end_all(s, e + 1);
    assert(skip_ws(s, e) == e);
    assert(skip_ws(s, e + 1) == e + 1);
    assert(s.subrange(e + 1, s.len() as int) =~= value);
}

/// The recognized field names extract case-insensitively: a body that is one
/// of the spellings `CSRFToken`, `csrf_token`, `XSRF-TOKEN` or
/// `authenticity_token` followed by `=` and a value made of token-value
/// characters yields exactly that value.
pub proof fn lemma_body_field_extracts(name: Seq<char>, value: Seq<char>)
    requires
        name == "CSRFToken"@ || name == "csrf_token"@ || name == "XSRF-TOKEN"@ || name
            == "authenticity_token"@,
        value.len() > 0,
        forall|i: int| 0 <= i < value.len() ==> is_token_value_char(value[i]),
    ensures
        spec_token_in_body(name + "="@ + value) == Some(value),
{
    reveal_strlit("CSRFToken");
    reveal_strlit("csrf_token");
    reveal_strlit("XSRF-TOKEN");
    reveal_strlit("authenticity_token");
    reveal_strlit("=");
    reveal_strlit("srf");
    reveal_strlit("token");
    reveal_strlit("authenticity");
    crate::text::lemma_lower_char_upper('C', 'c');
    crate::text::lemma_lower_char_upper('S', 's');
    crate::text::lemma_lower_char_upper('R', 'r');
    crate::text::lemma_lower_char_upper('F', 'f');
    crate::text::lemma_lower_char_upper('T', 't');
    crate::text::lemma_lower_char_upper('O', 'o');
    crate::text::lemma_lower_char_upper('K', 'k');
    crate::text::lemma_lower_char_upper('E', 'e');
    crate::text::lemma_lower_char_upper('N', 'n');
    crate::text::lemma_lower_char_upper('X', 'x');
    let s = name + "="@ + value;
    let n = name.len() as int;
    assert(s.len() == n + 1 + value.len());
    assert(forall|i: int| 0 <= i < n ==> s[i] == name[i]);
    assert(s[n] == '=');
    assert(forall|i: int| 0 <= i < value.len() ==> s[n + 1 + i] == value[i]);
    lemma_complete_value(s, n, value);
    if name == "csrf_token"@ {
        assert(cx_srf_at(s, 0));
        assert(is_sep(s[4]));
        assert(matches_ci_at(s, 5, "token"@));
        assert(token_name_end(s, 0, 0) == Some(10int));
        assert(token_match_variants(s, 0, 0) == Some(value));
    } else if name == "XSRF-TOKEN"@ {
        assert(cx_srf_at(s, 0));
        assert(is_sep(s[4]));
        assert(matches_ci_at(s, 5, "token"@));
        assert(token_name_end(s, 0, 0) == Some(10int));
        assert(token_match_variants(s, 0, 0) == Some(value));
    } else if name == "CSRFToken"@ {
        assert(cx_srf_at(s, 0));
        assert(!is_sep(s[4]));
        assert(token_name_end(s, 0, 0) is None);
        assert(matches_ci_at(s, 4, "token"@));
        assert(token_name_end(s, 0, 1) == Some(9int));
        assert(token_match_variants(s, 0, 1) == Some(value));
        assert(token_match_variants(s, 0, 0) == Some(value));
    } else {
        assert(lower_char(s[0]) == 'a');
        assert(!cx_srf_at(s, 0));
        assert(token_name_end(s, 0, 0) is None);
        assert(token_name_end(s, 0, 1) is None);
        assert(matches_ci_at(s, 0, "authenticity"@));
        assert(is_sep(s[12]));
        assert(matches_ci_at(s, 13, "token"@));
        assert(token_name_end(s, 0, 2) == Some(18int));
        assert(token_match_variants(s, 0, 2) == Some(value));
        assert(token_match_variants(s, 0, 1) == Some(value));
        assert(token_match_variants(s, 0, 0) == Some(value));
    }
    assert(token_match_at(s, 0) is Some);
    assert(token_scan(s, 0) == token_match_at(s, 0));
}

/// Either recognized token header alone suffices: when the body yields no
/// token, one is found exactly when `X-XSRF-TOKEN` or `X-CSRF-TOKEN` is
/// present, whichever of the two it is.
pub proof fn lemma_token_header_order_independent(rq: RequestView)
    requires
        spec_token_in_body(rq.body) is None,
    ensures
        spec_csrf_token(rq) is Some <==> (header_value(rq.headers, "x-xsrf-token"@) is Some
            || header_value(rq.headers, "x-csrf-token"@) is Some),
{
}

} // verus!
