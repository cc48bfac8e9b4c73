//! The session signal detector: decides whether a request is
//! session-authenticated by matching cookie names against a catalog of
//! well-known session-cookie conventions.
//!
//! The `Cookie` header is ASCII-lowercased and scanned left to right; at each
//! position the catalog names are tried in order, and a name that is followed
//! by optional whitespace, `=`, and a non-empty run of characters other than
//! `&` yields that run as the session value. The first such position wins.

use vstd::prelude::*;

use crate::shared_kernel::{header_value, Request, RequestParser, RequestView};
use crate::text::{
    chars_of, lit_matches_at, lower_seq, lowercase_string, matches_at, skip_ws, skip_ws_from,
    string_of_range,
};

verus! {

/// The extracted session-identifier value, equal by value.
#[derive(Debug, PartialEq)]
pub struct SessionCookie(String);

impl View for SessionCookie {
    type V = Seq<char>;

    closed spec fn view(&self) -> Seq<char> {
        self.0@
    }
}

impl SessionCookie {
    pub fn new(s: &str) -> (r: Self)
        ensures
            r@ == s@,
    {
        SessionCookie(s.to_owned())
    }
}

/// The catalog of recognized session-cookie names, in matching order, all
/// lowercase.
pub open spec fn session_cookie_names() -> Seq<Seq<char>> {
    seq![
        "jsessionid"@,
        "phpsessid"@,
        "asp.net_sessionid"@,
        "aspsessionid"@,
        "session"@,
        "sessid"@,
        "connect.sid"@,
        "sid"@,
    ]
}

/// The end of the run of characters other than `&` that starts at `j`.
pub open spec fn cookie_value_end(s: Seq<char>, j: int) -> int
    recommends
        0 <= j <= s.len(),
    decreases s.len() - j,
{
    if j < s.len() && s[j] != '&' {
        cookie_value_end(s, j + 1)
    } else {
        j
    }
}

/// The session value captured right after a catalog name that ends at `j`:
/// optional whitespace, `=`, then a non-empty run of characters other than
/// `&`.
pub open spec fn session_capture(s: Seq<char>, j: int) -> Option<Seq<char>> {
    let k = skip_ws(s, j);
    if k < s.len() && s[k] == '=' && cookie_value_end(s, k + 1) > k + 1 {
        Some(s.subrange(k + 1, cookie_value_end(s, k + 1)))
    } else {
        None
    }
}

/// The value captured at position `p` by the first catalog name, from index
/// `k` on, that matches there and completes.
pub open spec fn session_match_names(s: Seq<char>, p: int, k: int) -> Option<Seq<char>>
    decreases session_cookie_names().len() - k,
{
    if k < 0 || k >= session_cookie_names().len() {
        None
    } else {
        let nm = session_cookie_names()[k];
        if matches_at(s, p, nm) && session_capture(s, p + nm.len()) is Some {
            session_capture(s, p + nm.len())
        } else {
            session_match_names(s, p, k + 1)
        }
    }
}

/// The value captured at position `p`, if any catalog name matches and
/// completes there.
pub open spec fn session_match_at(s: Seq<char>, p: int) -> Option<Seq<char>> {
    session_match_names(s, p, 0)
}

/// The value captured at the first position at or after `p` where a catalog
/// name matches and completes.
pub open spec fn session_scan(s: Seq<char>, p: int) -> Option<Seq<char>>
    recommends
        0 <= p <= s.len(),
    decreases s.len() - p,
{
    if p < s.len() {
        if session_match_at(s, p) is Some {
            session_match_at(s, p)
        } else {
            session_scan(s, p + 1)
        }
    } else {
        None
    }
}

/// What the session detector finds in a request: the first session value in
/// the lowercased `Cookie` header, or nothing when the header is absent or no
/// catalog name completes in it.
pub open spec fn spec_session_cookie(rq: RequestView) -> Option<Seq<char>> {
    match header_value(rq.headers, "cookie"@) {
        Some(v) => session_scan(lower_seq(v), 0),
        None => None,
    }
}

/// The end of the run of characters other than `&` that starts at `j`,
/// executable form.
fn cookie_value_end_from(s: &Vec<char>, j: usize) -> (r: usize)
    requires
        j <= s@.len(),
    ensures
        r == cookie_value_end(s@, j as int),
        j <= r <= s@.len(),
    decreases s@.len() - j,
{
    if j < s.len() && s[j] != '&' {
        cookie_value_end_from(s, j + 1)
    } else {
        j
    }
}

/// The range of the session value captured right after a name ending at `j`,
/// executable form of `session_capture`.
fn capture_after(s: &Vec<char>, j: usize) -> (r: Option<(usize, usize)>)
    requires
        j <= s@.len(),
    ensures
        match r {
            Some((a, b)) => a <= b <= s@.len() && session_capture(s@, j as int) == Some(
                s@.subrange(a as int, b as int),
            ),
            None => session_capture(s@, j as int) is None,
        },
{
    let k = skip_ws_from(s, j);
    if k < s.len() && s[k] == '=' {
        let e = cookie_value_end_from(s, k + 1);
        if e > k + 1 {
            Some((k + 1, e))
        } else {
            None
        }
    } else {
        None
    }
}

/// Whether catalog name `nm` matches at `p` and completes there; the value
/// range on success.
fn try_session_name(s: &Vec<char>, p: usize, nm: &str) -> (r: Option<(usize, usize)>)
    requires
        p <= s@.len(),
    ensures
        match r {
            Some((a, b)) => a <= b <= s@.len() && matches_at(s@, p as int, nm@)
                && session_capture(s@, p + nm@.len()) == Some(s@.subrange(a as int, b as int)),
            None => !(matches_at(s@, p as int, nm@) && session_capture(s@, p + nm@.len()) is Some),
        },
{
    if lit_matches_at(s, p, nm) {
        let n = s.len();
        let ln = nm.unicode_len();
        proof {
            assert(p + ln <= n);
        }
        capture_after(s, p + ln)
    } else {
        None
    }
}

/// Whether the catalog name at index `k` matches at `p` and completes there;
/// on failure, trying the catalog from `k` is the same as trying it from
/// `k + 1`.
fn try_name_at(s: &Vec<char>, p: usize, nm: &str, Ghost(k): Ghost<int>) -> (r: Option<
    (usize, usize),
>)
    requires
        p <= s@.len(),
        0 <= k < session_cookie_names().len(),
        nm@ == session_cookie_names()[k],
    ensures
        match r {
            Some((a, b)) => a <= b <= s@.len() && session_match_names(s@, p as int, k) == Some(
                s@.subrange(a as int, b as int),
            ),
            None => session_match_names(s@, p as int, k) == session_match_names(
                s@,
                p as int,
                k + 1,
            ),
        },
{
    try_session_name(s, p, nm)
}

/// The value range captured at position `p`, trying the catalog names in
/// order; executable form of `session_match_at`.
fn session_match_at_pos(s: &Vec<char>, p: usize) -> (r: Option<(usize, usize)>)
    requires
        p <= s@.len(),
    ensures
        match r {
            Some((a, b)) => a <= b <= s@.len() && session_match_at(s@, p as int) == Some(
                s@.subrange(a as int, b as int),
            ),
            None => session_match_at(s@, p as int) is None,
        },
{
    let r0 = try_name_at(s, p, "jsessionid", Ghost(0));
    if r0.is_some() {
        return r0;
    }
    let r1 = try_name_at(s, p, "phpsessid", Ghost(1));
    if r1.is_some() {
        return r1;
    }
    let r2 = try_name_at(s, p, "asp.net_sessionid", Ghost(2));
    if r2.is_some() {
        return r2;
    }
    let r3 = try_name_at(s, p, "aspsessionid", Ghost(3));
    if r3.is_some() {
        return r3;
    }
    let r4 = try_name_at(s, p, "session", Ghost(4));
    if r4.is_some() {
        return r4;
    }
    let r5 = try_name_at(s, p, "sessid", Ghost(5));
    if r5.is_some() {
        return r5;
    }
    let r6 = try_name_at(s, p, "connect.sid", Ghost(6));
    if r6.is_some() {
        return r6;
    }
    let r7 = try_name_at(s, p, "sid", Ghost(7));
    if r7.is_some() {
        return r7;
    }
    proof {
        assert(session_match_names(s@, p as int, 8) is None);
    }
    None
}

/// The range of the first session value in `s`; executable form of
/// `session_scan`.
fn find_session_value(s: &Vec<char>) -> (r: Option<(usize, usize)>)
    ensures
        match r {
            Some((a, b)) => a <= b <= s@.len() && session_scan(s@, 0) == Some(
                s@.subrange(a as int, b as int),
            ),
            None => session_scan(s@, 0) is None,
        },
{
    let n = s.len();
    let mut p: usize = 0;
    while p < n
        invariant
            p <= n,
            n == s@.len(),
            session_scan(s@, 0) == session_scan(s@, p as int),
        decreases n - p,
    {
        let r = session_match_at_pos(s, p);
        if r.is_some() {
            return r;
        }
        p += 1;
    }
    None
}

/// The session signal detector.
pub struct SessionCookieParser;

impl SessionCookieParser {
    /// The `Cookie` header, ASCII-lowercased; empty when the header is
    /// absent.
    pub fn get_cookies(request: &Request) -> (r: String)
        ensures
            r@ == match header_value(request@.headers, "cookie"@) {
                Some(v) => lower_seq(v),
                None => Seq::<char>::empty(),
            },
    {
        match request.header("cookie") {
            Some(v) => lowercase_string(v.as_str()),
            None => String::new(),
        }
    }
}

impl RequestParser<SessionCookie> for SessionCookieParser {
    open spec fn spec_parse(&self, request: RequestView) -> Option<Seq<char>> {
        spec_session_cookie(request)
    }

    fn parse(&self, request: &Request) -> (r: Option<SessionCookie>) {
        let cookies = Self::get_cookies(request);
        let chars = chars_of(cookies.as_str());
        proof {
            if header_value(request@.headers, "cookie"@) is None {
                assert(session_scan(chars@, 0) is None);
            }
        }
        match find_session_value(&chars) {
            Some((a, b)) => Some(SessionCookie(string_of_range(&chars, a, b))),
            None => None,
        }
    }
}

} // verus!
