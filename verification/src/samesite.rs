//! The SameSite cookie attribute parser: inspects a `Set-Cookie` response
//! header and classifies the cookie's SameSite policy.
//!
//! The header value is scanned left to right for the attribute name
//! `SameSite` (case-insensitively) followed by `=` and one of the
//! case-sensitive values `Strict`, `Lax` or `None`; the first such occurrence
//! wins. An absent header or attribute yields no value rather than a default.

use vstd::prelude::*;

use crate::shared_kernel::{header_value, Response, ResponseParser, ResponseView};
use crate::text::{chars_of, lit_matches_at, lit_matches_ci_at, matches_at, matches_ci_at};

verus! {

/// A cookie's declared SameSite policy.
#[derive(Debug, PartialEq, Eq, Structural, Clone, Copy)]
pub enum SameSiteCookie {
    NoneValue,
    Lax,
    Strict,
}

/// The exact spelling of each policy value in a `Set-Cookie` header.
pub open spec fn samesite_name(v: SameSiteCookie) -> Seq<char> {
    match v {
        SameSiteCookie::NoneValue => "None"@,
        SameSiteCookie::Lax => "Lax"@,
        SameSiteCookie::Strict => "Strict"@,
    }
}

/// The policy value spelled verbatim at position `p`, if any.
pub open spec fn samesite_value_at(s: Seq<char>, p: int) -> Option<SameSiteCookie> {
    if matches_at(s, p, "Strict"@) {
        Some(SameSiteCookie::Strict)
    } else if matches_at(s, p, "Lax"@) {
        Some(SameSiteCookie::Lax)
    } else if matches_at(s, p, "None"@) {
        Some(SameSiteCookie::NoneValue)
    } else {
        None
    }
}

/// The policy announced by a `SameSite=` attribute starting at position `p`,
/// if one starts there.
pub open spec fn samesite_at(s: Seq<char>, p: int) -> Option<SameSiteCookie> {
    if matches_ci_at(s, p, "samesite"@) && p + 9 <= s.len() && s[p + 8] == '=' {
        samesite_value_at(s, p + 9)
    } else {
        None
    }
}

/// The policy announced by the first recognized `SameSite=` attribute at or
/// after position `p`.
pub open spec fn samesite_scan(s: Seq<char>, p: int) -> Option<SameSiteCookie>
    recommends
        0 <= p <= s.len(),
    decreases s.len() - p,
{
    if p < s.len() {
        if samesite_at(s, p) is Some {
            samesite_at(s, p)
        } else {
            samesite_scan(s, p + 1)
        }
    } else {
        None
    }
}

/// What the SameSite detector finds in a response: the policy in the first
/// `Set-Cookie` header, or nothing when the header or the attribute is
/// absent.
pub open spec fn spec_samesite(resp: ResponseView) -> Option<SameSiteCookie> {
    match header_value(resp.headers, "set-cookie"@) {
        Some(v) => samesite_scan(v, 0),
        None => None,
    }
}

/// The mapping from an exact value spelling to the policy it names.
pub open spec fn spec_from_name(s: Seq<char>) -> Option<SameSiteCookie> {
    if s == "None"@ {
        Some(SameSiteCookie::NoneValue)
    } else if s == "Lax"@ {
        Some(SameSiteCookie::Lax)
    } else if s == "Strict"@ {
        Some(SameSiteCookie::Strict)
    } else {
        None
    }
}

impl SameSiteCookie {
    /// The policy named exactly by `s`, if any.
    pub fn from_str(s: &str) -> (r: Option<SameSiteCookie>)
        ensures
            r == spec_from_name(s@),
    {
        proof {
            reveal_strlit("None");
            reveal_strlit("Lax");
            reveal_strlit("Strict");
        }
        let v = chars_of(s);
        let n = v.len();
        if n == 4 && lit_matches_at(&v, 0, "None") {
            proof {
                assert(s@ =~= "None"@);
            }
            Some(SameSiteCookie::NoneValue)
        } else if n == 3 && lit_matches_at(&v, 0, "Lax") {
            proof {
                assert(s@ =~= "Lax"@);
            }
            Some(SameSiteCookie::Lax)
        } else if n == 6 && lit_matches_at(&v, 0, "Strict") {
            proof {
                assert(s@ =~= "Strict"@);
            }
            Some(SameSiteCookie::Strict)
        } else {
            proof {
                if s@ == "None"@ {
                    assert(matches_at(v@, 0, "None"@));
                }
                if s@ == "Lax"@ {
                    assert(matches_at(v@, 0, "Lax"@));
                }
                if s@ == "Strict"@ {
                    assert(matches_at(v@, 0, "Strict"@));
                }
            }
            None
        }
    }
}

/// The policy value spelled verbatim at position `p`, executable form.
fn samesite_value_at_pos(s: &Vec<char>, p: usize) -> (r: Option<SameSiteCookie>)
    requires
        p <= s@.len(),
    ensures
        r == samesite_value_at(s@, p as int),
{
    if lit_matches_at(s, p, "Strict") {
        Some(SameSiteCookie::Strict)
    } else if lit_matches_at(s, p, "Lax") {
        Some(SameSiteCookie::Lax)
    } else if lit_matches_at(s, p, "None") {
        Some(SameSiteCookie::NoneValue)
    } else {
        None
    }
}

/// The policy announced by an attribute starting at `p`, executable form.
fn samesite_at_pos(s: &Vec<char>, p: usize) -> (r: Option<SameSiteCookie>)
    requires
        p <= s@.len(),
    ensures
        r == samesite_at(s@, p as int),
{
    proof {
        reveal_strlit("samesite");
    }
    if lit_matches_ci_at(s, p, "samesite") && s.len() - p >= 9 && s[p + 8] == '=' {
        samesite_value_at_pos(s, p + 9)
    } else {
        None
    }
}

/// The SameSite attribute parser.
pub struct SameSiteParser {}

impl SameSiteParser {
    pub fn new() -> (r: Self) {
        Self {  }
    }

    /// The policy announced by the first recognized `SameSite=` attribute in
    /// one header value.
    pub fn get_samesite_cookie(header: &str) -> (r: Option<SameSiteCookie>)
        ensures
            r == samesite_scan(header@, 0),
    {
        let s = chars_of(header);
        let n = s.len();
        let mut p: usize = 0;
        while p < n
            invariant
                p <= n,
                n == s@.len(),
                s@ == header@,
                samesite_scan(s@, 0) == samesite_scan(s@, p as int),
            decreases n - p,
        {
            let r = samesite_at_pos(&s, p);
            if r.is_some() {
                return r;
            }
            p += 1;
        }
        None
    }
}

impl ResponseParser<SameSiteCookie> for SameSiteParser {
    open spec fn spec_parse(&self, response: ResponseView) -> Option<SameSiteCookie> {
        spec_samesite(response)
    }

    fn parse(&self, response: &Response) -> (r: Option<SameSiteCookie>) {
        match response.header("set-cookie") {
            Some(v) => Self::get_samesite_cookie(v.as_str()),
            None => None,
        }
    }
}

/// The SameSite parse round-trips: a header value that is exactly
/// `SameSite=` followed by a policy's spelling parses to that policy.
pub proof fn lemma_samesite_roundtrip(v: SameSiteCookie)
    ensures
        samesite_scan("SameSite="@ + samesite_name(v), 0) == Some(v),
{
    reveal_strlit("SameSite=");
    reveal_strlit("samesite");
    reveal_strlit("Strict");
    reveal_strlit("Lax");
    reveal_strlit("None");
    let s = "SameSite="@ + samesite_name(v);
    crate::text::lemma_lower_char_upper('S', 's');
    assert(matches_ci_at(s, 0, "samesite"@));
    assert(s[8] == '=');
    match v {
        SameSiteCookie::NoneValue => {
            assert(!matches_at(s, 9, "Strict"@)) by {
                assert(s[9int + 0] == 'N' && "Strict"@[0] == 'S');
            }
            assert(!matches_at(s, 9, "Lax"@)) by {
                assert(s[9int + 0] == 'N' && "Lax"@[0] == 'L');
            }
            assert(matches_at(s, 9, "None"@));
        },
        SameSiteCookie::Lax => {
            assert(!matches_at(s, 9, "Strict"@)) by {
                assert(s[9int + 0] == 'L' && "Strict"@[0] == 'S');
            }
            assert(matches_at(s, 9, "Lax"@));
        },
        SameSiteCookie::Strict => {
            assert(matches_at(s, 9, "Strict"@));
        },
    }
    assert(samesite_at(s, 0) == Some(v));
}

/// The scan never invents a policy: whatever it returns is announced by a
/// `SameSite=` attribute somewhere in the value.
pub proof fn lemma_samesite_scan_sound(s: Seq<char>, p: int, v: SameSiteCookie)
    requires
        0 <= p <= s.len(),
        samesite_scan(s, p) == Some(v),
    ensures
        exists|q: int| p <= q < s.len() && samesite_at(s, q) == Some(v),
    decreases s.len() - p,
{
    if samesite_at(s, p) is Some {
        assert(samesite_at(s, p) == Some(v));
    } else {
        lemma_samesite_scan_sound(s, p + 1, v);
    }
}

/// Absence of the attribute yields no value: when no position announces a
/// policy, the scan reports nothing rather than a default.
pub proof fn lemma_samesite_absent(s: Seq<char>, p: int)
    requires
        0 <= p <= s.len(),
        forall|q: int| 0 <= q < s.len() ==> samesite_at(s, q) is None,
    ensures
        samesite_scan(s, p) is None,
    decreases s.len() - p,
{
    if p < s.len() {
        lemma_samesite_absent(s, p + 1);
    }
}

} // verus!
