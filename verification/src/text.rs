//! Character-level scanning helpers shared by the detectors: ASCII case
//! folding, whitespace runs, and literal matching at a position, each with a
//! spec-level model and a verified executable counterpart.

use vstd::prelude::*;

verus! {

/// An ASCII uppercase letter.
pub open spec fn is_upper(c: char) -> bool {
    'A' as u32 <= c as u32 && c as u32 <= 'Z' as u32
}

/// ASCII case folding of one character; other characters are unchanged.
pub open spec fn lower_char(c: char) -> char {
    if is_upper(c) {
        ((c as u32 + 32) as u32) as char
    } else {
        c
    }
}

/// ASCII case folding of a whole text.
pub open spec fn lower_seq(s: Seq<char>) -> Seq<char> {
    s.map_values(|c: char| lower_char(c))
}

/// ASCII whitespace, the characters the detectors skip around separators.
pub open spec fn is_ws(c: char) -> bool {
    c == ' ' || c == '\t' || c == '\n' || c == '\r' || c == '\u{b}' || c == '\u{c}'
}

/// `lit` occurs verbatim in `s` at position `p`.
pub open spec fn matches_at(s: Seq<char>, p: int, lit: Seq<char>) -> bool {
    &&& 0 <= p
    &&& p + lit.len() <= s.len()
    &&& forall|i: int| 0 <= i < lit.len() ==> s[p + i] == lit[i]
}

/// `lit` occurs at position `p` of `s` up to ASCII case.
pub open spec fn matches_ci_at(s: Seq<char>, p: int, lit: Seq<char>) -> bool {
    &&& 0 <= p
    &&& p + lit.len() <= s.len()
    &&& forall|i: int| 0 <= i < lit.len() ==> lower_char(s[p + i]) == lower_char(lit[i])
}

/// Two texts are equal up to ASCII case.
pub open spec fn eq_ci(a: Seq<char>, b: Seq<char>) -> bool {
    lower_seq(a) == lower_seq(b)
}

/// The index of the first non-whitespace character at or after `j`.
pub open spec fn skip_ws(s: Seq<char>, j: int) -> int
    recommends
        0 <= j <= s.len(),
    decreases s.len() - j,
{
    if j < s.len() && is_ws(s[j]) {
        skip_ws(s, j + 1)
    } else {
        j
    }
}

/// ASCII case folding of an uppercase letter is the letter 32 code points
/// up.
pub proof fn lemma_lower_char_upper(c: char, l: char)
    requires
        is_upper(c),
        l as u32 == c as u32 + 32,
    ensures
        lower_char(c) == l,
{
    vstd::utf8::char_u32_cast(l, (c as u32 + 32) as u32);
}

/// ASCII case folding, executable form.
pub fn to_lower_char(c: char) -> (r: char)
    ensures
        r == lower_char(c),
{
    let u = c as u32;
    if 'A' as u32 <= u && u <= 'Z' as u32 {
        let b = (c as u8) + 32;
        b as char
    } else {
        c
    }
}

/// Whitespace test, executable form.
pub fn is_ws_char(c: char) -> (r: bool)
    ensures
        r == is_ws(c),
{
    c == ' ' || c == '\t' || c == '\n' || c == '\r' || c == '\u{b}' || c == '\u{c}'
}

/// The characters of `s`, in order, as a vector.
pub fn chars_of(s: &str) -> (v: Vec<char>)
    ensures
        v@ == s@,
{
    let n = s.unicode_len();
    let mut v: Vec<char> = Vec::new();
    let mut i: usize = 0;
    while i < n
        invariant
            i <= n,
            n == s@.len(),
            v@ == s@.subrange(0, i as int),
        decreases n - i,
    {
        v.push(s.get_char(i));
        proof {
            assert(v@ =~= s@.subrange(0, i + 1));
        }
        i += 1;
    }
    proof {
        assert(v@ =~= s@);
    }
    v
}

/// Relies on std's `String::push`: appends exactly one character at the end.
#[verifier::external_body]
fn push_char(s: &mut String, c: char)
    ensures
        final(s)@ == old(s)@.push(c),
{
    s.push(c)
}

/// A fresh string holding the characters `s[from..to]`.
pub fn string_of_range(s: &Vec<char>, from: usize, to: usize) -> (r: String)
    requires
        from <= to <= s@.len(),
    ensures
        r@ == s@.subrange(from as int, to as int),
{
    let mut r = String::new();
    let mut i: usize = from;
    while i < to
        invariant
            from <= i <= to <= s@.len(),
            r@ == s@.subrange(from as int, i as int),
        decreases to - i,
    {
        push_char(&mut r, s[i]);
        proof {
            assert(r@ =~= s@.subrange(from as int, i + 1));
        }
        i += 1;
    }
    r
}

/// A fresh string holding the ASCII-lowercased characters of `s`.
pub fn lowercase_string(s: &str) -> (r: String)
    ensures
        r@ == lower_seq(s@),
{
    let n = s.unicode_len();
    let mut r = String::new();
    let mut i: usize = 0;
    while i < n
        invariant
            i <= n,
            n == s@.len(),
            r@ == lower_seq(s@).subrange(0, i as int),
        decreases n - i,
    {
        push_char(&mut r, to_lower_char(s.get_char(i)));
        proof {
            assert(r@ =~= lower_seq(s@).subrange(0, i + 1));
        }
        i += 1;
    }
    proof {
        assert(r@ =~= lower_seq(s@));
    }
    r
}

/// Whether `lit` occurs verbatim at position `p` of `s`, executable form.
pub fn lit_matches_at(s: &Vec<char>, p: usize, lit: &str) -> (r: bool)
    requires
        p <= s@.len(),
    ensures
        r == matches_at(s@, p as int, lit@),
{
    let n = lit.unicode_len();
    let sn = s.len();
    if sn - p < n {
        return false;
    }
    let mut i: usize = 0;
    while i < n
        invariant
            i <= n,
            n == lit@.len(),
            sn == s@.len(),
            p + n <= sn,
            forall|k: int| 0 <= k < i ==> s@[p + k] == lit@[k],
        decreases n - i,
    {
        if s[p + i] != lit.get_char(i) {
            return false;
        }
        i += 1;
    }
    true
}

/// Whether `lit` occurs at position `p` of `s` up to ASCII case, executable form.
pub fn lit_matches_ci_at(s: &Vec<char>, p: usize, lit: &str) -> (r: bool)
    requires
        p <= s@.len(),
    ensures
        r == matches_ci_at(s@, p as int, lit@),
{
    let n = lit.unicode_len();
    let sn = s.len();
    if sn - p < n {
        return false;
    }
    let mut i: usize = 0;
    while i < n
        invariant
            i <= n,
            n == lit@.len(),
            sn == s@.len(),
            p + n <= sn,
            forall|k: int| 0 <= k < i ==> lower_char(s@[p + k]) == lower_char(lit@[k]),
        decreases n - i,
    {
        if to_lower_char(s[p + i]) != to_lower_char(lit.get_char(i)) {
            return false;
        }
        i += 1;
    }
    true
}

/// Case-insensitive equality of two strings, executable form.
pub fn str_eq_ci(a: &str, b: &str) -> (r: bool)
    ensures
        r == eq_ci(a@, b@),
{
    let na = a.unicode_len();
    let nb = b.unicode_len();
    if na != nb {
        proof {
            assert(lower_seq(a@).len() != lower_seq(b@).len());
        }
        return false;
    }
    let mut i: usize = 0;
    while i < na
        invariant
            i <= na,
            na == a@.len(),
            na == b@.len(),
            forall|k: int| 0 <= k < i ==> lower_char(a@[k]) == lower_char(b@[k]),
        decreases na - i,
    {
        if to_lower_char(a.get_char(i)) != to_lower_char(b.get_char(i)) {
            proof {
                assert(lower_seq(a@)[i as int] != lower_seq(b@)[i as int]);
            }
            return false;
        }
        i += 1;
    }
    proof {
        assert(lower_seq(a@) =~= lower_seq(b@));
    }
    true
}

/// The index of the first non-whitespace character at or after `j`,
/// executable form.
pub fn skip_ws_from(s: &Vec<char>, j: usize) -> (r: usize)
    requires
        j <= s@.len(),
    ensures
        r == skip_ws(s@, j as int),
        j <= r <= s@.len(),
    decreases s@.len() - j,
{
    if j < s.len() && is_ws_char(s[j]) {
        skip_ws_from(s, j + 1)
    } else {
        j
    }
}

} // verus!
