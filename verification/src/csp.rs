//! The CSP signal detector: inspects a response's
//! `Content-Security-Policy` header for the `form-action` directive, the one
//! that can stop a forged cross-site form submission.
//!
//! A response without the header, or with a policy that never names
//! `form-action`, leaves forged submissions unrestricted. The detector is an
//! enrichment signal only; it does not change the baseline verdict.

use vstd::prelude::*;

use crate::shared_kernel::{header_value, Response, ResponseView};
use crate::text::{chars_of, lit_matches_ci_at, matches_ci_at};

verus! {

/// A response's posture towards forged form submissions.
#[derive(Debug, PartialEq, Eq, Structural, Clone, Copy)]
pub enum CspPosture {
    /// No policy, or one that never names `form-action`: a forged submission
    /// is not restrained.
    Permissive,
    /// The policy names `form-action`, so submission targets are restricted.
    RestrictsFormAction,
}

/// The position of the first case-insensitive `form-action` at or after `p`,
/// or the end of the text.
pub open spec fn form_action_pos(s: Seq<char>, p: int) -> int
    recommends
        0 <= p <= s.len(),
    decreases s.len() - p,
{
    if p >= s.len() {
        s.len() as int
    } else if matches_ci_at(s, p, "form-action"@) {
        p
    } else {
        form_action_pos(s, p + 1)
    }
}

/// Whether a policy text names the `form-action` directive.
pub open spec fn names_form_action(s: Seq<char>) -> bool {
    form_action_pos(s, 0) < s.len()
}

/// What the CSP detector reports for a response: restrictive exactly when a
/// `Content-Security-Policy` header is present and names `form-action`.
pub open spec fn spec_csp_posture(resp: ResponseView) -> CspPosture {
    match header_value(resp.headers, "content-security-policy"@) {
        Some(v) => if names_form_action(v) {
            CspPosture::RestrictsFormAction
        } else {
            CspPosture::Permissive
        },
        None => CspPosture::Permissive,
    }
}

/// The position of the first `form-action` at or after `p`, executable form.
fn form_action_pos_from(s: &Vec<char>, p: usize) -> (r: usize)
    requires
        p <= s@.len(),
    ensures
        r == form_action_pos(s@, p as int),
        p <= r <= s@.len(),
    decreases s@.len() - p,
{
    if p >= s.len() {
        s.len()
    } else if lit_matches_ci_at(s, p, "form-action") {
        p
    } else {
        form_action_pos_from(s, p + 1)
    }
}

/// The posture a response announces; `Permissive` when the header is absent.
pub fn inspect(response: &Response) -> (r: CspPosture)
    ensures
        r == spec_csp_posture(response@),
{
    match response.header("content-security-policy") {
        Some(v) => {
            let s = chars_of(v.as_str());
            let p = form_action_pos_from(&s, 0);
            if p < s.len() {
                CspPosture::RestrictsFormAction
            } else {
                CspPosture::Permissive
            }
        },
        None => CspPosture::Permissive,
    }
}

} // verus!
