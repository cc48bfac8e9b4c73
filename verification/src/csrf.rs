//! The vulnerability tester: composes the session signal and the token
//! search into one verdict. A request is reported vulnerable exactly when it
//! carries a recognized session cookie and no recognized CSRF token; the
//! finding snapshots the request's URL, method and body.

use vstd::prelude::*;

use crate::origin::spec_same_origin;
use crate::samesite::{spec_samesite, SameSiteCookie};
use crate::session::{spec_session_cookie, SessionCookie, SessionCookieParser};
use crate::shared_kernel::{
    Body, Request, RequestParser, RequestView, Response, ResponseParser, ResponseView,
};
use crate::token::{spec_csrf_token, CsrfToken, CsrfTokenParser};

verus! {

/// A finding: the parts of a vulnerable request an exploit needs.
#[derive(PartialEq, Debug, Clone)]
pub struct VulnerableRequest {
    pub url: String,
    pub method: String,
    pub body: String,
}

/// The mathematical model of a finding.
pub struct VulnerableRequestView {
    pub url: Seq<char>,
    pub method: Seq<char>,
    pub body: Seq<char>,
}

impl View for VulnerableRequest {
    type V = VulnerableRequestView;

    open spec fn view(&self) -> VulnerableRequestView {
        VulnerableRequestView { url: self.url@, method: self.method@, body: self.body@ }
    }
}

/// The finding a given request would yield: its URL, method and body,
/// verbatim.
pub open spec fn vulnerable_view(rq: RequestView) -> VulnerableRequestView {
    VulnerableRequestView { url: rq.url, method: rq.method, body: rq.body }
}

impl<'a> From<&'a Request> for VulnerableRequest {
    fn from(r: &'a Request) -> (v: Self) {
        Self {
            url: r.url.clone(),
            method: r.method.clone(),
            body: match &r.body {
                Body::Text(b) => b.clone(),
            },
        }
    }
}

impl<'a> vstd::std_specs::convert::FromSpecImpl<&'a Request> for VulnerableRequest {
    open spec fn obeys_from_spec() -> bool {
        true
    }

    open spec fn from_spec(r: &'a Request) -> VulnerableRequest {
        VulnerableRequest {
            url: r.url,
            method: r.method,
            body: match r.body {
                Body::Text(b) => b,
            },
        }
    }
}

/// The baseline verdict over the library's own detectors: a finding exactly
/// when a recognized session cookie is present and no recognized CSRF token
/// is, the finding copying the request's URL, method and body.
pub open spec fn spec_test_vulnerability(rq: RequestView) -> Option<VulnerableRequestView> {
    if spec_session_cookie(rq) is Some && spec_csrf_token(rq) is None {
        Some(vulnerable_view(rq))
    } else {
        None
    }
}

/// The vulnerability tester, composed from a session detector and a token
/// detector.
pub struct CsrfTester<S, C> where S: RequestParser<SessionCookie>, C: RequestParser<CsrfToken> {
    pub session: S,
    pub csrf_token: C,
}

impl<S, C> CsrfTester<S, C> where S: RequestParser<SessionCookie>, C: RequestParser<CsrfToken> {
    pub fn new(session: S, csrf_token: C) -> (r: Self)
        ensures
            r.session == session,
            r.csrf_token == csrf_token,
    {
        Self { session, csrf_token }
    }

    /// The verdict for one request: a finding exactly when the session
    /// detector reports a signal and the token detector reports none. With
    /// the library's own detectors this is exactly
    /// `spec_test_vulnerability`.
    pub fn test_vulnerability(&self, request: &Request) -> (r: Option<VulnerableRequest>)
        ensures
            r is Some <==> (self.session.spec_parse(request@) is Some
                && self.csrf_token.spec_parse(request@) is None),
            r matches Some(v) ==> v@ == vulnerable_view(request@),
    {
        if self.session.parse(request).is_none() {
            return None;
        }
        if self.csrf_token.parse(request).is_some() {
            return None;
        }
        Some(VulnerableRequest::from(request))
    }
}

/// The policy choices a caller may make about the enrichment signals. By
/// default neither signal flips a verdict; each stays an advisory
/// annotation, which is the conservative baseline.
pub struct TesterOptions {
    /// When set, a matching declared origin downgrades a finding: the
    /// application is taken to validate its `Origin`/`Referer` headers.
    pub decisive_origin_check: bool,
    /// When set, a `Strict` or `Lax` SameSite cookie in the paired response
    /// downgrades a finding: the browser would not attach the cookie
    /// cross-site.
    pub decisive_samesite_check: bool,
}

impl Default for TesterOptions {
    /// The conservative baseline: no enrichment signal is decisive.
    fn default() -> (r: Self)
        ensures
            !r.decisive_origin_check,
            !r.decisive_samesite_check,
    {
        TesterOptions { decisive_origin_check: false, decisive_samesite_check: false }
    }
}

/// Whether the paired response announces a SameSite policy that keeps the
/// session cookie off cross-site requests.
pub open spec fn spec_samesite_protects(resp: ResponseView) -> bool {
    spec_samesite(resp) == Some(SameSiteCookie::Strict) || spec_samesite(resp) == Some(
        SameSiteCookie::Lax,
    )
}

/// The verdict with the optional signals weighed in: a finding is withheld
/// where an option makes a protecting signal decisive. Without a response
/// the SameSite signal is unknown and never suppresses a finding.
pub open spec fn spec_test_with_signals(
    rq: RequestView,
    resp: Option<ResponseView>,
    opts: TesterOptions,
) -> Option<VulnerableRequestView> {
    match spec_test_vulnerability(rq) {
        Some(v) => {
            if opts.decisive_origin_check && spec_same_origin(rq) {
                None
            } else if opts.decisive_samesite_check && (resp matches Some(r)
                && spec_samesite_protects(r)) {
                None
            } else {
                Some(v)
            }
        },
        None => None,
    }
}

/// The verdict for one request and its optional paired response, under the
/// caller's policy choices; with the default options it is exactly the
/// baseline verdict.
pub fn test_with_signals(
    request: &Request,
    response: Option<&Response>,
    options: &TesterOptions,
) -> (r: Option<VulnerableRequest>)
    ensures
        r is Some <==> spec_test_with_signals(
            request@,
            match response {
                Some(resp) => Some(resp@),
                None => None,
            },
            *options,
        ) is Some,
        r matches Some(v) ==> v@ == vulnerable_view(request@),
{
    let tester = CsrfTester::new(SessionCookieParser, CsrfTokenParser::new());
    let baseline = tester.test_vulnerability(request);
    match baseline {
        Some(v) => {
            if options.decisive_origin_check && crate::origin::same_origin(request) {
                return None;
            }
            if options.decisive_samesite_check {
                if let Some(resp) = response {
                    let policy = crate::samesite::SameSiteParser::new().parse(resp);
                    if policy == Some(SameSiteCookie::Strict) || policy == Some(
                        SameSiteCookie::Lax,
                    ) {
                        return None;
                    }
                }
            }
            Some(v)
        },
        None => None,
    }
}

/// The conservative default: while no signal is made decisive, the enriched
/// verdict is exactly the baseline one, with or without a response.
pub proof fn lemma_default_options_keep_baseline(rq: RequestView, resp: Option<ResponseView>)
    ensures
        spec_test_with_signals(
            rq,
            resp,
            TesterOptions { decisive_origin_check: false, decisive_samesite_check: false },
        ) == spec_test_vulnerability(rq),
{
}

/// A request without a recognized session cookie is never reported, whatever
/// its body and headers hold.
pub proof fn lemma_unauthenticated_never_vulnerable(rq: RequestView)
    requires
        spec_session_cookie(rq) is None,
    ensures
        spec_test_vulnerability(rq) is None,
{
}

/// A request with a recognized session cookie and no recognized token is
/// reported, and the finding carries the request's URL, method and body
/// verbatim.
pub proof fn lemma_unprotected_session_vulnerable(rq: RequestView)
    requires
        spec_session_cookie(rq) is Some,
        spec_csrf_token(rq) is None,
    ensures
        spec_test_vulnerability(rq) matches Some(v) && v.url == rq.url && v.method == rq.method
            && v.body == rq.body,
{
}

/// A request with a recognized session cookie that also carries a recognized
/// token is never reported.
pub proof fn lemma_token_suppresses_finding(rq: RequestView)
    requires
        spec_session_cookie(rq) is Some,
        spec_csrf_token(rq) is Some,
    ensures
        spec_test_vulnerability(rq) is None,
{
}

} // verus!
