use csrf_scan::csrf::{CsrfTester, VulnerableRequest};
use csrf_scan::session::{SessionCookie, SessionCookieParser};
use csrf_scan::shared_kernel::{Body, Request, RequestParser};
use csrf_scan::token::{CsrfToken, CsrfTokenParser};

#[derive(Clone)]
pub struct MockParser {
    session: fn() -> Option<SessionCookie>,
    csrf_token: fn() -> Option<CsrfToken>,
}

impl RequestParser<SessionCookie> for MockParser {
    fn parse(&self, _: &Request) -> Option<SessionCookie> {
        (self.session)()
    }
}

impl RequestParser<CsrfToken> for MockParser {
    fn parse(&self, _: &Request) -> Option<CsrfToken> {
        (self.csrf_token)()
    }
}

fn empty_post() -> Request {
    Request {
        method: String::from("POST"),
        url: String::from("https://example.com/change-email"),
        headers: vec![],
        body: Body::Text(String::new()),
    }
}

#[test]
fn not_vulnerable_if_no_session_cookies() {
    let mock: MockParser = MockParser { session: || None, csrf_token: || None };
    let tester = CsrfTester::new(mock.clone(), mock.clone());

    let request = empty_post();

    assert_eq!(tester.test_vulnerability(&request), None);
}

#[test]
fn vulnerable_if_session_cookie_and_no_csrf_token() {
    let mock = MockParser {
        session: || Some(SessionCookie::new("a-session")),
        csrf_token: || None,
    };
    let tester = CsrfTester::new(mock.clone(), mock.clone());

    let request = empty_post();

    assert_eq!(
        tester.test_vulnerability(&request),
        Some(VulnerableRequest {
            url: String::from("https://example.com/change-email"),
            method: String::from("POST"),
            body: String::new(),
        })
    );
}

fn real_tester() -> CsrfTester<SessionCookieParser, CsrfTokenParser> {
    CsrfTester::new(SessionCookieParser, CsrfTokenParser::new())
}

fn change_email_request(headers: Vec<(String, String)>, body: &str) -> Request {
    Request {
        method: String::from("POST"),
        url: String::from("https://example.com/change-email"),
        headers,
        body: Body::Text(String::from(body)),
    }
}

#[test]
fn session_without_token_is_vulnerable() {
    let request = change_email_request(
        vec![(String::from("Cookie"), String::from("JSESSIONID=abc123"))],
        "email=x@y.com",
    );

    assert_eq!(
        real_tester().test_vulnerability(&request),
        Some(VulnerableRequest {
            url: String::from("https://example.com/change-email"),
            method: String::from("POST"),
            body: String::from("email=x@y.com"),
        })
    );
}

#[test]
fn token_header_suppresses_finding() {
    let request = change_email_request(
        vec![
            (String::from("Cookie"), String::from("JSESSIONID=abc123")),
            (String::from("X-CSRF-TOKEN"), String::from("tok1")),
        ],
        "email=x@y.com",
    );

    assert_eq!(real_tester().test_vulnerability(&request), None);
}

#[test]
fn token_in_body_suppresses_finding() {
    let request = change_email_request(
        vec![(String::from("Cookie"), String::from("JSESSIONID=abc123"))],
        "csrf_token=tok1&email=x@y.com",
    );

    assert_eq!(real_tester().test_vulnerability(&request), None);
}

#[test]
fn no_cookie_header_is_never_vulnerable() {
    let request = change_email_request(vec![], "email=x@y.com");

    assert_eq!(real_tester().test_vulnerability(&request), None);
}

#[test]
fn either_token_header_alone_suffices() {
    for header in ["X-XSRF-TOKEN", "X-CSRF-TOKEN"] {
        let request = change_email_request(
            vec![
                (String::from("Cookie"), String::from("JSESSIONID=abc123")),
                (String::from(header), String::from("tok1")),
            ],
            "email=x@y.com",
        );

        assert_eq!(real_tester().test_vulnerability(&request), None);
    }
}

use csrf_scan::csrf::{test_with_signals, TesterOptions};
use csrf_scan::shared_kernel::Response;

fn protecting_response() -> Response {
    Response {
        status: 200,
        headers: vec![(String::from("Set-Cookie"), String::from("session=abc; SameSite=Strict"))],
        body: Body::Text(String::new()),
    }
}

fn bare_vulnerable_request() -> Request {
    change_email_request(
        vec![(String::from("Cookie"), String::from("JSESSIONID=abc123"))],
        "email=x@y.com",
    )
}

#[test]
fn default_options_keep_the_baseline_verdict() {
    let request = bare_vulnerable_request();
    let response = protecting_response();

    let verdict = test_with_signals(&request, Some(&response), &TesterOptions::default());

    assert!(verdict.is_some());
}

#[test]
fn decisive_samesite_downgrades_the_finding() {
    let request = bare_vulnerable_request();
    let response = protecting_response();
    let options =
        TesterOptions { decisive_origin_check: false, decisive_samesite_check: true };

    assert_eq!(test_with_signals(&request, Some(&response), &options), None);
}

#[test]
fn samesite_signal_needs_a_response_to_downgrade() {
    let request = bare_vulnerable_request();
    let options =
        TesterOptions { decisive_origin_check: false, decisive_samesite_check: true };

    assert!(test_with_signals(&request, None, &options).is_some());
}

#[test]
fn decisive_origin_downgrades_on_a_matching_origin() {
    let mut request = bare_vulnerable_request();
    request
        .headers
        .push((String::from("Origin"), String::from("https://example.com")));
    let options =
        TesterOptions { decisive_origin_check: true, decisive_samesite_check: false };

    assert_eq!(test_with_signals(&request, None, &options), None);
}

#[test]
fn decisive_origin_keeps_a_cross_site_finding() {
    let mut request = bare_vulnerable_request();
    request
        .headers
        .push((String::from("Origin"), String::from("https://evil.example.net")));
    let options =
        TesterOptions { decisive_origin_check: true, decisive_samesite_check: false };

    assert!(test_with_signals(&request, None, &options).is_some());
}
