use csrf_scan::shared_kernel::{Body, Request, RequestParser};
use csrf_scan::token::{CsrfToken, CsrfTokenParser};

fn token_request(body_field: &str, header_name: &str) -> Request {
    Request {
        method: String::from("POST"),
        url: String::from("https://example.com/change-email"),
        headers: vec![
            (
                String::from("Content-Type"),
                String::from("application/x-www-form-urlencoded"),
            ),
            (String::from(header_name), String::from("1RANDOM_CSRF_TOKEN34==")),
        ],
        body: Body::Text(format!(
            "{}=1RANDOM_CSRF_TOKEN34==&email=test@hello.com",
            body_field
        )),
    }
}

fn expect_token(body_field: &str, header_name: &str) {
    let request = token_request(body_field, header_name);
    let result = CsrfTokenParser::new().parse(&request);
    assert_eq!(result, Some(CsrfToken::new("1RANDOM_CSRF_TOKEN34==")));
}

#[test]
fn test_with_header_xsrf() {
    expect_token("nothing", "X-XSRF-TOKEN");
}

#[test]
fn test_with_header_csrf() {
    expect_token("nothing", "X-CSRF-TOKEN");
}

#[test]
fn test_with_body_token() {
    expect_token("token", "UNUSED");
}

#[test]
fn test_with_body__token() {
    expect_token("_token", "UNUSED");
}

#[test]
fn test_with_body__csrf() {
    expect_token("_csrf", "UNUSED");
}

#[test]
fn test_with_body_xsrf_token() {
    expect_token("xsrf-token", "UNUSED");
}

#[test]
fn test_with_body_xsrf() {
    expect_token("xsrf", "UNUSED");
}

#[test]
fn test_with_body_token_cap() {
    expect_token("Token", "UNUSED");
}

#[test]
fn test_with_body_csrf_token() {
    expect_token("csrf_token", "UNUSED");
}

#[test]
fn test_with_body_csrf_token_cap() {
    expect_token("CsrfToken", "UNUSED");
}

#[test]
fn test_with_body_capitalized() {
    expect_token("CSRFToken", "UNUSED");
}

#[test]
fn test_with_body_authenticity() {
    expect_token("authenticity_token", "UNUSED");
}

#[test]
fn no_token_found() {
    let request = Request {
        method: String::from("POST"),
        url: String::from("https://example.com/change-email"),
        headers: vec![(
            String::from("Content-Type"),
            String::from("application/x-www-form-urlencoded"),
        )],
        body: Body::Text(String::from("email=test@hello.com")),
    };

    assert_eq!(CsrfTokenParser::new().parse(&request), None);
}

#[test]
fn body_match_takes_precedence_over_headers() {
    let request = Request {
        method: String::from("POST"),
        url: String::from("https://example.com/change-email"),
        headers: vec![(String::from("X-CSRF-TOKEN"), String::from("from-header"))],
        body: Body::Text(String::from("csrf_token=from-body")),
    };

    assert_eq!(
        CsrfTokenParser::new().parse(&request),
        Some(CsrfToken::new("from-body"))
    );
}

#[test]
fn header_lookup_is_case_insensitive() {
    let request = Request {
        method: String::from("POST"),
        url: String::from("https://example.com/change-email"),
        headers: vec![(String::from("x-xsrf-token"), String::from("tok1"))],
        body: Body::Text(String::new()),
    };

    assert_eq!(
        CsrfTokenParser::new().parse(&request),
        Some(CsrfToken::new("tok1"))
    );
}

#[test]
fn json_body_field_is_found() {
    let request = Request {
        method: String::from("POST"),
        url: String::from("https://example.com/change-email"),
        headers: vec![],
        body: Body::Text(String::from("{\"csrf_token\": \"abc-123\", \"email\": \"x@y.com\"}")),
    };

    assert_eq!(
        CsrfTokenParser::new().parse(&request),
        Some(CsrfToken::new("abc-123"))
    );
}

#[test]
fn specific_name_wins_over_bare_token_suffix() {
    let request = Request {
        method: String::from("POST"),
        url: String::from("https://example.com/change-email"),
        headers: vec![],
        body: Body::Text(String::from("csrf_token=whole")),
    };

    // The full `csrf_token` name must capture, not the bare `token` fallback
    // starting inside it.
    assert_eq!(
        CsrfTokenParser::new().parse(&request),
        Some(CsrfToken::new("whole"))
    );
}
