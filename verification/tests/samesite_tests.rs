use csrf_scan::samesite::{SameSiteCookie, SameSiteParser};
use csrf_scan::shared_kernel::{Body, Response, ResponseParser};

fn response_with_set_cookie(value: &str) -> Response {
    Response {
        status: 200,
        headers: vec![(String::from("Set-Cookie"), String::from(value))],
        body: Body::Text(String::new()),
    }
}

#[test]
fn fuzzer_keyword_in_headers() {
    let response = response_with_set_cookie(
        "JSESSIONID=7699A0931EC31829B895BB9C9D5421C1; HttpOnly; SameSite=Strict",
    );

    let cookie = SameSiteParser::new().parse(&response);

    assert_eq!(cookie, Some(SameSiteCookie::Strict));
}

#[test]
fn samesite_strict_round_trips() {
    let response = response_with_set_cookie("session=abc; SameSite=Strict");
    assert_eq!(SameSiteParser::new().parse(&response), Some(SameSiteCookie::Strict));
}

#[test]
fn samesite_lax_round_trips() {
    let response = response_with_set_cookie("session=abc; SameSite=Lax");
    assert_eq!(SameSiteParser::new().parse(&response), Some(SameSiteCookie::Lax));
}

#[test]
fn samesite_none_round_trips() {
    let response = response_with_set_cookie("session=abc; SameSite=None");
    assert_eq!(SameSiteParser::new().parse(&response), Some(SameSiteCookie::NoneValue));
}

#[test]
fn absent_attribute_yields_no_value() {
    let response = response_with_set_cookie("session=abc; HttpOnly");
    assert_eq!(SameSiteParser::new().parse(&response), None);
}

#[test]
fn absent_header_yields_no_value() {
    let response = Response { status: 200, headers: vec![], body: Body::Text(String::new()) };
    assert_eq!(SameSiteParser::new().parse(&response), None);
}

#[test]
fn value_is_case_sensitive() {
    let response = response_with_set_cookie("session=abc; SameSite=strict");
    assert_eq!(SameSiteParser::new().parse(&response), None);
}

#[test]
fn from_str_maps_exact_names() {
    assert_eq!(SameSiteCookie::from_str("Strict"), Some(SameSiteCookie::Strict));
    assert_eq!(SameSiteCookie::from_str("Lax"), Some(SameSiteCookie::Lax));
    assert_eq!(SameSiteCookie::from_str("None"), Some(SameSiteCookie::NoneValue));
    assert_eq!(SameSiteCookie::from_str("lax"), None);
    assert_eq!(SameSiteCookie::from_str(""), None);
}

#[test]
fn scan_passes_over_an_unrecognized_value() {
    assert_eq!(
        SameSiteParser::get_samesite_cookie("x; SameSite=foo; SameSite=Lax"),
        Some(SameSiteCookie::Lax)
    );
}
