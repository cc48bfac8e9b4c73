use csrf_scan::session::{SessionCookie, SessionCookieParser};
use csrf_scan::shared_kernel::{Body, Request, RequestParser};

fn request_with_headers(headers: Vec<(String, String)>) -> Request {
    Request {
        method: String::from("POST"),
        url: String::from("https://example.com/change-email"),
        headers,
        body: Body::Text(String::new()),
    }
}

#[test]
fn find_session_cookie() {
    let request = request_with_headers(vec![(
        String::from("Cookie"),
        String::from("JSESSIONID=1234sess==&username=hello"),
    )]);

    assert_eq!(
        SessionCookieParser.parse(&request),
        Some(SessionCookie::new("1234sess=="))
    );
}

#[test]
fn find_session_cookie2() {
    let request = request_with_headers(vec![(
        String::from("Cookie"),
        String::from("ASP.NET_SessionId=1234sess=="),
    )]);

    assert_eq!(
        SessionCookieParser.parse(&request),
        Some(SessionCookie::new("1234sess=="))
    );
}

#[test]
fn find_session_cookie_does_not_exist() {
    let request =
        request_with_headers(vec![(String::from("Cookie"), String::from("username=hello"))]);

    assert_eq!(SessionCookieParser.parse(&request), None);
}

#[test]
fn find_session_cookie_no_cookies() {
    let request = request_with_headers(vec![]);

    assert_eq!(SessionCookieParser.parse(&request), None);
}

#[test]
fn session_value_is_lowercased() {
    let request = request_with_headers(vec![(
        String::from("Cookie"),
        String::from("PHPSESSID=AbC123"),
    )]);

    assert_eq!(
        SessionCookieParser.parse(&request),
        Some(SessionCookie::new("abc123"))
    );
}

#[test]
fn session_name_inside_longer_word_does_not_match() {
    let request = request_with_headers(vec![(
        String::from("Cookie"),
        String::from("sessionid-like=value"),
    )]);

    // "session" is present but is not followed by `=`, and no other catalog
    // name completes anywhere.
    assert_eq!(SessionCookieParser.parse(&request), None);
}

#[test]
fn session_value_stops_at_ampersand() {
    let request = request_with_headers(vec![(
        String::from("Cookie"),
        String::from("other=1&sid=xyz&trailing=2"),
    )]);

    assert_eq!(
        SessionCookieParser.parse(&request),
        Some(SessionCookie::new("xyz"))
    );
}

#[test]
fn get_cookies_lowercases_the_header() {
    let request = request_with_headers(vec![(
        String::from("cookie"),
        String::from("JSESSIONID=ABC"),
    )]);

    assert_eq!(
        SessionCookieParser::get_cookies(&request),
        String::from("jsessionid=abc")
    );
}
