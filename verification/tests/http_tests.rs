use csrf_scan::error::Error;
use csrf_scan::http::parse_request;

#[test]
fn can_read_raw_http_request() {
    let s = "POST /my-account/change-email?email=hello@test.net HTTP/1.1
Host: 0a9a00f1045d5c8f8154f20800a30003.web-security-academy.net
Cookie: session=N755ezqhJblYThHK4FcZekNusjF2k2lh
User-Agent: Mozilla/5.0 (Macintosh; Intel Mac OS X 10.15; rv:126.0) Gecko/20100101 Firefox/126.0
Accept: text/html,application/xhtml+xml,application/xml;q=0.9,image/avif,image/webp,*/*;q=0.8
Accept-Language: en-GB,en;q=0.5
Accept-Encoding: gzip, deflate, br
Referer: https://0a9a00f1045d5c8f8154f20800a30003.web-security-academy.net/my-account?id=wiener
Content-Type: application/x-www-form-urlencoded
Content-Length: 21
Origin: https://0a9a00f1045d5c8f8154f20800a30003.web-security-academy.net
Upgrade-Insecure-Requests: 1
Sec-Fetch-Dest: document
Sec-Fetch-Mode: navigate
Sec-Fetch-Site: same-origin
Sec-Fetch-User: ?1
Priority: u=1
Te: trailers

email=test%40test.net";
    assert!(parse_request(s).is_ok());
}

#[test]
fn truncated_request_is_an_error() {
    let r = parse_request("POST /change-email HTTP/1.1\r\nHost: example");
    assert!(matches!(r, Err(Error::Custom(_))));
}

#[test]
fn error_wraps_a_message() {
    assert_eq!(
        Error::from(String::from("boom")),
        Error::Custom(String::from("boom"))
    );
}
