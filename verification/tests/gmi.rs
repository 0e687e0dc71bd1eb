use zhuque::reply::{Permfail, WithErrorMessage};
use zhuque::request::{parse_request_bytes, parse_request_url, GEMINI_SCHEME, REQUEST_MAX_BYTES, REQUEST_URI_MAX_BYTES};

#[test]
fn with_error_message_build_empty_and_nonempty() {
    let w = WithErrorMessage::<()>::new(42);
    assert_eq!(w.build(""), "42\r\n");

    let w2 = WithErrorMessage::<()>::new(99);
    assert_eq!(w2.build("oops"), "99 oops\r\n");
}

#[test]
fn parse_request_url_success() {
    let ok = parse_request_url("gemini://example.com/path\r\n").expect("should parse");
    assert_eq!(ok.scheme(), GEMINI_SCHEME);
    assert_eq!(ok.host_str(), Some("example.com"));
    assert_eq!(ok.path(), "/path");
}

#[test]
fn parse_request_url_rejects_invalid_requests() {
    let e = parse_request_url("gemini://example.com/path").unwrap_err();
    assert_eq!(e, "missing CRLF termination");

    let e = parse_request_url("gemini://example.com/path\r\nextra").unwrap_err();
    assert_eq!(e, "tailing data after CRLF termination");

    let e = parse_request_url("gemini://example.com/../etc\r\n").unwrap_err();
    assert_eq!(e, "request URL contains path traversal");

    let e = parse_request_url("gemini://example.com/foo/../etc\r\n").unwrap_err();
    assert_eq!(e, "request URL contains path traversal");

    let e =
        parse_request_url("gemini://example.com/foo/%2e%2e/%2e%2e/etc/passwd\r\n").unwrap_err();
    assert_eq!(e, "request URL contains path traversal");

    let e = parse_request_url("http://example.com/\r\n").unwrap_err();
    assert_eq!(e, "invalid URL scheme: http");

    let e = parse_request_url("not a URL\r\n").unwrap_err();
    assert!(e.starts_with("invalid request URL:"));
}

#[test]
fn parse_request_bytes_rejects_bad_requests() {
    let err = parse_request_bytes(&[], 0).unwrap_err();
    assert_eq!(err, Permfail::bad_request().build("empty request"));

    let too_long = [1u8; REQUEST_MAX_BYTES + 1];
    let err = parse_request_bytes(&too_long, too_long.len()).unwrap_err();
    assert_eq!(
        err,
        Permfail::bad_request().build("request exceeds maximum length")
    );

    let buf = [0xffu8];
    let err = parse_request_bytes(&buf, 1).unwrap_err();
    assert!(err.contains("not utf-8 request:"));

    let err = parse_request_bytes(b"not a URL\r\n", 11).unwrap_err();
    assert!(err.starts_with("59 invalid request URL:"));
}

#[test]
fn parse_request_bytes_accepts_valid_and_exactly_max_length_requests() {
    let req = b"gemini://host/hello\r\n";
    let url = parse_request_bytes(req, req.len()).expect("valid URL");
    assert_eq!(url.scheme(), "gemini");
    assert_eq!(url.host_str(), Some("host"));
    assert_eq!(url.path(), "/hello");

    let mut long_req = b"gemini://host/".to_vec();
    long_req.extend(vec![b'a'; REQUEST_URI_MAX_BYTES - long_req.len()]);
    long_req.extend(b"\r\n");
    assert_eq!(long_req.len(), REQUEST_MAX_BYTES);
    let url = parse_request_bytes(&long_req, long_req.len()).expect("valid URL");
    assert_eq!(url.scheme(), "gemini");
}
