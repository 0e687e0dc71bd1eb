use zhuque::request::{is_path_traversal, parse_request_bytes, parse_request_url, same_text};

#[test]
fn traversal_found_in_plain_and_encoded_forms() {
    assert!(is_path_traversal("gemini://h/a/../b"));
    assert!(is_path_traversal("gemini://h/%2E%2E/b"));
    assert!(is_path_traversal("gemini://h/.%2e"));
    assert!(is_path_traversal(".."));
    assert!(!is_path_traversal("gemini://h/a..b/c"));
    assert!(!is_path_traversal("gemini://h/.../c"));
    assert!(!is_path_traversal("gemini://h/%2e/c"));
    assert!(!is_path_traversal("gemini://h/%2g%2e/c"));
}

#[test]
fn traversal_check_survives_invalid_utf8_after_decoding() {
    assert!(!is_path_traversal("gemini://h/%ff/x"));
    assert!(is_path_traversal("gemini://h/%ff/../x"));
}

#[test]
fn every_refusal_is_a_bad_request_reply() {
    for req in [
        &b""[..],
        b"gemini://h/x",
        b"gemini://h/x\r\nmore",
        b"gemini://h/../x\r\n",
        b"http://h/\r\n",
        b"::\r\n",
        b"\xff\r\n",
    ] {
        if let Err(e) = parse_request_bytes(req, req.len()) {
            assert!(e.starts_with("59 "), "{e}");
            assert!(e.ends_with("\r\n"), "{e}");
        } else {
            panic!("accepted {:?}", req);
        }
    }
}

#[test]
fn size_beyond_limit_is_refused_before_reading() {
    let buf = [b'a'; 4];
    let e = parse_request_bytes(&buf, 1027).unwrap_err();
    assert_eq!(e, "59 request exceeds maximum length\r\n");
}

#[test]
fn only_the_first_size_bytes_are_read() {
    let buf = b"gemini://host/a\r\nGARBAGE";
    let url = parse_request_bytes(buf, 17).unwrap();
    assert_eq!(url.path(), "/a");
    assert_eq!(url.as_str(), "gemini://host/a");
}

#[test]
fn utf8_error_text_is_reported() {
    let e = parse_request_bytes(&[0xff], 1).unwrap_err();
    assert_eq!(e, "59 not utf-8 request: invalid utf-8 sequence of 1 bytes from index 0\r\n");
}

#[test]
fn scheme_is_compared_after_parsing() {
    let url = parse_request_url("GEMINI://Host/P\r\n").unwrap();
    assert_eq!(url.scheme(), "gemini");
    // A gemini host is opaque to the URL parser and keeps its case.
    assert_eq!(url.host_str(), Some("Host"));
}

#[test]
fn crlf_must_end_the_request() {
    assert_eq!(parse_request_url("\r\n\r\n").unwrap_err(), "tailing data after CRLF termination");
    assert_eq!(parse_request_url("a\rb\n").unwrap_err(), "missing CRLF termination");
}

#[test]
fn same_text_compares_content() {
    assert!(same_text("gemini", "gemini"));
    assert!(!same_text("gemini", "gemin"));
    assert!(!same_text("é", "e"));
}
