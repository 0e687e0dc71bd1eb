use zhuque::reply::{Auth, Permfail, Tempfail, WithErrorMessage};

#[test]
fn status_codes_of_each_kind() {
    assert_eq!(Tempfail::unspecified().build(""), "40\r\n");
    assert_eq!(Tempfail::server_unavailable().build(""), "41\r\n");
    assert_eq!(Tempfail::cgi_error().build(""), "42\r\n");
    assert_eq!(Tempfail::proxy_error().build(""), "43\r\n");
    assert_eq!(Tempfail::slow_down().build(""), "44\r\n");
    assert_eq!(Permfail::general().build(""), "50\r\n");
    assert_eq!(Permfail::not_found().build(""), "51\r\n");
    assert_eq!(Permfail::gone().build(""), "52\r\n");
    assert_eq!(Permfail::proxy_request_refused().build(""), "53\r\n");
    assert_eq!(Permfail::bad_request().build(""), "59\r\n");
    assert_eq!(Auth::client_certificates_required().build(""), "60\r\n");
    assert_eq!(Auth::certificate_not_authorized().build(""), "61\r\n");
    assert_eq!(Auth::certificate_not_valid().build(""), "62\r\n");
}

#[test]
fn decimal_codes_have_no_leading_zero() {
    assert_eq!(WithErrorMessage::<()>::new(0).build(""), "0\r\n");
    assert_eq!(WithErrorMessage::<()>::new(7).build("x"), "7 x\r\n");
    assert_eq!(WithErrorMessage::<()>::new(100).build(""), "100\r\n");
    assert_eq!(WithErrorMessage::<()>::new(1965).build("a b"), "1965 a b\r\n");
}

#[test]
fn clone_keeps_code() {
    let w = Permfail::bad_request();
    assert_eq!(w.clone().build("m"), "59 m\r\n");
}

#[test]
fn reply_message_is_kept_verbatim() {
    assert_eq!(Tempfail::unspecified().build("failed to read request: boom"), "40 failed to read request: boom\r\n");
}
