//! Framing of Gemini reply headers: a status code, an optional message and CRLF.

use core::marker::PhantomData;
use vstd::prelude::*;

verus! {

/// The character of a decimal digit `d` (which must be below ten).
pub open spec fn digit_char(d: nat) -> char {
    (48 + d) as char
}

/// The decimal representation of `n`, most significant digit first, without leading zeros.
pub open spec fn decimal(n: nat) -> Seq<char>
    decreases n,
{
    if n < 10 {
        seq![digit_char(n)]
    } else {
        decimal(n / 10).push(digit_char(n % 10))
    }
}

/// The text of a reply header: the code in decimal, then a space and the message when
/// the message is not empty, then CRLF.
pub open spec fn reply_text(code: nat, msg: Seq<char>) -> Seq<char> {
    if msg.len() == 0 {
        decimal(code) + seq!['\r', '\n']
    } else {
        decimal(code) + seq![' '] + msg + seq!['\r', '\n']
    }
}

fn digit_str(d: usize) -> (s: &'static str)
    requires
        d < 10,
    ensures
        s@ == seq![digit_char(d as nat)],
{
    proof {
        reveal_strlit("0");
        reveal_strlit("1");
        reveal_strlit("2");
        reveal_strlit("3");
        reveal_strlit("4");
        reveal_strlit("5");
        reveal_strlit("6");
        reveal_strlit("7");
        reveal_strlit("8");
        reveal_strlit("9");
    }
    match d {
        0 => "0",
        1 => "1",
        2 => "2",
        3 => "3",
        4 => "4",
        5 => "5",
        6 => "6",
        7 => "7",
        8 => "8",
        _ => "9",
    }
}

/// Appends the decimal representation of `n` to `out`.
pub fn push_decimal(out: &mut String, n: usize)
    ensures
        final(out)@ == old(out)@ + decimal(n as nat),
    decreases n,
{
    if n >= 10 {
        push_decimal(out, n / 10);
        out.append(digit_str(n % 10));
        assert(decimal(n as nat) == decimal((n / 10) as nat).push(digit_char((n % 10) as nat)));
    } else {
        out.append(digit_str(n));
    }
}

/// A reply status of a kind `T` (temporary failure, permanent failure,
/// client certificate request), identified by its numeric code.
#[derive(Debug)]
pub struct WithErrorMessage<T> {
    pub code: usize,
    pub _marker: PhantomData<T>,
}

impl<T> WithErrorMessage<T> {
    /// A status with the given code.
    pub fn new(code: usize) -> (s: Self)
        ensures
            s.code == code,
    {
        WithErrorMessage { code, _marker: PhantomData }
    }

    /// The reply header for this status with the message `msg`:
    /// `"<code>\r\n"` when `msg` is empty, `"<code> <msg>\r\n"` otherwise.
    pub fn build(self, msg: &str) -> (r: String)
        ensures
            r@ == reply_text(self.code as nat, msg@),
    {
        let mut out = String::new();
        push_decimal(&mut out, self.code);
        if msg.is_empty() {
            out.append("\r\n");
        } else {
            out.append(" ");
            out.append(msg);
            out.append("\r\n");
        }
        proof {
            reveal_strlit("\r\n");
            reveal_strlit(" ");
        }
        out
    }
}

impl<T> Clone for WithErrorMessage<T> {
    fn clone(&self) -> (c: Self)
        ensures
            c.code == self.code,
    {
        WithErrorMessage::new(self.code)
    }
}

/// Marker for the temporary-failure statuses (4x).
#[derive(Debug)]
pub struct TemporaryFailure;

/// Temporary-failure statuses.
pub type Tempfail = WithErrorMessage<TemporaryFailure>;

impl WithErrorMessage<TemporaryFailure> {
    /// 40: temporary failure, no further detail.
    pub fn unspecified() -> (s: Self)
        ensures
            s.code == 40,
    {
        Self::new(40)
    }

    /// 41: the server is unavailable.
    pub fn server_unavailable() -> (s: Self)
        ensures
            s.code == 41,
    {
        Self::new(41)
    }

    /// 42: a CGI process failed.
    pub fn cgi_error() -> (s: Self)
        ensures
            s.code == 42,
    {
        Self::new(42)
    }

    /// 43: a proxy request failed.
    pub fn proxy_error() -> (s: Self)
        ensures
            s.code == 43,
    {
        Self::new(43)
    }

    /// 44: the client must slow down.
    pub fn slow_down() -> (s: Self)
        ensures
            s.code == 44,
    {
        Self::new(44)
    }
}

/// Marker for the permanent-failure statuses (5x).
#[derive(Debug)]
pub struct PermanentFailure;

/// Permanent-failure statuses.
pub type Permfail = WithErrorMessage<PermanentFailure>;

impl WithErrorMessage<PermanentFailure> {
    /// 50: permanent failure, no further detail.
    pub fn general() -> (s: Self)
        ensures
            s.code == 50,
    {
        Self::new(50)
    }

    /// 51: the resource was not found.
    pub fn not_found() -> (s: Self)
        ensures
            s.code == 51,
    {
        Self::new(51)
    }

    /// 52: the resource is gone for good.
    pub fn gone() -> (s: Self)
        ensures
            s.code == 52,
    {
        Self::new(52)
    }

    /// 53: the server refuses to proxy.
    pub fn proxy_request_refused() -> (s: Self)
        ensures
            s.code == 53,
    {
        Self::new(53)
    }

    /// 59: the request was malformed.
    pub fn bad_request() -> (s: Self)
        ensures
            s.code == 59,
    {
        Self::new(59)
    }
}

/// Marker for the client-certificate statuses (6x).
#[derive(Debug)]
pub struct ClientCertificates;

/// Client-certificate statuses.
pub type Auth = WithErrorMessage<ClientCertificates>;

impl WithErrorMessage<ClientCertificates> {
    /// 60: a client certificate is required.
    pub fn client_certificates_required() -> (s: Self)
        ensures
            s.code == 60,
    {
        Self::new(60)
    }

    /// 61: the certificate is not authorised.
    pub fn certificate_not_authorized() -> (s: Self)
        ensures
            s.code == 61,
    {
        Self::new(61)
    }

    /// 62: the certificate is not valid.
    pub fn certificate_not_valid() -> (s: Self)
        ensures
            s.code == 62,
    {
        Self::new(62)
    }
}

} // verus!
