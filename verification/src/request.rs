//! Reading a Gemini request: a URL of at most 1024 bytes followed by CRLF.

use vstd::prelude::*;
use vstd::string::StringSliceAdditionalSpecFns;
use vstd::utf8::{
    decode_utf8, decode_utf8_encode_utf8, encode_utf8, encode_utf8_decode_utf8, encode_utf8_valid_utf8,
    is_char_boundary, is_char_boundary_iff_not_is_continuation_byte, valid_utf8,
};
use crate::path::{has_parent_dir, has_parent_dir_component};
use crate::reply::{reply_text, Permfail};
use crate::trusted::{
    lossy_utf8_text, parse_url, percent_decode_bytes, str_from_utf8, url_parse, utf8_error_text,
    utf8_lossy,
};

verus! {

/// The longest request URL, in bytes.
pub const REQUEST_URI_MAX_BYTES: usize = 1024;

/// The longest request: the URL and its CRLF.
pub const REQUEST_MAX_BYTES: usize = REQUEST_URI_MAX_BYTES + 2;

/// The only scheme this server answers.
pub const GEMINI_SCHEME: &'static str = "gemini";

/// The byte of carriage return.
pub const CR: u8 = 13;

/// The byte of line feed.
pub const LF: u8 = 10;

/// The byte of `%`.
pub const PERCENT: u8 = 37;

/// Whether `b` is an ASCII hexadecimal digit.
pub open spec fn is_hex_digit(b: u8) -> bool {
    (48 <= b <= 57) || (65 <= b <= 70) || (97 <= b <= 102)
}

/// The value of the hexadecimal digit `b`.
pub open spec fn hex_value(b: u8) -> int {
    if 48 <= b <= 57 {
        b - 48
    } else if 65 <= b <= 70 {
        b - 55
    } else {
        b - 87
    }
}

/// Percent-decoding: each `%` followed by two hexadecimal digits becomes the
/// byte they spell; every other byte stays as it is.
pub open spec fn percent_decoded(b: Seq<u8>) -> Seq<u8>
    decreases b.len(),
{
    if b.len() == 0 {
        seq![]
    } else if b[0] == PERCENT && b.len() >= 3 && is_hex_digit(b[1]) && is_hex_digit(b[2]) {
        seq![(hex_value(b[1]) * 16 + hex_value(b[2])) as u8] + percent_decoded(b.skip(3))
    } else {
        seq![b[0]] + percent_decoded(b.skip(1))
    }
}

/// A request URL's scheme, host, path and serialization.
pub type UrlParts = (Seq<char>, Option<Seq<char>>, Seq<char>, Seq<char>);

/// A parsed request URL.
#[derive(Debug)]
pub struct RequestUrl {
    pub(crate) scheme: String,
    pub(crate) host: Option<String>,
    pub(crate) path: String,
    pub(crate) text: String,
}

/// The view of an optional string.
pub open spec fn opt_text(o: Option<String>) -> Option<Seq<char>> {
    match o {
        Some(s) => Some(s@),
        None => None,
    }
}

impl View for RequestUrl {
    type V = UrlParts;

    closed spec fn view(&self) -> UrlParts {
        (self.scheme@, opt_text(self.host), self.path@, self.text@)
    }
}

impl RequestUrl {
    /// The URL's scheme, in lower case.
    pub fn scheme(&self) -> (s: &str)
        ensures
            s@ == self@.0,
    {
        self.scheme.as_str()
    }

    /// The URL's host, if it has one.
    pub fn host_str(&self) -> (h: Option<&str>)
        ensures
            match h {
                Some(t) => self@.1 == Some(t@),
                None => self@.1 is None,
            },
    {
        match &self.host {
            Some(h) => Some(h.as_str()),
            None => None,
        }
    }

    /// The URL's path.
    pub fn path(&self) -> (p: &str)
        ensures
            p@ == self@.2,
    {
        self.path.as_str()
    }

    /// The whole URL, serialized.
    pub fn as_str(&self) -> (t: &str)
        ensures
            t@ == self@.3,
    {
        self.text.as_str()
    }
}

/// Whether the request URL `path`, once percent-decoded and read as UTF-8
/// (lossily), holds a `..` path component.
pub open spec fn is_traversal(path: Seq<u8>) -> bool {
    has_parent_dir(encode_utf8(utf8_lossy(percent_decoded(path))))
}

/// Whether the request URL `path` holds a `..` component once percent-decoded.
pub fn is_path_traversal(path: &str) -> (r: bool)
    ensures
        r == is_traversal(path.spec_bytes()),
        valid_utf8(percent_decoded(path.spec_bytes())) ==> r == has_parent_dir(
            percent_decoded(path.spec_bytes()),
        ),
{
    let decoded = percent_decode_bytes(path);
    let text = lossy_utf8_text(decoded.as_slice());
    proof {
        if valid_utf8(decoded@) {
            decode_utf8_encode_utf8(decoded@);
        }
    }
    has_parent_dir_component(text.as_str().as_bytes())
}

/// The first position `i >= from` at which `b` holds CR followed by LF.
pub open spec fn crlf_from(b: Seq<u8>, from: int) -> Option<int>
    decreases b.len() - from,
{
    if from < 0 || from + 1 >= b.len() {
        None
    } else if b[from] == CR && b[from + 1] == LF {
        Some(from)
    } else {
        crlf_from(b, from + 1)
    }
}

/// The outcome of reading the request whose bytes are `req`: the parsed URL, or
/// the reason it was refused.
pub open spec fn url_request_outcome(req: Seq<u8>) -> Result<UrlParts, Seq<char>> {
    match crlf_from(req, 0) {
        None => Err("missing CRLF termination"@),
        Some(p) => if p + 2 < req.len() {
            Err("tailing data after CRLF termination"@)
        } else if is_traversal(req.take(p)) {
            Err("request URL contains path traversal"@)
        } else {
            match url_parse(decode_utf8(req.take(p))) {
                Ok(parts) => if parts.0 == GEMINI_SCHEME@ {
                    Ok(parts)
                } else {
                    Err("invalid URL scheme: "@ + parts.0)
                },
                Err(e) => Err("invalid request URL: "@ + e),
            }
        },
    }
}

/// Whether two strings hold the same text.
pub fn same_text(a: &str, b: &str) -> (r: bool)
    ensures
        r == (a@ == b@),
{
    let x = a.as_bytes();
    let y = b.as_bytes();
    proof {
        encode_utf8_decode_utf8(a@);
        encode_utf8_decode_utf8(b@);
    }
    if x.len() != y.len() {
        assert(x@ != y@);
        return false;
    }
    let mut i: usize = 0;
    while i < x.len()
        invariant
            x@.len() == y@.len(),
            decode_utf8(x@) == a@,
            decode_utf8(y@) == b@,
            x@ == encode_utf8(a@),
            y@ == encode_utf8(b@),
            i <= x@.len(),
            forall|k: int| 0 <= k < i ==> x@[k] == y@[k],
        decreases x@.len() - i,
    {
        if x[i] != y[i] {
            assert(x@ != y@);
            return false;
        }
        i = i + 1;
    }
    assert(x@ =~= y@);
    true
}

/// Reads a request: the URL must be followed by CRLF and nothing after it,
/// must hold no `..` path component once percent-decoded, must parse, and must
/// use the `gemini` scheme.
pub fn parse_request_url(request: &str) -> (res: Result<RequestUrl, String>)
    ensures
        match res {
            Ok(u) => url_request_outcome(request.spec_bytes()) == Ok::<UrlParts, Seq<char>>(u@),
            Err(e) => url_request_outcome(request.spec_bytes()) == Err::<UrlParts, Seq<char>>(e@),
        },
        res matches Ok(u) ==> request.spec_bytes().len() >= 2 && u@.0 == GEMINI_SCHEME@
            && url_parse(decode_utf8(request.spec_bytes().take(request.spec_bytes().len() - 2)))
            == Ok::<UrlParts, Seq<char>>(u@),
{
    let bytes = request.as_bytes();
    let n = bytes.len();
    let ghost b = bytes@;
    let mut i: usize = 0;
    while n > 0 && i < n - 1 && !(bytes[i] == CR && bytes[i + 1] == LF)
        invariant
            n == b.len(),
            i <= n,
            b == bytes@,
            crlf_from(b, 0) == crlf_from(b, i as int),
        decreases n - i,
    {
        i = i + 1;
    }
    if n == 0 || i >= n - 1 {
        return Err(String::from_str("missing CRLF termination"));
    }
    assert(crlf_from(b, 0) == Some(i as int));
    if i + 2 < n {
        return Err(String::from_str("tailing data after CRLF termination"));
    }
    proof {
        encode_utf8_valid_utf8(request@);
        is_char_boundary_iff_not_is_continuation_byte(b, i as int);
    }
    let (target, _rest) = request.split_at(i);
    assert(target.spec_bytes() =~= b.take(i as int));
    proof {
        encode_utf8_decode_utf8(target@);
    }
    if is_path_traversal(target) {
        return Err(String::from_str("request URL contains path traversal"));
    }
    match parse_url(target) {
        Ok(u) => {
            if same_text(u.scheme(), GEMINI_SCHEME) {
                Ok(u)
            } else {
                let mut msg = String::from_str("invalid URL scheme: ");
                msg.append(u.scheme());
                Err(msg)
            }
        },
        Err(e) => {
            let mut msg = String::from_str("invalid request URL: ");
            msg.append(e.as_str());
            Err(msg)
        },
    }
}

/// The outcome of reading the first `size` bytes of a request buffer: the
/// parsed URL, or the reply header that refuses it (status 59).
pub open spec fn byte_request_outcome(buffer: Seq<u8>, size: nat) -> Result<UrlParts, Seq<char>> {
    if size == 0 {
        Err(reply_text(59, "empty request"@))
    } else if size > REQUEST_MAX_BYTES {
        Err(reply_text(59, "request exceeds maximum length"@))
    } else if !valid_utf8(buffer.take(size as int)) {
        Err(reply_text(59, "not utf-8 request: "@ + utf8_error_text(buffer.take(size as int))))
    } else {
        match url_request_outcome(buffer.take(size as int)) {
            Ok(parts) => Ok(parts),
            Err(e) => Err(reply_text(59, e)),
        }
    }
}

/// Reads the first `size` bytes of `buffer` as a request; a refusal comes back
/// as the reply header to send (status 59, bad request).
pub fn parse_request_bytes(buffer: &[u8], size: usize) -> (res: Result<RequestUrl, String>)
    requires
        0 < size <= REQUEST_MAX_BYTES ==> size <= buffer@.len(),
    ensures
        match res {
            Ok(u) => byte_request_outcome(buffer@, size as nat) == Ok::<UrlParts, Seq<char>>(u@),
            Err(e) => byte_request_outcome(buffer@, size as nat) == Err::<UrlParts, Seq<char>>(e@),
        },
        res matches Ok(u) ==> 2 <= size <= REQUEST_MAX_BYTES && u@.0 == GEMINI_SCHEME@
            && url_parse(decode_utf8(buffer@.take(size - 2))) == Ok::<UrlParts, Seq<char>>(u@),
{
    if size == 0 {
        return Err(Permfail::bad_request().build("empty request"));
    }
    if size > REQUEST_MAX_BYTES {
        return Err(Permfail::bad_request().build("request exceeds maximum length"));
    }
    let (head, _tail) = buffer.split_at(size);
    assert(head@ =~= buffer@.take(size as int));
    match str_from_utf8(head) {
        Err(e) => {
            let mut msg = String::from_str("not utf-8 request: ");
            msg.append(e.as_str());
            Err(Permfail::bad_request().build(msg.as_str()))
        },
        Ok(request) => match parse_request_url(request) {
            Ok(u) => {
                assert(request.spec_bytes().take(size - 2) =~= buffer@.take(size - 2));
                Ok(u)
            },
            Err(e) => Err(Permfail::bad_request().build(e.as_str())),
        },
    }
}

} // verus!
