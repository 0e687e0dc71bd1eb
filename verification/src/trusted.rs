//! The calls into std and into outside crates whose behaviour this library
//! relies on without proving it. Each contract below is trusted.

use vstd::prelude::*;
use vstd::string::StringSliceAdditionalSpecFns;
use vstd::utf8::{decode_utf8, valid_utf8};
use crate::request::{percent_decoded, RequestUrl, UrlParts};

verus! {

/// What `String::from_utf8_lossy` gives for `bytes`: the bytes decoded as UTF-8,
/// each invalid sequence replaced by U+FFFD.
pub uninterp spec fn utf8_lossy(bytes: Seq<u8>) -> Seq<char>;

/// The text that `std::str::Utf8Error`'s `Display` gives for the error that
/// `std::str::from_utf8` reports on `bytes`.
pub uninterp spec fn utf8_error_text(bytes: Seq<u8>) -> Seq<char>;

/// What `url::Url::parse` gives for `input`: on success the parsed URL's scheme,
/// host, path and serialization; on failure the `Display` text of the error.
pub uninterp spec fn url_parse(input: Seq<char>) -> Result<UrlParts, Seq<char>>;

/// Calls `percent_encoding::percent_decode_str`, collecting the decoded bytes.
/// Trusted: the crate's iterator yields each `%` followed by two hexadecimal
/// digits as the byte they spell, and every other byte unchanged, as
/// `percent_decoded` states.
#[verifier::external_body]
pub(crate) fn percent_decode_bytes(input: &str) -> (res: Vec<u8>)
    ensures
        res@ == percent_decoded(input.spec_bytes()),
{
    percent_encoding::percent_decode_str(input).collect()
}

/// Calls `String::from_utf8_lossy` (which is what `PercentDecode::decode_utf8_lossy`
/// does on the decoded bytes). Trusted: the result is `utf8_lossy(bytes)`, and
/// valid UTF-8 comes back decoded unchanged.
#[verifier::external_body]
pub(crate) fn lossy_utf8_text(bytes: &[u8]) -> (res: String)
    ensures
        res@ == utf8_lossy(bytes@),
        valid_utf8(bytes@) ==> res@ == decode_utf8(bytes@),
{
    String::from_utf8_lossy(bytes).into_owned()
}

/// Calls `std::str::from_utf8`. Trusted: it succeeds exactly on valid UTF-8,
/// handing back a string with those bytes; on failure the error's text is
/// `utf8_error_text(bytes)`.
#[verifier::external_body]
pub(crate) fn str_from_utf8(bytes: &[u8]) -> (res: Result<&str, String>)
    ensures
        match res {
            Ok(s) => valid_utf8(bytes@) && s.spec_bytes() == bytes@,
            Err(e) => !valid_utf8(bytes@) && e@ == utf8_error_text(bytes@),
        },
{
    match core::str::from_utf8(bytes) {
        Ok(s) => Ok(s),
        Err(e) => Err(e.to_string()),
    }
}

/// Calls `url::Url::parse` and copies out the scheme, host, path and
/// serialization of the parsed URL. Trusted: the outcome is `url_parse(input)`,
/// which depends on the input alone (no base URL, no syntax-violation callback).
#[verifier::external_body]
pub(crate) fn parse_url(input: &str) -> (res: Result<RequestUrl, String>)
    ensures
        match res {
            Ok(u) => url_parse(input@) == Ok::<UrlParts, Seq<char>>(u@),
            Err(e) => url_parse(input@) == Err::<UrlParts, Seq<char>>(e@),
        },
{
    match url::Url::parse(input) {
        Ok(u) => Ok(RequestUrl {
            scheme: u.scheme().to_string(),
            host: u.host_str().map(String::from),
            path: u.path().to_string(),
            text: u.as_str().to_string(),
        }),
        Err(e) => Err(e.to_string()),
    }
}

} // verus!
