//! Deciding what a request is answered with: which file under the capsule root,
//! whether it stays under the root, and which MIME type it is sent as.

use vstd::prelude::*;
use vstd::string::StringSliceAdditionalSpecFns;
use crate::path::{extension, extension_span, path_starts_with, starts_with_path};
use crate::reply::{reply_text, Permfail};

verus! {

/// The MIME type of Gemini documents.
pub const GEMINI_MIME: &'static str = "text/gemini";

/// The page served for a directory.
pub const INDEX_PAGE: &'static str = "index.gmi";

/// Joining `rel` onto `base`: an absolute `rel` replaces `base`; otherwise a
/// separator is put between them unless `base` is empty or already ends in one.
pub open spec fn join_path(base: Seq<char>, rel: Seq<char>) -> Seq<char> {
    if rel.len() > 0 && rel[0] == '/' {
        rel
    } else if base.len() == 0 || base.last() == '/' {
        base + rel
    } else {
        base + seq!['/'] + rel
    }
}

/// `s` without its leading `/` characters.
pub open spec fn trim_leading_slashes(s: Seq<char>) -> Seq<char>
    decreases s.len(),
{
    if s.len() > 0 && s[0] == '/' {
        trim_leading_slashes(s.drop_first())
    } else {
        s
    }
}

/// Joins `rel` onto `base` as a filesystem path.
pub fn join_path_text(base: &str, rel: &str) -> (r: String)
    ensures
        r@ == join_path(base@, rel@),
{
    proof {
        reveal_strlit("/");
    }
    let rl = rel.unicode_len();
    if rl > 0 && rel.get_char(0) == '/' {
        return String::from_str(rel);
    }
    let bl = base.unicode_len();
    let mut out = String::from_str(base);
    if !(bl == 0 || base.get_char(bl - 1) == '/') {
        out.append("/");
    }
    out.append(rel);
    out
}

/// `s` without its leading `/` characters.
pub fn trim_start_slashes(s: &str) -> (r: &str)
    ensures
        r@ == trim_leading_slashes(s@),
{
    let n = s.unicode_len();
    let mut i: usize = 0;
    assert(s@.skip(0) =~= s@);
    while i < n && s.get_char(i) == '/'
        invariant
            n == s@.len(),
            i <= n,
            trim_leading_slashes(s@) == trim_leading_slashes(s@.skip(i as int)),
        decreases n - i,
    {
        assert(s@.skip(i as int).drop_first() =~= s@.skip(i + 1));
        i = i + 1;
    }
    let r = s.substring_char(i, n);
    assert(r@ =~= s@.skip(i as int));
    r
}

/// The path of the file that a request for `url_path` names under `root`:
/// the index page when the path is empty, otherwise the path made relative.
pub fn requested_path(root: &str, index: &str, url_path: &str) -> (r: String)
    ensures
        r@ == join_path(
            root@,
            if url_path@.len() == 0 {
                index@
            } else {
                trim_leading_slashes(url_path@)
            },
        ),
{
    if url_path.is_empty() {
        join_path_text(root, index)
    } else {
        join_path_text(root, trim_start_slashes(url_path))
    }
}

/// The index page of the directory `path`.
pub fn directory_index(path: &str) -> (r: String)
    ensures
        r@ == join_path(path@, INDEX_PAGE@),
{
    join_path_text(path, INDEX_PAGE)
}

/// Decides what the canonical form of the requested path allows: the path itself
/// when it lies under `root` (component by component), a 50 reply when it lies
/// outside, a 51 reply when it could not be resolved (`None`).
pub fn confine_to_root(canonical: Option<&str>, root: &str) -> (res: Result<String, String>)
    ensures
        match res {
            Ok(p) => canonical is Some && p@ == canonical->0@ && path_starts_with(
                canonical->0.spec_bytes(),
                root.spec_bytes(),
            ),
            Err(e) => match canonical {
                None => e@ == reply_text(51, "target file not found"@),
                Some(c) => !path_starts_with(c.spec_bytes(), root.spec_bytes()) && e@
                    == reply_text(50, "path traversal outside root"@),
            },
        },
{
    match canonical {
        None => Err(Permfail::not_found().build("target file not found")),
        Some(p) => {
            if starts_with_path(p.as_bytes(), root.as_bytes()) {
                Ok(String::from_str(p))
            } else {
                Err(Permfail::general().build("path traversal outside root"))
            }
        },
    }
}

/// The bytes of `gmi`.
pub open spec fn gmi_bytes() -> Seq<u8> {
    seq![103u8, 109u8, 105u8]
}

/// Whether the path's extension is `gmi`.
pub fn is_gemini_document(path: &str) -> (r: bool)
    ensures
        r == (extension(path.spec_bytes()) == Some(gmi_bytes())),
{
    let b = path.as_bytes();
    match extension_span(b) {
        None => false,
        Some((s, e)) => {
            let ghost ext = b@.subrange(s as int, e as int);
            if e - s != 3 {
                assert(ext.len() != gmi_bytes().len());
                return false;
            }
            assert(ext[0] == b@[s as int]);
            assert(ext[1] == b@[s + 1]);
            assert(ext[2] == b@[s + 2]);
            if b[s] == 103 && b[s + 1] == 109 && b[s + 2] == 105 {
                assert(ext =~= gmi_bytes());
                true
            } else {
                assert(ext != gmi_bytes()) by {
                    if ext == gmi_bytes() {
                        assert(gmi_bytes()[0] == 103u8);
                    }
                }
                false
            }
        },
    }
}

/// The MIME type a file is sent as: Gemini for a `.gmi` file, otherwise what
/// sniffing its content found, or Gemini when sniffing found nothing.
pub fn content_type<'a>(path: &str, sniffed: Option<&'a str>) -> (r: &'a str)
    ensures
        r@ == if extension(path.spec_bytes()) == Some(gmi_bytes()) {
            GEMINI_MIME@
        } else {
            match sniffed {
                Some(m) => m@,
                None => GEMINI_MIME@,
            }
        },
{
    if is_gemini_document(path) {
        GEMINI_MIME
    } else {
        match sniffed {
            Some(m) => m,
            None => GEMINI_MIME,
        }
    }
}

/// The success reply header for a body of type `mime`: `"20 <mime>\r\n"`.
pub fn response_header(mime: &str) -> (r: String)
    ensures
        r@ == "20 "@ + mime@ + "\r\n"@,
{
    let mut out = String::from_str("20 ");
    out.append(mime);
    out.append("\r\n");
    out
}

/// The text appended after a response body: for a Gemini document, when a
/// footer is set, the footer on a line of its own (`"\n<footer>\n"`); nothing otherwise.
pub fn footer_block(mime: &str, footer: Option<&str>) -> (r: Option<String>)
    ensures
        r is Some <==> (mime@ == GEMINI_MIME@ && footer is Some),
        r matches Some(t) ==> t@ == "\n"@ + footer->0@ + "\n"@,
{
    match footer {
        Some(f) => {
            if crate::request::same_text(mime, GEMINI_MIME) {
                let mut out = String::from_str("\n");
                out.append(f);
                out.append("\n");
                Some(out)
            } else {
                None
            }
        },
        None => None,
    }
}

} // verus!
