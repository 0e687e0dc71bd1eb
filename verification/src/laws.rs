//! Properties of the request reader and of reply framing that hold of every input.

use vstd::prelude::*;
use vstd::utf8::valid_utf8;
use vstd::utf8::encode_utf8;
use crate::path::{extension, path_starts_with};
use crate::serve::gmi_bytes;
use crate::serve::{join_path, trim_leading_slashes};
use crate::reply::{decimal, digit_char, reply_text};
use crate::cli::{resolved_with_defaults, IpAddress, Level, ResolvedArgs, Trace};
use crate::session::{session_footer, session_root, stage_wf, transition, Action, Event, Stage};
use crate::trusted::url_parse;
use vstd::utf8::decode_utf8;
use crate::request::{
    byte_request_outcome, crlf_from, percent_decoded, PERCENT, is_traversal, url_request_outcome, GEMINI_SCHEME, CR, LF,
    REQUEST_MAX_BYTES, REQUEST_URI_MAX_BYTES,
};

verus! {

/// The number that a string of decimal digits spells.
pub open spec fn digits_value(s: Seq<char>) -> int
    decreases s.len(),
{
    if s.len() == 0 {
        0
    } else {
        digits_value(s.drop_last()) * 10 + (s.last() as int - 48)
    }
}

/// Whether every character of `s` is a decimal digit.
pub open spec fn all_digits(s: Seq<char>) -> bool {
    forall|i: int| 0 <= i < s.len() ==> '0' <= #[trigger] s[i] <= '9'
}

/// A status code is written as decimal digits that spell the code, with no
/// leading zero.
pub proof fn law_decimal_spells_code(n: nat)
    ensures
        decimal(n).len() > 0,
        all_digits(decimal(n)),
        digits_value(decimal(n)) == n,
        n > 0 ==> decimal(n)[0] != '0',
        decimal(n).len() > 1 ==> n >= 10,
    decreases n,
{
    if n >= 10 {
        law_decimal_spells_code(n / 10);
        let d = decimal(n);
        let p = decimal(n / 10);
        assert(d == p.push(digit_char(n % 10)));
        assert(d.drop_last() =~= p);
        assert(d.last() == digit_char(n % 10));
        assert(digit_char(n % 10) as int == 48 + n % 10);
        assert(digits_value(d) == digits_value(p) * 10 + (n % 10));
        assert(n == (n / 10) * 10 + n % 10) by (nonlinear_arith);
        assert(d[0] == p[0]);
        assert forall|i: int| 0 <= i < d.len() implies '0' <= #[trigger] d[i] <= '9' by {
            if i < p.len() {
                assert(d[i] == p[i]);
            }
        }
    } else {
        let d = decimal(n);
        assert(digit_char(n) as int == 48 + n);
        assert(d.drop_last() =~= Seq::<char>::empty());
        assert(d.last() == digit_char(n));
        assert(digits_value(d) == digits_value(d.drop_last()) * 10 + (d.last() as int - 48));
    }
}

/// Every reply header starts with its code in decimal and ends with CRLF; the
/// message, when there is one, sits between them after a single space.
pub proof fn law_reply_framing(code: nat, msg: Seq<char>)
    ensures
        reply_text(code, msg).take(decimal(code).len() as int) == decimal(code),
        reply_text(code, msg).len() >= 2,
        reply_text(code, msg).skip(reply_text(code, msg).len() - 2) == seq!['\r', '\n'],
        msg.len() == 0 ==> reply_text(code, msg) == decimal(code) + seq!['\r', '\n'],
        msg.len() > 0 ==> reply_text(code, msg).subrange(
            decimal(code).len() as int,
            (decimal(code).len() + 1 + msg.len()) as int,
        ) == seq![' '] + msg,
{
    let r = reply_text(code, msg);
    let d = decimal(code);
    assert(r.take(d.len() as int) =~= d);
    assert(r.skip(r.len() - 2) =~= seq!['\r', '\n']);
    if msg.len() > 0 {
        assert(r.subrange(d.len() as int, (d.len() + 1 + msg.len()) as int) =~= seq![' '] + msg);
    }
}

/// Percent-decoding leaves bytes without any `%` unchanged, so a request URL
/// without `%` is checked for `..` components as it is written.
pub proof fn law_percent_free_unchanged(b: Seq<u8>)
    requires
        forall|i: int| 0 <= i < b.len() ==> b[i] != PERCENT,
    ensures
        percent_decoded(b) == b,
    decreases b.len(),
{
    if b.len() > 0 {
        let t = b.skip(1);
        assert forall|i: int| 0 <= i < t.len() implies t[i] != PERCENT by {
            assert(t[i] == b[i + 1]);
        }
        law_percent_free_unchanged(t);
        assert(seq![b[0]] + t =~= b);
    }
}

proof fn lemma_crlf_from(b: Seq<u8>, from: int)
    requires
        crlf_from(b, from) is Some,
    ensures
        from <= crlf_from(b, from)->0,
        crlf_from(b, from)->0 + 1 < b.len(),
        b[crlf_from(b, from)->0] == CR,
        b[crlf_from(b, from)->0 + 1] == LF,
    decreases b.len() - from,
{
    if !(b[from] == CR && b[from + 1] == LF) {
        lemma_crlf_from(b, from + 1);
    }
}

/// A request URL that is read successfully was followed by CRLF and nothing
/// else, holds no earlier CRLF, holds no `..` component once percent-decoded,
/// and has the `gemini` scheme.
pub proof fn law_accepted_url_request(req: Seq<u8>)
    requires
        url_request_outcome(req) is Ok,
    ensures
        req.len() >= 2,
        req[req.len() - 2] == CR,
        req[req.len() - 1] == LF,
        crlf_from(req, 0) == Some(req.len() - 2),
        !is_traversal(req.take(req.len() - 2)),
        url_request_outcome(req)->Ok_0.0 == GEMINI_SCHEME@,
{
    lemma_crlf_from(req, 0);
}

/// A request that is accepted (its size within the buffer) had between 1 and 1026 bytes, was valid UTF-8,
/// ended with its only CRLF, held no `..` component once percent-decoded, and
/// had the `gemini` scheme.
pub proof fn law_accepted_request(buffer: Seq<u8>, size: nat)
    requires
        size <= buffer.len(),
        byte_request_outcome(buffer, size) is Ok,
    ensures
        0 < size <= REQUEST_MAX_BYTES,
        size - 2 <= REQUEST_URI_MAX_BYTES,
        valid_utf8(buffer.take(size as int)),
        url_request_outcome(buffer.take(size as int)) == byte_request_outcome(buffer, size),
        size >= 2,
        buffer.take(size as int)[size - 2] == CR,
        buffer.take(size as int)[size - 1] == LF,
        crlf_from(buffer.take(size as int), 0) == Some(size - 2),
        !is_traversal(buffer.take(size - 2)),
        byte_request_outcome(buffer, size)->Ok_0.0 == GEMINI_SCHEME@,
{
    let req = buffer.take(size as int);
    law_accepted_url_request(req);
    assert(req.take(size - 2) =~= buffer.take(size - 2));
}

/// Every refused request is answered with a bad-request reply header: it starts
/// with `59 ` and ends with CRLF.
pub proof fn law_refusal_is_bad_request(buffer: Seq<u8>, size: nat)
    requires
        byte_request_outcome(buffer, size) is Err,
    ensures
        byte_request_outcome(buffer, size)->Err_0.take(3) == seq!['5', '9', ' '],
        byte_request_outcome(buffer, size)->Err_0.skip(
            byte_request_outcome(buffer, size)->Err_0.len() - 2,
        ) == seq!['\r', '\n'],
{
    reveal_strlit("empty request");
    reveal_strlit("request exceeds maximum length");
    reveal_strlit("not utf-8 request: ");
    reveal_strlit("missing CRLF termination");
    reveal_strlit("tailing data after CRLF termination");
    reveal_strlit("request URL contains path traversal");
    reveal_strlit("invalid URL scheme: ");
    reveal_strlit("invalid request URL: ");
    let e = byte_request_outcome(buffer, size)->Err_0;
    assert(decimal(59) =~= seq!['5', '9']) by {
        assert(decimal(5) == seq![digit_char(5)]);
        assert(decimal(9) == seq![digit_char(9)]);
    }
    let msg: Seq<char> = if size == 0 {
        "empty request"@
    } else if size > REQUEST_MAX_BYTES {
        "request exceeds maximum length"@
    } else if !valid_utf8(buffer.take(size as int)) {
        "not utf-8 request: "@ + crate::trusted::utf8_error_text(buffer.take(size as int))
    } else {
        url_request_outcome(buffer.take(size as int))->Err_0
    };
    assert(e == reply_text(59, msg));
    assert(msg.len() > 0);
    law_reply_framing(59, msg);
    assert(e.take(3) =~= seq!['5', '9', ' ']) by {
        assert(e.take(2) == decimal(59));
        assert(e[2] == ' ');
        assert(e.take(3)[0] == e.take(2)[0]);
        assert(e.take(3)[1] == e.take(2)[1]);
    }
}

/// A file is only sent from a session that has a root, and only when its path
/// lies under that root, component by component.
pub proof fn law_sent_files_lie_under_root(stage: Stage, event: Event, next: Stage, action: Action)
    requires
        stage_wf(stage),
        transition(stage, event, next, action),
        action is Send,
    ensures
        session_root(stage) is Some,
        path_starts_with(encode_utf8(action->Send_path@), encode_utf8(session_root(stage)->0@)),
        next is Finished,
{
}

/// A refusal ends the session, and a finished session asks for nothing more:
/// after a refused request no file content is ever sent.
pub proof fn law_refusal_is_final(stage: Stage, event: Event, next: Stage, action: Action)
    requires
        transition(stage, event, next, action),
    ensures
        action is Refuse ==> next is Finished,
        stage is Finished ==> next is Finished && action is Stop,
{
}

/// A request that was refused while being read is answered with exactly the
/// reply header it was refused with.
pub proof fn law_read_refusal_is_answered(stage: Stage, e: String, next: Stage, action: Action)
    requires
        stage is AwaitRequest,
        transition(stage, Event::Request(Err(e)), next, action),
    ensures
        next is Finished,
        action == Action::Refuse(e),
{
}

/// Resolved settings keep what was given: the certificate, key and root paths,
/// badge and footer are the ones given, and each other setting is the one given
/// or else its default (127.0.0.1, port 1965, stderr, info, `index.gmi`).
pub proof fn law_settings_keep_given_values(
    r: ResolvedArgs,
    addr: Option<IpAddress>,
    port: Option<u16>,
    cert: String,
    key: String,
    trace: Option<Trace>,
    level: Option<Level>,
    root: String,
    index: Option<String>,
    badge: Option<String>,
    footer: Option<String>,
)
    requires
        resolved_with_defaults(r, addr, port, cert, key, trace, level, root, index, badge, footer),
    ensures
        r.cert == cert,
        r.key == key,
        r.root == root,
        r.badge == badge,
        r.footer == footer,
        r.port == (if port is Some { port->0 } else { 1965u16 }),
        r.addr == (if addr is Some { addr->0 } else { IpAddress::V4(0x7f00_0001) }),
        r.trace == (if trace is Some { trace->0 } else { Trace::Stderr }),
        r.level == (if level is Some { level->0 } else { Level::Info }),
        r.index@ == (if index is Some { index->0@ } else { "index.gmi"@ }),
{
}

/// When the requested path is a directory, its `index.gmi` is what is looked up
/// next: the directory's path, a `/` unless it is empty or already ends in one,
/// then `index.gmi`.
pub proof fn law_directory_serves_its_index_page(stage: Stage, next: Stage, action: Action)
    requires
        stage is AwaitDirCheck,
        transition(stage, Event::IsDir(true), next, action),
    ensures
        action is Canonicalize,
        ({
            let c = stage->AwaitDirCheck_candidate@;
            action->Canonicalize_0@ == if c.len() == 0 || c.last() == '/' {
                c + "index.gmi"@
            } else {
                c + seq!['/'] + "index.gmi"@
            }
        }),
{
    reveal_strlit("index.gmi");
}

/// A path that is not a directory is looked up as it is.
pub proof fn law_file_is_looked_up_as_named(stage: Stage, next: Stage, action: Action)
    requires
        stage is AwaitDirCheck,
        transition(stage, Event::IsDir(false), next, action),
    ensures
        action is Canonicalize,
        action->Canonicalize_0@ == stage->AwaitDirCheck_candidate@,
{
}

proof fn lemma_header_mime(a: Seq<char>, b: Seq<char>)
    ensures
        ("20 "@ + a + "\r\n"@ == "20 "@ + b + "\r\n"@) <==> a == b,
{
    reveal_strlit("20 ");
    reveal_strlit("\r\n");
    let x = "20 "@ + a + "\r\n"@;
    let y = "20 "@ + b + "\r\n"@;
    if x == y {
        assert(x.subrange(3, x.len() - 2) =~= a);
        assert(y.subrange(3, y.len() - 2) =~= b);
    }
}

/// A file that is not a Gemini document is sent under the type sniffed from it,
/// or as `text/gemini` when sniffing found nothing; the path sent is the one
/// that was sniffed.
pub proof fn law_sniffed_type_is_sent(stage: Stage, m: Option<String>, next: Stage, action: Action)
    requires
        stage is AwaitMime,
        transition(stage, Event::Mime(m), next, action),
    ensures
        action is Send,
        action->Send_path@ == stage->AwaitMime_path@,
        m is Some ==> action->Send_header@ == "20 "@ + m->0@ + "\r\n"@,
        m is None ==> action->Send_header@ == "20 "@ + "text/gemini"@ + "\r\n"@,
{
}

/// A Gemini document found under the root is sent as `text/gemini`.
pub proof fn law_gemini_document_is_sent_as_gemini(
    stage: Stage,
    p: String,
    next: Stage,
    action: Action,
)
    requires
        stage is AwaitCanonical,
        transition(stage, Event::Canonical(Some(p)), next, action),
        action is Send,
    ensures
        action->Send_path@ == p@,
        action->Send_header@ == "20 "@ + "text/gemini"@ + "\r\n"@,
{
}

/// The footer is appended to exactly the responses sent as `text/gemini`, and
/// only when a footer is set; it stands on a line of its own.
pub proof fn law_footer_only_on_gemini_documents(
    stage: Stage,
    event: Event,
    next: Stage,
    action: Action,
)
    requires
        stage_wf(stage),
        transition(stage, event, next, action),
        action is Send,
    ensures
        action->Send_trailer is Some <==> (session_footer(stage) is Some
            && action->Send_header@ == "20 "@ + "text/gemini"@ + "\r\n"@),
        action->Send_trailer is Some ==> action->Send_trailer->0@ == "\n"@ + session_footer(
            stage,
        )->0@ + "\n"@,
{
    match (stage, event) {
        (Stage::AwaitMime { root, path, footer }, Event::Mime(m)) => {
            let mime = if m is Some { m->0@ } else { "text/gemini"@ };
            lemma_header_mime(mime, "text/gemini"@);
        },
        _ => {},
    }
}

/// An accepted request's URL is exactly what the URL parser makes of the text
/// before the CRLF: scheme, host, path and serialization alike.
pub proof fn law_accepted_url_is_parsed_text(req: Seq<u8>)
    requires
        url_request_outcome(req) is Ok,
    ensures
        req.len() >= 2,
        url_parse(decode_utf8(req.take(req.len() - 2))) == url_request_outcome(req),
{
    lemma_crlf_from(req, 0);
}

/// Joining a relative path keeps the base in front and the relative path at the
/// end, with exactly one `/` between them when the base is not empty; an
/// absolute path replaces the base.
pub proof fn law_join_keeps_both_parts(base: Seq<char>, rel: Seq<char>)
    ensures
        rel.len() > 0 && rel[0] == '/' ==> join_path(base, rel) == rel,
        !(rel.len() > 0 && rel[0] == '/') ==> {
            let j = join_path(base, rel);
            &&& j.take(base.len() as int) == base
            &&& j.skip(j.len() - rel.len()) == rel
            &&& base.len() > 0 ==> j[base.len() - 1] == '/' || j[base.len() as int] == '/'
            &&& j.len() == base.len() + rel.len() + (if base.len() == 0 || base.last() == '/' {
                0int
            } else {
                1int
            })
        },
{
    let j = join_path(base, rel);
    if !(rel.len() > 0 && rel[0] == '/') {
        assert(j.take(base.len() as int) =~= base);
        assert(j.skip(j.len() - rel.len()) =~= rel);
    }
}

/// Trimming leading slashes drops only `/` characters, from the front, and
/// leaves a path that does not start with `/`.
pub proof fn law_trim_drops_only_leading_slashes(s: Seq<char>)
    ensures
        trim_leading_slashes(s).len() <= s.len(),
        s.skip(s.len() - trim_leading_slashes(s).len()) == trim_leading_slashes(s),
        forall|i: int| 0 <= i < s.len() - trim_leading_slashes(s).len() ==> s[i] == '/',
        trim_leading_slashes(s).len() == 0 || trim_leading_slashes(s)[0] != '/',
    decreases s.len(),
{
    if s.len() > 0 && s[0] == '/' {
        let t = s.drop_first();
        law_trim_drops_only_leading_slashes(t);
        assert(s.skip(s.len() - trim_leading_slashes(s).len()) =~= t.skip(
            t.len() - trim_leading_slashes(t).len(),
        ));
        assert forall|i: int| 0 <= i < s.len() - trim_leading_slashes(s).len() implies s[i]
            == '/' by {
            if i > 0 {
                assert(s[i] == t[i - 1]);
            }
        }
    } else {
        assert(s.skip(0) =~= s);
    }
}

/// A requested URL path names a file under the capsule root: the root stays in
/// front, and the path, without its leading slashes, stays at the end; the empty
/// path names the index page.
pub proof fn law_request_names_path_under_root(
    stage: Stage,
    u: crate::request::RequestUrl,
    next: Stage,
    action: Action,
)
    requires
        stage is AwaitRequest,
        transition(stage, Event::Request(Ok(u)), next, action),
    ensures
        action is CheckDir,
        ({
            let root = stage->AwaitRequest_root@;
            let c = action->CheckDir_0@;
            let rel = if u@.2.len() == 0 {
                stage->AwaitRequest_index@
            } else {
                trim_leading_slashes(u@.2)
            };
            &&& u@.2.len() > 0 ==> c.take(root.len() as int) == root
            &&& (rel.len() == 0 || rel[0] != '/') ==> c.skip(c.len() - rel.len()) == rel
            &&& (rel.len() > 0 && rel[0] == '/') ==> c == rel
        }),
{
    let root = stage->AwaitRequest_root@;
    let rel = if u@.2.len() == 0 {
        stage->AwaitRequest_index@
    } else {
        trim_leading_slashes(u@.2)
    };
    law_join_keeps_both_parts(root, rel);
    if u@.2.len() > 0 {
        law_trim_drops_only_leading_slashes(u@.2);
    }
}

/// What the canonical path decides: no canonical path is a 51 reply, a path
/// outside the root a 50 reply, a Gemini document under the root is sent at
/// once as `text/gemini`, and any other file under the root is sniffed first.
pub proof fn law_canonical_path_outcomes(
    stage: Stage,
    c: Option<String>,
    next: Stage,
    action: Action,
)
    requires
        stage is AwaitCanonical,
        transition(stage, Event::Canonical(c), next, action),
    ensures
        c is None ==> action is Refuse && action->Refuse_0@ == reply_text(51, "target file not found"@),
        c is Some && !path_starts_with(
            encode_utf8(c->0@),
            encode_utf8(stage->AwaitCanonical_root@),
        ) ==> action is Refuse && action->Refuse_0@ == reply_text(50, "path traversal outside root"@),
        c is Some && path_starts_with(encode_utf8(c->0@), encode_utf8(stage->AwaitCanonical_root@))
            && extension(encode_utf8(c->0@)) == Some(gmi_bytes()) ==> action is Send
            && action->Send_path@ == c->0@ && action->Send_header@ == "20 "@ + "text/gemini"@
            + "\r\n"@,
        c is Some && path_starts_with(encode_utf8(c->0@), encode_utf8(stage->AwaitCanonical_root@))
            && extension(encode_utf8(c->0@)) != Some(gmi_bytes()) ==> action is SniffMime
            && action->SniffMime_0@ == c->0@ && next is AwaitMime,
{
}

} // verus!
