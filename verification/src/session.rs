//! The decisions of answering one connection, as a state machine: the caller
//! performs each action (a filesystem query, sniffing a MIME type, writing a
//! reply) and hands back what it found as the next event.

use vstd::prelude::*;
use vstd::utf8::encode_utf8;
use crate::path::{extension, path_starts_with};
use crate::reply::reply_text;
use crate::request::RequestUrl;
use crate::serve::{
    confine_to_root, content_type, directory_index, footer_block, gmi_bytes, is_gemini_document,
    join_path, requested_path, response_header, trim_leading_slashes, GEMINI_MIME, INDEX_PAGE,
};

verus! {

/// Where the answering of one request stands.
pub enum Stage {
    /// Waiting for the request to be read.
    AwaitRequest { root: String, index: String, footer: Option<String> },
    /// Waiting to learn whether `candidate` is a directory.
    AwaitDirCheck { root: String, candidate: String, footer: Option<String> },
    /// Waiting for the canonical form of `candidate`.
    AwaitCanonical { root: String, candidate: String, footer: Option<String> },
    /// Waiting for the sniffed MIME type of `path`, which lies under `root`.
    AwaitMime { root: String, path: String, footer: Option<String> },
    /// The connection has been answered.
    Finished,
}

/// What the caller found out while performing the last action.
pub enum Event {
    /// The request was read and parsed, or refused with this reply header.
    Request(Result<RequestUrl, String>),
    /// Whether the path asked about is a directory.
    IsDir(bool),
    /// The canonical form of the path asked about, or `None` when it does not resolve.
    Canonical(Option<String>),
    /// The MIME type sniffed from the file's content, if any.
    Mime(Option<String>),
}

/// What the caller must do next.
#[derive(Debug)]
pub enum Action {
    /// Find out whether this path is a directory.
    CheckDir(String),
    /// Find the canonical form of this path.
    Canonicalize(String),
    /// Sniff the MIME type of this file.
    SniffMime(String),
    /// Write this reply header and nothing else, then close.
    Refuse(String),
    /// Write the header, then the content of the file at `path`, then the
    /// trailer if there is one, then close.
    Send { header: String, path: String, trailer: Option<String> },
    /// Nothing is left to do.
    Stop,
}

/// The answering of one connection. Only `new` and `step` make one, so its
/// stage always keeps `stage_wf`.
pub struct Session {
    stage: Stage,
}

impl View for Session {
    type V = Stage;

    closed spec fn view(&self) -> Stage {
        self.stage
    }
}

/// The capsule root a session serves from, once a request has started.
pub open spec fn session_root(s: Stage) -> Option<String> {
    match s {
        Stage::AwaitRequest { root, .. } => Some(root),
        Stage::AwaitDirCheck { root, .. } => Some(root),
        Stage::AwaitCanonical { root, .. } => Some(root),
        Stage::AwaitMime { root, .. } => Some(root),
        Stage::Finished => None,
    }
}

/// The footer a session was started with.
pub open spec fn session_footer(s: Stage) -> Option<String> {
    match s {
        Stage::AwaitRequest { footer, .. } => footer,
        Stage::AwaitDirCheck { footer, .. } => footer,
        Stage::AwaitCanonical { footer, .. } => footer,
        Stage::AwaitMime { footer, .. } => footer,
        Stage::Finished => None,
    }
}

/// The session's invariant: a file waiting for its MIME type lies under the
/// root and is not a Gemini document.
pub open spec fn stage_wf(s: Stage) -> bool {
    match s {
        Stage::AwaitMime { root, path, .. } => path_starts_with(
            encode_utf8(path@),
            encode_utf8(root@),
        ) && extension(encode_utf8(path@)) != Some(gmi_bytes()),
        _ => true,
    }
}

/// The view of an optional string.
pub open spec fn opt_view(o: Option<String>) -> Option<Seq<char>> {
    match o {
        Some(s) => Some(s@),
        None => None,
    }
}

/// The text appended to a body of type `mime` for the footer `footer`.
pub open spec fn trailer_for(mime: Seq<char>, footer: Option<Seq<char>>) -> Option<Seq<char>> {
    match footer {
        Some(f) => if mime == GEMINI_MIME@ {
            Some("\n"@ + f + "\n"@)
        } else {
            None
        },
        None => None,
    }
}

/// Whether `a` sends the file `path` with the header for `mime` and the trailer
/// for `footer`.
pub open spec fn sends(a: Action, path: Seq<char>, mime: Seq<char>, footer: Option<String>) -> bool {
    match a {
        Action::Send { header, path: p, trailer } => {
            &&& header@ == "20 "@ + mime + "\r\n"@
            &&& p@ == path
            &&& opt_view(trailer) == trailer_for(mime, opt_view(footer))
        },
        _ => false,
    }
}

fn view_of(o: &Option<String>) -> (r: Option<&str>)
    ensures
        match r {
            Some(t) => opt_view(*o) == Some(t@),
            None => o is None,
        },
{
    match o {
        Some(s) => Some(s.as_str()),
        None => None,
    }
}

fn trailer(mime: &str, footer: &Option<String>) -> (r: Option<String>)
    ensures
        opt_view(r) == trailer_for(mime@, opt_view(*footer)),
{
    footer_block(mime, view_of(footer))
}

/// One step of answering a connection: from `stage`, on `event`, the session
/// moves to `next` and asks for `action`.
pub open spec fn transition(stage: Stage, event: Event, next: Stage, action: Action) -> bool {
    match (stage, event) {
        (Stage::AwaitRequest { root, index, footer }, Event::Request(Err(e))) => next is Finished
            && action == Action::Refuse(e),
        (Stage::AwaitRequest { root, index, footer }, Event::Request(Ok(u))) => {
            let candidate = join_path(
                root@,
                if u@.2.len() == 0 {
                    index@
                } else {
                    trim_leading_slashes(u@.2)
                },
            );
            &&& next matches Stage::AwaitDirCheck { root: r2, candidate: c, footer: f2 }
                && r2 == root && f2 == footer && c@ == candidate
            &&& action matches Action::CheckDir(c) && c@ == candidate
        },
        (Stage::AwaitDirCheck { root, candidate, footer }, Event::IsDir(d)) => {
            let target = if d {
                join_path(candidate@, INDEX_PAGE@)
            } else {
                candidate@
            };
            &&& next matches Stage::AwaitCanonical { root: r2, candidate: c, footer: f2 }
                && r2 == root && f2 == footer && c@ == target
            &&& action matches Action::Canonicalize(c) && c@ == target
        },
        (Stage::AwaitCanonical { root, candidate, footer }, Event::Canonical(None)) => next is Finished
            && (action matches Action::Refuse(e) && e@ == reply_text(51, "target file not found"@)),
        (Stage::AwaitCanonical { root, candidate, footer }, Event::Canonical(Some(p))) => {
            if !path_starts_with(encode_utf8(p@), encode_utf8(root@)) {
                next is Finished && (action matches Action::Refuse(e) && e@ == reply_text(
                    50,
                    "path traversal outside root"@,
                ))
            } else if extension(encode_utf8(p@)) == Some(gmi_bytes()) {
                next is Finished && sends(action, p@, GEMINI_MIME@, footer)
            } else {
                &&& next matches Stage::AwaitMime { root: r2, path: q, footer: f2 } && r2
                    == root && f2 == footer && q@ == p@
                &&& action matches Action::SniffMime(q) && q@ == p@
            }
        },
        (Stage::AwaitMime { root, path, footer }, Event::Mime(m)) => next is Finished
            && sends(
            action,
            path@,
            match m {
                Some(t) => t@,
                None => GEMINI_MIME@,
            },
            footer,
        ),
        (s, _) => next is Finished && action is Stop,
    }
}

impl Session {
    #[verifier::type_invariant]
    spec fn wf(self) -> bool {
        stage_wf(self.stage)
    }

    /// A session that serves from `root`, with `index` as the index page and
    /// `footer` appended to Gemini documents.
    pub fn new(root: String, index: String, footer: Option<String>) -> (s: Self)
        ensures
            s@ == (Stage::AwaitRequest { root, index, footer }),
    {
        Session { stage: Stage::AwaitRequest { root, index, footer } }
    }

    /// Takes the session one step: from where it stands and what the caller
    /// found, to where it stands next and what the caller must do.
    ///
    /// A file is only ever sent after a request was accepted and the canonical
    /// form of its path was found under the root; a refusal writes its reply
    /// header alone and ends the session; a finished session does nothing more.
    pub fn step(self, event: Event) -> (r: (Session, Action))
        ensures
            r.0@ is Finished || session_root(r.0@) == session_root(self@),
            r.0@ is Finished || session_footer(r.0@) == session_footer(self@),
            r.1 is Refuse ==> r.0@ is Finished,
            r.1 is Send ==> r.0@ is Finished,
            self@ is Finished ==> r.0@ is Finished && r.1 is Stop,
            r.1 matches Action::Send { path, .. } ==> session_root(self@) is Some
                && path_starts_with(
                encode_utf8(path@),
                encode_utf8(session_root(self@)->0@),
            ),
            transition(self@, event, r.0@, r.1),
            self@ is AwaitDirCheck && event == Event::IsDir(true) ==> r.1 is Canonicalize
                && r.1->Canonicalize_0@ == join_path(self@->AwaitDirCheck_candidate@, "index.gmi"@),
            self@ is AwaitDirCheck && event == Event::IsDir(false) ==> r.1 is Canonicalize
                && r.1->Canonicalize_0@ == self@->AwaitDirCheck_candidate@,
            self@ is AwaitMime && event is Mime ==> r.1 is Send && r.1->Send_path@
                == self@->AwaitMime_path@ && r.1->Send_header@ == "20 "@ + (if event->Mime_0 is Some {
                event->Mime_0->0@
            } else {
                "text/gemini"@
            }) + "\r\n"@,
            r.1 is Send ==> (r.1->Send_trailer is Some <==> (session_footer(self@) is Some
                && r.1->Send_header@ == "20 "@ + "text/gemini"@ + "\r\n"@)),
            r.1 is Send && r.1->Send_trailer is Some ==> r.1->Send_trailer->0@ == "\n"@
                + session_footer(self@)->0@ + "\n"@,
    {
        proof {
            use_type_invariant(&self);
        }
        let ghost old_stage = self@;
        let ghost ev = event;
        let (stage, action) = Self::advance(self.stage, event);
        proof {
            if action is Send {
                crate::laws::law_footer_only_on_gemini_documents(old_stage, ev, stage, action);
            }
            if old_stage is AwaitDirCheck && ev == Event::IsDir(true) {
                reveal_strlit("index.gmi");
            }
        }
        (Session { stage }, action)
    }

    fn advance(stage: Stage, event: Event) -> (r: (Stage, Action))
        requires
            stage_wf(stage),
        ensures
            stage_wf(r.0),
            r.0 is Finished || session_root(r.0) == session_root(stage),
            r.0 is Finished || session_footer(r.0) == session_footer(stage),
            r.1 is Refuse ==> r.0 is Finished,
            r.1 is Send ==> r.0 is Finished,
            stage is Finished ==> r.0 is Finished && r.1 is Stop,
            r.1 matches Action::Send { path, .. } ==> session_root(stage) is Some
                && path_starts_with(
                encode_utf8(path@),
                encode_utf8(session_root(stage)->0@),
            ),
            transition(stage, event, r.0, r.1),
    {
        match (stage, event) {
            (Stage::AwaitRequest { root, index, footer }, Event::Request(parsed)) => {
                match parsed {
                    Err(e) => (Stage::Finished, Action::Refuse(e)),
                    Ok(u) => {
                        let candidate = requested_path(root.as_str(), index.as_str(), u.path());
                        let ask = candidate.clone();
                        (Stage::AwaitDirCheck { root, candidate, footer }, Action::CheckDir(ask))
                    },
                }
            },
            (Stage::AwaitDirCheck { root, candidate, footer }, Event::IsDir(d)) => {
                let next = if d {
                    directory_index(candidate.as_str())
                } else {
                    candidate
                };
                let ask = next.clone();
                (Stage::AwaitCanonical { root, candidate: next, footer }, Action::Canonicalize(ask))
            },
            (Stage::AwaitCanonical { root, candidate, footer }, Event::Canonical(c)) => {
                match confine_to_root(view_of(&c), root.as_str()) {
                    Err(e) => (Stage::Finished, Action::Refuse(e)),
                    Ok(p) => {
                        if is_gemini_document(p.as_str()) {
                            let header = response_header(GEMINI_MIME);
                            let t = trailer(GEMINI_MIME, &footer);
                            (Stage::Finished, Action::Send { header, path: p, trailer: t })
                        } else {
                            let ask = p.clone();
                            (Stage::AwaitMime { root, path: p, footer }, Action::SniffMime(ask))
                        }
                    },
                }
            },
            (Stage::AwaitMime { root, path, footer }, Event::Mime(m)) => {
                let mime = content_type(path.as_str(), view_of(&m));
                let header = response_header(mime);
                let t = trailer(mime, &footer);
                (Stage::Finished, Action::Send { header, path, trailer: t })
            },
            (_, _) => (Stage::Finished, Action::Stop),
        }
    }
}

} // verus!
