use zhuque::request::parse_request_url;
use zhuque::serve::footer_block;
use zhuque::session::{Action, Event, Session};

fn start(footer: Option<&str>) -> Session {
    Session::new("/srv/cap".to_string(), "index.gmi".to_string(), footer.map(String::from))
}

fn expect_dir_check(s: Session, req: &str) -> (Session, String) {
    let url = parse_request_url(req).unwrap();
    match s.step(Event::Request(Ok(url))) {
        (s, Action::CheckDir(c)) => (s, c),
        (_, a) => panic!("unexpected {a:?}"),
    }
}

#[test]
fn gemini_document_is_sent_with_footer() {
    let (s, c) = expect_dir_check(start(Some("foot")), "gemini://h/docs/a.gmi\r\n");
    assert_eq!(c, "/srv/cap/docs/a.gmi");
    let (s, a) = s.step(Event::IsDir(false));
    assert!(matches!(&a, Action::Canonicalize(p) if p == "/srv/cap/docs/a.gmi"));
    let (s, a) = s.step(Event::Canonical(Some("/srv/cap/docs/a.gmi".to_string())));
    match a {
        Action::Send { header, path, trailer } => {
            assert_eq!(header, "20 text/gemini\r\n");
            assert_eq!(path, "/srv/cap/docs/a.gmi");
            assert_eq!(trailer.as_deref(), Some("\nfoot\n"));
        }
        a => panic!("unexpected {a:?}"),
    }
    let (_, a) = s.step(Event::IsDir(true));
    assert!(matches!(a, Action::Stop));
}

#[test]
fn directory_request_asks_for_its_index_page() {
    let (s, c) = expect_dir_check(start(None), "gemini://h/docs\r\n");
    assert_eq!(c, "/srv/cap/docs");
    let (_, a) = s.step(Event::IsDir(true));
    assert!(matches!(&a, Action::Canonicalize(p) if p == "/srv/cap/docs/index.gmi"));
}

#[test]
fn empty_path_asks_for_the_index_page() {
    let (_, c) = expect_dir_check(start(None), "gemini://h\r\n");
    assert_eq!(c, "/srv/cap/index.gmi");
}

#[test]
fn other_files_are_sniffed_and_get_no_footer() {
    let (s, _) = expect_dir_check(start(Some("foot")), "gemini://h/p.png\r\n");
    let (s, _) = s.step(Event::IsDir(false));
    let (s, a) = s.step(Event::Canonical(Some("/srv/cap/p.png".to_string())));
    assert!(matches!(&a, Action::SniffMime(p) if p == "/srv/cap/p.png"));
    match s.step(Event::Mime(Some("image/png".to_string()))).1 {
        Action::Send { header, path, trailer } => {
            assert_eq!(header, "20 image/png\r\n");
            assert_eq!(path, "/srv/cap/p.png");
            assert_eq!(trailer, None);
        }
        a => panic!("unexpected {a:?}"),
    }
}

#[test]
fn unsniffable_files_are_sent_as_gemini() {
    let (s, _) = expect_dir_check(start(Some("foot")), "gemini://h/notes\r\n");
    let (s, _) = s.step(Event::IsDir(false));
    let (s, _) = s.step(Event::Canonical(Some("/srv/cap/notes".to_string())));
    match s.step(Event::Mime(None)).1 {
        Action::Send { header, trailer, .. } => {
            assert_eq!(header, "20 text/gemini\r\n");
            assert_eq!(trailer.as_deref(), Some("\nfoot\n"));
        }
        a => panic!("unexpected {a:?}"),
    }
}

#[test]
fn paths_outside_root_are_refused() {
    let (s, _) = expect_dir_check(start(None), "gemini://h/link.gmi\r\n");
    let (s, _) = s.step(Event::IsDir(false));
    let (s, a) = s.step(Event::Canonical(Some("/etc/passwd".to_string())));
    assert!(matches!(&a, Action::Refuse(e) if e == "50 path traversal outside root\r\n"));
    assert!(matches!(s.step(Event::Mime(None)).1, Action::Stop));
}

#[test]
fn missing_files_are_refused() {
    let (s, _) = expect_dir_check(start(None), "gemini://h/gone.gmi\r\n");
    let (s, _) = s.step(Event::IsDir(false));
    let (_, a) = s.step(Event::Canonical(None));
    assert!(matches!(&a, Action::Refuse(e) if e == "51 target file not found\r\n"));
}

#[test]
fn refused_request_is_answered_with_its_reply_only() {
    let e = parse_request_url("gemini://h/../etc\r\n").unwrap_err();
    let (s, a) = start(None).step(Event::Request(Err(e.clone())));
    assert!(matches!(&a, Action::Refuse(r) if *r == e));
    assert!(matches!(s.step(Event::Canonical(Some("/srv/cap/a".to_string()))).1, Action::Stop));
}

#[test]
fn events_out_of_order_stop_the_session() {
    let (s, a) = start(None).step(Event::IsDir(true));
    assert!(matches!(a, Action::Stop));
    assert!(matches!(s.step(Event::Mime(None)).1, Action::Stop));
}

#[test]
fn footer_block_only_for_gemini_documents() {
    assert_eq!(footer_block("text/gemini", Some("f")).as_deref(), Some("\nf\n"));
    assert_eq!(footer_block("text/plain", Some("f")), None);
    assert_eq!(footer_block("text/gemini", None), None);
}
