use zhuque::serve::{
    confine_to_root, content_type, directory_index, is_gemini_document, join_path_text,
    requested_path, response_header, trim_start_slashes, GEMINI_MIME,
};

#[test]
fn join_puts_one_separator_between_parts() {
    assert_eq!(join_path_text("root", "page.gmi"), "root/page.gmi");
    assert_eq!(join_path_text("root/", "page.gmi"), "root/page.gmi");
    assert_eq!(join_path_text("", "page.gmi"), "page.gmi");
    assert_eq!(join_path_text("root", ""), "root/");
}

#[test]
fn join_with_absolute_path_replaces_base() {
    assert_eq!(join_path_text("root", "/etc/passwd"), "/etc/passwd");
}

#[test]
fn trim_drops_every_leading_slash() {
    assert_eq!(trim_start_slashes("///a/b/"), "a/b/");
    assert_eq!(trim_start_slashes("a"), "a");
    assert_eq!(trim_start_slashes("/"), "");
}

#[test]
fn requested_path_uses_index_for_empty_path() {
    assert_eq!(requested_path("gemcap", "index.gmi", ""), "gemcap/index.gmi");
    assert_eq!(requested_path("gemcap", "index.gmi", "/docs/a.gmi"), "gemcap/docs/a.gmi");
    assert_eq!(requested_path("gemcap", "/abs/home.gmi", ""), "/abs/home.gmi");
}

#[test]
fn directory_index_appends_index_page() {
    assert_eq!(directory_index("/srv/gemcap/docs"), "/srv/gemcap/docs/index.gmi");
}

#[test]
fn confine_to_root_accepts_paths_under_root() {
    let ok = confine_to_root(Some("/srv/gemcap/docs/a.gmi"), "/srv/gemcap").unwrap();
    assert_eq!(ok, "/srv/gemcap/docs/a.gmi");
    let ok = confine_to_root(Some("/srv/gemcap"), "/srv//gemcap/").unwrap();
    assert_eq!(ok, "/srv/gemcap");
}

#[test]
fn confine_to_root_refuses_paths_outside_root() {
    let e = confine_to_root(Some("/srv/gemcapx/a.gmi"), "/srv/gemcap").unwrap_err();
    assert_eq!(e, "50 path traversal outside root\r\n");
    let e = confine_to_root(Some("/etc/passwd"), "/srv/gemcap").unwrap_err();
    assert_eq!(e, "50 path traversal outside root\r\n");
    // A relative root never holds a canonical (absolute) path.
    let e = confine_to_root(Some("/srv/gemcap/a.gmi"), "gemcap").unwrap_err();
    assert_eq!(e, "50 path traversal outside root\r\n");
}

#[test]
fn confine_to_root_reports_missing_file() {
    let e = confine_to_root(None, "/srv/gemcap").unwrap_err();
    assert_eq!(e, "51 target file not found\r\n");
}

#[test]
fn gemini_documents_are_recognised_by_extension() {
    assert!(is_gemini_document("/srv/a.gmi"));
    assert!(is_gemini_document("a.b.gmi"));
    assert!(is_gemini_document(".x.gmi"));
    assert!(!is_gemini_document("/srv/.gmi"));
    assert!(!is_gemini_document("/srv/a.gmix"));
    assert!(!is_gemini_document("/srv/a.gmi/.."));
    assert!(!is_gemini_document("/srv/gmi"));
    assert!(is_gemini_document("/srv/a.gmi/"));
}

#[test]
fn content_type_prefers_gemini_then_sniffed() {
    assert_eq!(content_type("/srv/a.gmi", Some("image/png")), GEMINI_MIME);
    assert_eq!(content_type("/srv/a.png", Some("image/png")), "image/png");
    assert_eq!(content_type("/srv/a.bin", None), "text/gemini");
}

#[test]
fn response_header_frames_mime() {
    assert_eq!(response_header("text/gemini"), "20 text/gemini\r\n");
}
