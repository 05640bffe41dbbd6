use asthobin::cache::CodeCache;
use asthobin::error::ApiError;
use asthobin::document::{cached_page, cached_reply, is_ignored_document, stored_reply, DocumentReply, DocumentRequest, PathDocument};
use syntect::highlighting::ThemeSet;
use syntect::parsing::SyntaxSet;

fn path(document_id: Option<&str>, raw_id: Option<&str>) -> PathDocument {
    PathDocument { document_id: document_id.map(String::from), raw_id: raw_id.map(String::from) }
}

#[test]
fn a_path_names_a_page_or_a_raw_text() {
    match path(Some("ABCDEFGH23"), None).resolve() {
        DocumentRequest::Fetch { raw, id } => {
            assert!(!raw);
            assert_eq!(id, "ABCDEFGH23");
        }
        other => panic!("unexpected {other:?}"),
    }
    match path(None, Some("ABCDEFGH23")).resolve() {
        DocumentRequest::Fetch { raw, id } => {
            assert!(raw);
            assert_eq!(id, "ABCDEFGH23");
        }
        other => panic!("unexpected {other:?}"),
    }
}

#[test]
fn malformed_paths_are_bad_requests() {
    assert!(matches!(path(None, None).resolve(), DocumentRequest::BadRequest));
    assert!(matches!(path(Some("a"), Some("b")).resolve(), DocumentRequest::BadRequest));
}

#[test]
fn crawler_files_are_not_documents() {
    for name in ["robots.txt", "sitemap.xml", "security.txt", ".well-known/robots.txt", ".htaccess"] {
        assert!(is_ignored_document(name));
        assert!(matches!(path(Some(name), None).resolve(), DocumentRequest::NotFound));
        assert!(matches!(path(None, Some(name)).resolve(), DocumentRequest::NotFound));
    }
    assert!(!is_ignored_document("robots"));
    assert!(!is_ignored_document(""));
}

#[test]
fn raw_text_never_comes_from_the_cache() {
    let mut cache = CodeCache::new();
    cache.insert("ID".to_string(), "<pre>x</pre>".to_string(), "rust".to_string(), 7);
    assert!(cached_page(&cache, true, "ID").is_none());
    assert_eq!(cached_page(&cache, false, "ID"), Some(("<pre>x</pre>".to_string(), "rust".to_string())));
    assert!(cached_page(&cache, false, "OTHER").is_none());
}

#[test]
fn cached_pages_link_to_their_raw_text() {
    match cached_reply("ID", "<pre>x</pre>".to_string(), "rust".to_string()) {
        DocumentReply::Page { code, language, raw_url } => {
            assert_eq!(code, "<pre>x</pre>");
            assert_eq!(language, "rust");
            assert_eq!(raw_url, "/raw/ID");
        }
        other => panic!("unexpected {other:?}"),
    }
}

#[test]
fn replies_once_the_store_was_asked() {
    let syntax_set = SyntaxSet::load_defaults_newlines();
    let themes = ThemeSet::load_defaults();
    let theme = &themes.themes["base16-ocean.dark"];
    let mut cache = CodeCache::new();
    match stored_reply(&mut cache, false, "NOPE", None, Ok(1_000), theme, &syntax_set).unwrap() {
        DocumentReply::Redirect { location } => assert_eq!(location, "/"),
        other => panic!("unexpected {other:?}"),
    }
    let stored = Some(("a = 1\n".to_string(), "py".to_string()));
    match stored_reply(&mut cache, true, "DOC", stored.clone(), Ok(1_000), theme, &syntax_set).unwrap() {
        DocumentReply::Raw { body } => assert_eq!(body, "a = 1\n"),
        other => panic!("unexpected {other:?}"),
    }
    assert!(cache.get("DOC").is_none());
    match stored_reply(&mut cache, false, "DOC", stored.clone(), Ok(1_000), theme, &syntax_set).unwrap() {
        DocumentReply::Page { code, language, raw_url } => {
            assert_eq!(language, "py");
            assert_eq!(raw_url, "/raw/DOC");
            assert_eq!(cache.get("DOC"), Some((code, "py".to_string())));
        }
        other => panic!("unexpected {other:?}"),
    }
    // The page is stamped with the clock's reading: it is evicted an hour later.
    cache.evict_expired(1_000 + 3_599);
    assert!(cache.get("DOC").is_some());
    cache.evict_expired(1_000 + 3_601);
    assert!(cache.get("DOC").is_none());
}

#[test]
fn a_failed_clock_fails_only_page_requests() {
    let syntax_set = SyntaxSet::load_defaults_newlines();
    let themes = ThemeSet::load_defaults();
    let theme = &themes.themes["base16-ocean.dark"];
    let mut cache = CodeCache::new();
    let stored = Some(("a = 1\n".to_string(), "py".to_string()));
    let clock_error = || Err(ApiError::TryFromIntError("out of range".to_string()));
    match stored_reply(&mut cache, true, "DOC", stored.clone(), clock_error(), theme, &syntax_set).unwrap() {
        DocumentReply::Raw { body } => assert_eq!(body, "a = 1\n"),
        other => panic!("unexpected {other:?}"),
    }
    match stored_reply(&mut cache, false, "DOC", stored, clock_error(), theme, &syntax_set) {
        Err(ApiError::TryFromIntError(m)) => assert_eq!(m, "out of range"),
        other => panic!("unexpected {other:?}"),
    }
    assert!(cache.get("DOC").is_none());
}

#[test]
fn an_upload_read_back_raw_is_its_lossy_text() {
    let upload = asthobin::paste::prepare_document(b"caf\xc3\xa9 \xff!", None).unwrap();
    let syntax_set = SyntaxSet::load_defaults_newlines();
    let themes = ThemeSet::load_defaults();
    let theme = &themes.themes["base16-ocean.dark"];
    let mut cache = CodeCache::new();
    let stored = Some((upload.content.clone(), upload.language.clone()));
    match stored_reply(&mut cache, true, "ABCDEFGH23", stored, Ok(1_000), theme, &syntax_set).unwrap() {
        DocumentReply::Raw { body } => assert_eq!(body, "caf\u{e9} \u{fffd}!"),
        other => panic!("unexpected {other:?}"),
    }
}
