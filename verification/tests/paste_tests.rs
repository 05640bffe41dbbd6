use asthobin::cache::CodeCache;
use asthobin::error::ApiError;
use asthobin::paste::{
    cache_new_document, document_id_from_indices, generate_document_id, prepare_document, saved_reply,
    select_language, ALPHABET, ID_LENGTH,
};
use syntect::highlighting::ThemeSet;
use syntect::parsing::SyntaxSet;

#[test]
fn language_from_the_header() {
    assert_eq!(select_language(None), "Plain Text");
    assert_eq!(select_language(Some(b"rust")), "rust");
    assert_eq!(select_language(Some(b"postgresql")), "sql");
    assert_eq!(select_language(Some(b"sql")), "sql");
    assert_eq!(select_language(Some(b"SQL")), "SQL");
    assert_eq!(select_language(Some(b"with\ttab")), "with\ttab");
    assert_eq!(select_language(Some(&[0x63, 0x80])), "Plain Text");
    assert_eq!(select_language(Some(&[0x7f])), "Plain Text");
    assert_eq!(select_language(Some(b"")), "");
}

#[test]
fn ids_are_made_from_the_alphabet() {
    assert_eq!(document_id_from_indices(&[0, 1, 2, 31, 24]), "ABC92");
    assert_eq!(document_id_from_indices(&[]), "");
    for _ in 0..50 {
        let id = generate_document_id();
        assert_eq!(id.chars().count(), ID_LENGTH);
        assert!(id.chars().all(|c| ALPHABET.contains(c)));
    }
}

#[test]
fn blank_uploads_are_refused() {
    for body in [&b""[..], b"   ", b"\n\t \r\n"] {
        match prepare_document(body, None) {
            Err(ApiError::Custom { status_code, log_message, http_message }) => {
                assert_eq!(status_code, 400);
                assert!(log_message.is_none());
                assert_eq!(http_message.as_deref(), Some("This file is empty."));
            }
            other => panic!("unexpected {other:?}"),
        }
    }
}

#[test]
fn uploads_are_read_lossily() {
    let doc = prepare_document(b"  print(1)\n", Some(b"python")).unwrap();
    assert_eq!(doc.content, "  print(1)\n");
    assert_eq!(doc.language, "python");
    let doc = prepare_document(&[b'a', 0xff, b'b'], None).unwrap();
    assert_eq!(doc.content, "a\u{fffd}b");
    assert_eq!(doc.language, "Plain Text");
}

#[test]
fn a_saved_document_is_cached_highlighted() {
    let syntax_set = SyntaxSet::load_defaults_newlines();
    let themes = ThemeSet::load_defaults();
    let theme = &themes.themes["base16-ocean.dark"];
    let mut cache = CodeCache::new();
    let doc = prepare_document(b"SELECT 1;\n", Some(b"mysql")).unwrap();
    assert_eq!(doc.language, "sql");
    cache_new_document(&mut cache, "ZZZZZZZZZZ", &doc, 42, theme, &syntax_set).unwrap();
    let (html, language) = cache.get("ZZZZZZZZZZ").unwrap();
    assert_eq!(language, "sql");
    assert!(html.contains("SELECT"));
    assert!(!html.contains(" style=\"background-color:#ffffff;\""));
}

#[test]
fn the_saved_reply_points_to_the_document() {
    let reply = saved_reply("ABCDEFGH23");
    assert_eq!(reply.location, "/ABCDEFGH23");
    assert_eq!(reply.body, "{\"key\":\"ABCDEFGH23\",\"status\":\"success\"}");
}
