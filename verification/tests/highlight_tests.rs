use asthobin::error::ApiError;
use asthobin::highlight::{can_highlight, finish_highlight, highlight_string, page_theme, BACKGROUND_STYLE};
use syntect::highlighting::{Color, ThemeSet};
use syntect::parsing::SyntaxSet;

#[test]
fn finishing_removes_the_white_background() {
    let raw = "<pre style=\"background-color:#ffffff;\">\n<span>x</span></pre>\n".to_string();
    assert_eq!(finish_highlight(Ok(raw)).unwrap(), "<pre>\n<span>x</span></pre>\n");
    let untouched = "<pre style=\"background-color:#000000;\">y</pre>".to_string();
    assert_eq!(finish_highlight(Ok(untouched.clone())).unwrap(), untouched);
}

#[test]
fn finishing_a_failure_is_a_syntect_error() {
    match finish_highlight(Err("bad regex".to_string())) {
        Err(ApiError::Syntect(m)) => assert_eq!(m, "bad regex"),
        other => panic!("unexpected {other:?}"),
    }
}

#[test]
fn highlighting_with_the_default_sets() {
    let syntax_set = SyntaxSet::load_defaults_newlines();
    let themes = ThemeSet::load_defaults();
    let theme = &themes.themes["base16-ocean.dark"];
    let html = highlight_string("fn main() {}\n", "rs", theme, &syntax_set).unwrap();
    assert!(html.starts_with("<pre"));
    assert!(html.contains("main"));
    assert!(!html.contains(BACKGROUND_STYLE));
    let plain = highlight_string("just <text>\n", "no-such-language", theme, &syntax_set).unwrap();
    assert!(plain.contains("&lt;text&gt;"));
}

#[test]
fn an_unknown_language_is_highlighted_as_plain_text() {
    let syntax_set = SyntaxSet::load_defaults_newlines();
    let themes = ThemeSet::load_defaults();
    let theme = &themes.themes["base16-ocean.dark"];
    let content = "let x = <y>;\n";
    let unknown = highlight_string(content, "no-such-language", theme, &syntax_set).unwrap();
    let plain = highlight_string(content, "Plain Text", theme, &syntax_set).unwrap();
    assert_eq!(unknown, plain);
    let rust = highlight_string(content, "rs", theme, &syntax_set).unwrap();
    assert_ne!(rust, plain);
}

#[test]
fn the_page_theme_has_a_transparent_white_background() {
    let theme = page_theme(ThemeSet::load_defaults()).unwrap();
    assert_eq!(theme.settings.background, Some(Color { r: 255, g: 255, b: 255, a: 0 }));
    let original = &ThemeSet::load_defaults().themes["base16-ocean.dark"];
    assert_eq!(theme.settings.foreground, original.settings.foreground);
}

#[test]
fn without_the_page_theme_an_internal_error_is_logged() {
    match page_theme(ThemeSet::new()) {
        Err(ApiError::Custom { status_code: 500, log_message: Some(m), http_message: None }) => {
            assert_eq!(m, "The theme 'base16-ocean.dark' is not present.")
        }
        other => panic!("unexpected {:?}", other.map(|_| ())),
    }
}

#[test]
fn highlighting_needs_a_syntax_or_plain_text() {
    let defaults = SyntaxSet::load_defaults_newlines();
    assert!(can_highlight("rs", &defaults));
    assert!(can_highlight("no-such-language", &defaults));
    let empty = SyntaxSet::new();
    assert!(!can_highlight("rs", &empty));
    assert!(!can_highlight("Plain Text", &empty));
}
