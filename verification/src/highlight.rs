//! Syntax highlighting of a document into HTML. The highlighting is syntect's;
//! choosing the syntax and cleaning the produced HTML is this library's.

use vstd::prelude::*;
use syntect::highlighting::{Color, Theme, ThemeSet};
use syntect::parsing::{SyntaxReference, SyntaxSet};
use crate::config::is_internal_log;
use crate::error::ApiError;
use crate::text::{replace_all, replace_text};

verus! {

#[verifier::external_type_specification]
#[verifier::external_body]
pub struct ExSyntaxSet(SyntaxSet);

#[verifier::external_type_specification]
#[verifier::external_body]
pub struct ExSyntaxReference(SyntaxReference);

#[verifier::external_type_specification]
#[verifier::external_body]
pub struct ExTheme(Theme);

#[verifier::external_type_specification]
#[verifier::external_body]
pub struct ExThemeSet(ThemeSet);

#[verifier::external_type_specification]
#[verifier::external_body]
pub struct ExSyntectError(syntect::Error);

/// The inline style that syntect puts on the highlighted block for a white
/// background; the page supplies its own background, so it is removed.
pub const BACKGROUND_STYLE: &'static str = " style=\"background-color:#ffffff;\"";

/// The name of the syntax used when no syntax matches the requested language.
pub const PLAIN_TEXT: &'static str = "Plain Text";

/// `html` with every inline white-background style removed.
pub open spec fn strip_background(html: Seq<char>) -> Seq<char> {
    replace_all(html, BACKGROUND_STYLE@, ""@)
}

/// The syntax that `SyntaxSet::find_syntax_by_token` finds in `set` for `token`.
pub uninterp spec fn syntax_for_token(set: SyntaxSet, token: Seq<char>) -> Option<SyntaxReference>;

/// The syntax that `SyntaxSet::find_syntax_by_name` finds in `set` for `name`.
pub uninterp spec fn syntax_named(set: SyntaxSet, name: Seq<char>) -> Option<SyntaxReference>;

/// The HTML that `syntect::html::highlighted_html_for_string` makes of
/// `content` in `syntax` of `set` with `theme`, or none where it fails.
pub uninterp spec fn highlighted(
    content: Seq<char>,
    set: SyntaxSet,
    syntax: SyntaxReference,
    theme: Theme,
) -> Option<Seq<char>>;

/// `SyntaxSet::find_syntax_by_token` of syntect: the last syntax of the set
/// one of whose file extensions equals `token` ignoring ASCII case, else the
/// last one whose name does. It reads only the set and the token, so its
/// result is named.
#[verifier::external_body]
fn find_syntax_by_token<'a>(syntax_set: &'a SyntaxSet, token: &str) -> (r: Option<&'a SyntaxReference>)
    ensures
        r.is_some() == syntax_for_token(*syntax_set, token@).is_some(),
        r.is_some() ==> *r.unwrap() == syntax_for_token(*syntax_set, token@).unwrap(),
{
    syntax_set.find_syntax_by_token(token)
}

/// `SyntaxSet::find_syntax_by_name` of syntect: the last syntax of the set
/// named exactly `name`, if any. Named, as above.
#[verifier::external_body]
fn find_syntax_by_name<'a>(syntax_set: &'a SyntaxSet, name: &str) -> (r: Option<&'a SyntaxReference>)
    ensures
        r.is_some() == syntax_named(*syntax_set, name@).is_some(),
        r.is_some() ==> *r.unwrap() == syntax_named(*syntax_set, name@).unwrap(),
{
    syntax_set.find_syntax_by_name(name)
}

/// `SyntaxSet::find_syntax_plain_text` of syntect: `find_syntax_by_name`
/// with "Plain Text", which panics when the set has no such syntax; the
/// `requires` keeps that case out.
#[verifier::external_body]
fn find_syntax_plain_text(syntax_set: &SyntaxSet) -> (r: &SyntaxReference)
    requires
        syntax_named(*syntax_set, PLAIN_TEXT@) is Some,
    ensures
        *r == syntax_named(*syntax_set, PLAIN_TEXT@).unwrap(),
{
    syntax_set.find_syntax_plain_text()
}

/// `syntax` is one that `set` hands out, by token or by name.
pub open spec fn syntax_of_set(set: SyntaxSet, syntax: SyntaxReference) -> bool {
    ||| exists|t: Seq<char>| #[trigger] syntax_for_token(set, t) == Some(syntax)
    ||| exists|n: Seq<char>| #[trigger] syntax_named(set, n) == Some(syntax)
}

/// `syntect::html::highlighted_html_for_string`: the HTML of `content`
/// highlighted with `syntax` of `syntax_set` and `theme`, or an error. It
/// reads only its arguments, so its outcome is named.
#[verifier::external_body]
fn highlighted_html_for_string(
    content: &str,
    syntax_set: &SyntaxSet,
    syntax: &SyntaxReference,
    theme: &Theme,
) -> (r: Result<String, syntect::Error>)
    requires
        syntax_of_set(*syntax_set, *syntax),
    ensures
        r.is_ok() == highlighted(content@, *syntax_set, *syntax, *theme).is_some(),
        r.is_ok() ==> r.unwrap()@ == highlighted(content@, *syntax_set, *syntax, *theme).unwrap(),
{
    syntect::html::highlighted_html_for_string(content, syntax_set, syntax, theme)
}

/// The syntax `language` is highlighted in: the one its token finds, else
/// the syntax named "Plain Text".
pub open spec fn chosen_syntax(set: SyntaxSet, language: Seq<char>) -> Option<SyntaxReference> {
    match syntax_for_token(set, language) {
        Some(x) => Some(x),
        None => syntax_named(set, PLAIN_TEXT@),
    }
}

/// The highlighted HTML of `content` in `syntax`, without the white-background
/// style, or none where highlighting fails.
pub open spec fn highlight_in(
    content: Seq<char>,
    set: SyntaxSet,
    syntax: SyntaxReference,
    theme: Theme,
) -> Option<Seq<char>> {
    match highlighted(content, set, syntax, theme) {
        Some(h) => Some(strip_background(h)),
        None => None,
    }
}

/// What `content` becomes when highlighted for `language`: the cleaned HTML
/// in the chosen syntax, or none where no syntax is found or highlighting fails.
pub open spec fn highlight_result(
    content: Seq<char>,
    language: Seq<char>,
    set: SyntaxSet,
    theme: Theme,
) -> Option<Seq<char>> {
    match chosen_syntax(set, language) {
        Some(x) => highlight_in(content, set, x, theme),
        None => None,
    }
}

/// Law: a language whose token finds a syntax is highlighted in that syntax,
/// whatever the language's name: the result is that syntax's HTML, cleaned.
pub proof fn law_found_language_is_used(
    content: Seq<char>,
    language: Seq<char>,
    set: SyntaxSet,
    theme: Theme,
    x: SyntaxReference,
)
    requires
        syntax_for_token(set, language) == Some(x),
    ensures
        highlight_result(content, language, set, theme) == highlight_in(content, set, x, theme),
        highlight_result(content, language, set, theme) == match highlighted(content, set, x, theme) {
            Some(h) => Some(replace_all(h, BACKGROUND_STYLE@, ""@)),
            None => None,
        },
{
}

/// Law: a language that no syntax answers to is highlighted exactly as plain text.
pub proof fn law_unknown_language_is_plain_text(
    content: Seq<char>,
    language: Seq<char>,
    set: SyntaxSet,
    theme: Theme,
)
    requires
        syntax_for_token(set, language) is None,
    ensures
        highlight_result(content, language, set, theme) == match syntax_named(set, PLAIN_TEXT@) {
            Some(plain) => highlight_in(content, set, plain, theme),
            None => None,
        },
{
}

/// The `Display` text of a syntect error; not stated.
#[verifier::external_body]
fn syntect_error_text(e: &syntect::Error) -> String {
    e.to_string()
}

/// What becomes of the highlighter's outcome: the HTML without its
/// white-background style, or a syntect error carrying the highlighter's message.
pub fn finish_highlight(raw: Result<String, String>) -> (r: Result<String, ApiError>)
    ensures
        match raw {
            Ok(html) => r matches Ok(s) && s@ == strip_background(html@),
            Err(m) => r matches Err(ApiError::Syntect(n)) && n@ == m@,
        },
{
    match raw {
        Ok(html) => {
            proof {
                reveal_strlit(" style=\"background-color:#ffffff;\"");
            }
            Ok(replace_text(html.as_str(), BACKGROUND_STYLE, ""))
        },
        Err(m) => Err(ApiError::Syntect(m)),
    }
}

/// Whether `language` can be highlighted with `set`: its token finds a
/// syntax, or the set has the plain-text syntax to fall back on.
pub open spec fn syntax_available(set: SyntaxSet, language: Seq<char>) -> bool {
    chosen_syntax(set, language) is Some
}

/// Whether `language` can be highlighted with `syntax_set`; where it cannot,
/// highlighting would find no syntax at all.
pub fn can_highlight(language: &str, syntax_set: &SyntaxSet) -> (r: bool)
    ensures
        r == syntax_available(*syntax_set, language@),
{
    find_syntax_by_token(syntax_set, language).is_some() || find_syntax_by_name(syntax_set, PLAIN_TEXT).is_some()
}

/// `content` highlighted as HTML in the syntax that `language` names, or as
/// plain text when no syntax matches it, without the white-background style.
/// The syntax set must have a syntax for the language or the plain-text one.
pub fn highlight_string(
    content: &str,
    language: &str,
    syntect_theme: &Theme,
    syntax_set: &SyntaxSet,
) -> (r: Result<String, ApiError>)
    requires
        syntax_available(*syntax_set, language@),
    ensures
        match highlight_result(content@, language@, *syntax_set, *syntect_theme) {
            Some(o) => r matches Ok(s) && s@ == o,
            None => r matches Err(ApiError::Syntect(_)),
        },
        syntax_for_token(*syntax_set, language@) matches Some(x) ==> match highlighted(content@, *syntax_set, x, *syntect_theme) {
            Some(h) => r matches Ok(s) && s@ == replace_all(h, BACKGROUND_STYLE@, ""@),
            None => r matches Err(ApiError::Syntect(_)),
        },
        syntax_for_token(*syntax_set, language@) is None ==> match highlighted(
            content@,
            *syntax_set,
            syntax_named(*syntax_set, "Plain Text"@).unwrap(),
            *syntect_theme,
        ) {
            Some(h) => r matches Ok(s) && s@ == replace_all(h, BACKGROUND_STYLE@, ""@),
            None => r matches Err(ApiError::Syntect(_)),
        },
{
    let syntax = match find_syntax_by_token(syntax_set, language) {
        Some(found) => found,
        None => find_syntax_plain_text(syntax_set),
    };
    assert(syntax_of_set(*syntax_set, *syntax)) by {
        if syntax_for_token(*syntax_set, language@) is Some {
            assert(syntax_for_token(*syntax_set, language@) == Some(*syntax));
        } else {
            assert(syntax_named(*syntax_set, PLAIN_TEXT@) == Some(*syntax));
        }
    }
    let raw = match highlighted_html_for_string(content, syntax_set, syntax, syntect_theme) {
        Ok(html) => Ok(html),
        Err(e) => Err(syntect_error_text(&e)),
    };
    finish_highlight(raw)
}

/// The theme documents are shown in.
pub const PAGE_THEME: &'static str = "base16-ocean.dark";

/// The error logged when the page theme is not among the themes.
pub const THEME_MISSING_MESSAGE: &'static str = "The theme 'base16-ocean.dark' is not present.";

/// The theme that `themes` holds under `name`, if any.
pub uninterp spec fn theme_in(themes: ThemeSet, name: Seq<char>) -> Option<Theme>;

/// `theme` with its background setting replaced by the colour `(r, g, b, a)`.
pub uninterp spec fn with_background(theme: Theme, r: u8, g: u8, b: u8, a: u8) -> Theme;

/// `BTreeMap::remove` on the `themes` map of a syntect `ThemeSet`: the theme
/// held under `name`, taken out of the set, if there is one. It reads only the
/// set and the name, so its result is named.
#[verifier::external_body]
fn take_theme(themes: ThemeSet, name: &str) -> (r: Option<Theme>)
    ensures
        r == theme_in(themes, name@),
{
    let mut themes = themes;
    themes.themes.remove(name)
}

/// Sets the `background` field of a syntect theme's settings to the colour
/// `(r, g, b, a)`, leaving the rest of the theme as it was. Named, as above.
#[verifier::external_body]
fn set_background(theme: Theme, r: u8, g: u8, b: u8, a: u8) -> (t: Theme)
    ensures
        t == with_background(theme, r, g, b, a),
{
    let mut theme = theme;
    theme.settings.background = Some(Color { r, g, b, a });
    theme
}

/// The theme documents are highlighted with: the page theme of `themes`, its
/// background made white and fully transparent (so the highlighted block takes
/// the page's own background). Without the page theme, an internal error.
pub fn page_theme(themes: ThemeSet) -> (r: Result<Theme, ApiError>)
    ensures
        match theme_in(themes, PAGE_THEME@) {
            None => r matches Err(e) && is_internal_log(e, THEME_MISSING_MESSAGE@),
            Some(t) => r matches Ok(x) && x == with_background(t, 255, 255, 255, 0),
        },
{
    match take_theme(themes, PAGE_THEME) {
        None => Err(ApiError::new_log_internal(String::from_str(THEME_MISSING_MESSAGE))),
        Some(theme) => Ok(set_background(theme, 255, 255, 255, 0)),
    }
}

} // verus!
