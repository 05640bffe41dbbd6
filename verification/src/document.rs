//! Reading a document back: which document a path names, which names are
//! never documents, and what the reader is answered.

use vstd::prelude::*;
use syntect::highlighting::Theme;
use syntect::parsing::SyntaxSet;
use crate::cache::CodeCache;
use crate::error::ApiError;
use crate::highlight::{highlight_result, highlight_string, syntax_available};
use crate::paste::{is_document_id, ALPHABET};
use crate::text::text_equals;

verus! {

/// A stored document: its id, its text, its language and when it was saved.
#[derive(Debug, Clone)]
pub struct AsthoBin {
    pub id: String,
    pub content: String,
    pub language: String,
    pub time: i64,
}

/// The paths under which documents are looked for: `/{document_id}` for the
/// highlighted page, `/raw/{raw_id}` for the text itself.
#[derive(Debug)]
pub struct PathDocument {
    pub document_id: Option<String>,
    pub raw_id: Option<String>,
}

/// Names that crawlers and scanners ask for, which never name a document.
pub open spec fn ignored_documents() -> Seq<Seq<char>> {
    seq!["robots.txt"@, "sitemap.xml"@, "security.txt"@, ".well-known/robots.txt"@, ".htaccess"@]
}

/// The names that never name a document, as the service holds them.
pub fn ignored_document_names() -> (r: Vec<&'static str>)
    ensures
        r@.len() == ignored_documents().len(),
        forall|i: int| 0 <= i < r@.len() ==> #[trigger] r@[i]@ == ignored_documents()[i],
{
    let v = vec!["robots.txt", "sitemap.xml", "security.txt", ".well-known/robots.txt", ".htaccess"];
    v
}

/// Whether `id` is one of the names that never name a document.
pub fn is_ignored_document(id: &str) -> (r: bool)
    ensures
        r == ignored_documents().contains(id@),
{
    let names = ignored_document_names();
    let mut i: usize = 0;
    while i < names.len()
        invariant
            names@.len() == ignored_documents().len(),
            forall|k: int| 0 <= k < names@.len() ==> #[trigger] names@[k]@ == ignored_documents()[k],
            i <= names.len(),
            forall|k: int| 0 <= k < i ==> ignored_documents()[k] != id@,
        decreases names.len() - i,
    {
        if text_equals(names[i], id) {
            assert(ignored_documents()[i as int] == id@);
            return true;
        }
        i = i + 1;
    }
    assert forall|k: int| 0 <= k < ignored_documents().len() implies ignored_documents()[k] != id@ by {}
    false
}

/// What a request for a document asks for.
#[derive(Debug)]
pub enum DocumentRequest {
    /// Both or neither of the two paths matched: the request is malformed.
    BadRequest,
    /// The name is one that never names a document.
    NotFound,
    /// The document `id`, as text (`raw`) or as a highlighted page.
    Fetch { raw: bool, id: String },
}

impl PathDocument {
    /// What the request asks for.
    pub fn resolve(&self) -> (r: DocumentRequest)
        ensures
            match (self.document_id, self.raw_id) {
                (Some(d), None) => if ignored_documents().contains(d@) {
                    r is NotFound
                } else {
                    r matches DocumentRequest::Fetch { raw, id } && !raw && id@ == d@
                },
                (None, Some(d)) => if ignored_documents().contains(d@) {
                    r is NotFound
                } else {
                    r matches DocumentRequest::Fetch { raw, id } && raw && id@ == d@
                },
                _ => r is BadRequest,
            },
    {
        let (is_raw, id): (bool, &String) = match (&self.document_id, &self.raw_id) {
            (Some(document_id), None) => (false, document_id),
            (None, Some(raw_id)) => (true, raw_id),
            _ => {
                return DocumentRequest::BadRequest;
            },
        };
        if is_ignored_document(id.as_str()) {
            return DocumentRequest::NotFound;
        }
        DocumentRequest::Fetch { raw: is_raw, id: id.clone() }
    }
}

/// The highlighted page and language cached for a document, when a page is
/// asked for and the cache holds one; raw text is never served from the cache.
pub fn cached_page(cache: &CodeCache, raw: bool, id: &str) -> (r: Option<(String, String)>)
    ensures
        raw ==> r is None,
        !raw ==> r.is_some() == cache.view().contains_key(id@),
        r matches Some(p) ==> p.0@ == cache.view()[id@].0 && p.1@ == cache.view()[id@].1,
{
    if raw {
        None
    } else {
        cache.get(id)
    }
}

/// What a reader of a document is answered.
#[derive(Debug)]
pub enum DocumentReply {
    /// No such document: the reader is sent to the home page.
    Redirect { location: String },
    /// The document's text, as plain text.
    Raw { body: String },
    /// The highlighted page, with its language and the link to its text.
    Page { code: String, language: String, raw_url: String },
}

/// The link to the text of the document `id`.
pub open spec fn raw_url(id: Seq<char>) -> Seq<char> {
    "/raw/"@ + id
}

/// Law: the raw-text link of every document's page is the `/raw/` route
/// followed by the document's id, so that route's `raw_id` is the id itself.
pub proof fn law_raw_link_names_the_document(id: Seq<char>)
    ensures
        raw_url(id).len() == id.len() + 5,
        raw_url(id).take(5) == "/raw/"@,
        raw_url(id).skip(5) == id,
{
    reveal_strlit("/raw/");
    assert(raw_url(id).take(5) =~= "/raw/"@);
    assert(raw_url(id).skip(5) =~= id);
}

/// Law: no generated document id is one of the names that never name a
/// document, so the request for its raw-text link is answered with its text.
pub proof fn law_document_ids_are_served(id: Seq<char>)
    requires
        is_document_id(id),
    ensures
        !ignored_documents().contains(id),
{
    reveal_strlit("robots.txt");
    reveal_strlit("sitemap.xml");
    reveal_strlit("security.txt");
    reveal_strlit(".well-known/robots.txt");
    reveal_strlit(".htaccess");
    reveal_strlit("ABCDEFGHJKLMNPQRSTUVWXYZ23456789");
    if ignored_documents().contains(id) {
        let i = choose|i: int| 0 <= i < ignored_documents().len() && ignored_documents()[i] == id;
        assert(id.len() == 10);
        assert(i == 0);
        assert(id[0] == 'r');
        assert(ALPHABET@.contains('r'));
        assert(false);
    }
}

/// The page of a document served from the cache.
pub fn cached_reply(id: &str, html: String, language: String) -> (r: DocumentReply)
    ensures
        r matches DocumentReply::Page { code, language: l, raw_url: u } && code@ == html@ && l@
            == language@ && u@ == raw_url(id@),
        r matches DocumentReply::Page { raw_url: u, .. } && u@ == "/raw/"@ + id@,
{
    let mut url = String::from_str("/raw/");
    url.append(id);
    DocumentReply::Page { code: html, language, raw_url: url }
}

/// What a reader is answered once the store has been asked for the document
/// `id` (`stored`: its text and language, if it exists). A highlighted page
/// is cached, stamped with the clock's reading `now`, before it is served;
/// the reading matters only then, and a failed reading is that request's
/// error. The syntax set must have a syntax for the stored language or the
/// plain-text one.
pub fn stored_reply(
    cache: &mut CodeCache,
    raw: bool,
    id: &str,
    stored: Option<(String, String)>,
    now: Result<i64, ApiError>,
    syntect_theme: &Theme,
    syntax_set: &SyntaxSet,
) -> (r: Result<DocumentReply, ApiError>)
    requires
        stored matches Some(s) ==> (!raw ==> syntax_available(*syntax_set, s.1@)),
    ensures
        stored is None ==> (r matches Ok(DocumentReply::Redirect { location }) && location@ == "/"@)
            && final(cache).view() == old(cache).view(),
        stored matches Some(s) ==> raw ==> (r matches Ok(DocumentReply::Raw { body }) && body@
            == s.0@) && final(cache).view() == old(cache).view(),
        stored matches Some(s) ==> !raw ==> match highlight_result(s.0@, s.1@, *syntax_set, *syntect_theme) {
            None => (r matches Err(ApiError::Syntect(_))) && final(cache).view() == old(cache).view(),
            Some(html) => match now {
                Err(e) => r == Err::<DocumentReply, ApiError>(e) && final(cache).view() == old(cache).view(),
                Ok(t) => (r matches Ok(DocumentReply::Page { code, language, raw_url: u }) && code@ == html
                    && language@ == s.1@ && u@ == raw_url(id@) && u@ == "/raw/"@ + id@)
                    && final(cache).view() == old(cache).view().insert(id@, (html, s.1@, t)),
            },
        },
{
    match stored {
        None => Ok(DocumentReply::Redirect { location: String::from_str("/") }),
        Some((content, language)) => {
            if raw {
                Ok(DocumentReply::Raw { body: content })
            } else {
                let document = highlight_string(content.as_str(), language.as_str(), syntect_theme, syntax_set)?;
                let time = now?;
                cache.insert(String::from_str(id), document.clone(), language.clone(), time);
                Ok(cached_reply(id, document, language))
            }
        },
    }
}

} // verus!
