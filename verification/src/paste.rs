//! Saving a new document: reading the uploaded text, choosing its language,
//! naming it with a fresh id, caching its highlighted form, and the reply.

use vstd::prelude::*;
use vstd::utf8::{decode_utf8, valid_utf8};
use rand::RngExt;
use syntect::highlighting::Theme;
use syntect::parsing::SyntaxSet;
use crate::cache::CodeCache;
use crate::error::{ApiError, STATUS_BAD_REQUEST};
use crate::highlight::{highlight_result, highlight_string, syntax_available};
use crate::json::{failure_body, success_body, success_json};
use crate::text::{contains, contains_text, is_blank, is_blank_text, chars_of, string_push};

verus! {

/// The language of a document uploaded without one.
pub const DEFAULT_SYNTAX: &'static str = "Plain Text";

/// The characters of which document ids are made: upper-case letters and
/// digits, without the easily confused `I`, `O`, `0` and `1`.
pub const ALPHABET: &'static str = "ABCDEFGHJKLMNPQRSTUVWXYZ23456789";

/// The number of characters in a document id.
pub const ID_LENGTH: usize = 10;

/// The reply to an upload that holds nothing but white space.
pub const EMPTY_FILE_MESSAGE: &'static str = "This file is empty.";

/// What `String::from_utf8_lossy` makes of `bytes`.
pub uninterp spec fn lossy_utf8(bytes: Seq<u8>) -> Seq<char>;

/// `String::from_utf8_lossy` of std, made an owned `String`: the text that
/// `bytes` encode, each invalid sequence replaced by U+FFFD. Its
/// documentation gives that valid UTF-8 comes back unchanged; the rest is named.
#[verifier::external_body]
fn from_utf8_lossy(bytes: &[u8]) -> (r: String)
    ensures
        r@ == lossy_utf8(bytes@),
        valid_utf8(bytes@) ==> r@ == decode_utf8(bytes@),
{
    String::from_utf8_lossy(bytes).to_string()
}

/// A header byte that `HeaderValue::to_str` accepts: visible ASCII or a tab.
pub open spec fn is_visible_ascii(b: u8) -> bool {
    (32 <= b && b < 127) || b == 9
}

/// The bytes of a header value read as text, one character per byte.
pub open spec fn ascii_text(bytes: Seq<u8>) -> Seq<char> {
    Seq::new(bytes.len(), |i: int| bytes[i] as char)
}

/// `HeaderValue::to_str` of the `http` crate (through actix-web), on the
/// value made of `bytes`: the text when every byte is visible ASCII or a tab,
/// nothing otherwise. `HeaderValue::from_bytes` rejects only bytes that
/// `to_str` rejects too.
#[verifier::external_body]
fn header_value_to_str(bytes: &[u8]) -> (r: Option<String>)
    ensures
        r.is_some() == (forall|i: int| 0 <= i < bytes@.len() ==> is_visible_ascii(#[trigger] bytes@[i])),
        r.is_some() ==> r.unwrap()@ == ascii_text(bytes@),
{
    match actix_web::http::header::HeaderValue::from_bytes(bytes) {
        Ok(value) => match value.to_str() {
            Ok(text) => Some(text.to_owned()),
            Err(_) => None,
        },
        Err(_) => None,
    }
}

/// `rand::rng().random_range(0..bound)` of rand: a number below `bound`,
/// drawn by chance.
#[verifier::external_body]
fn random_below(bound: usize) -> (r: usize)
    requires
        bound > 0,
    ensures
        r < bound,
{
    rand::rng().random_range(0..bound)
}

/// The language a document is saved with, given its `Language` header: the
/// header's text, or the default syntax where there is no header or it is not
/// visible ASCII; any language that mentions `sql` is saved as `sql`.
pub open spec fn language_of(header: Option<Seq<u8>>) -> Seq<char> {
    let requested = match header {
        Some(b) => if (forall|i: int| 0 <= i < b.len() ==> is_visible_ascii(#[trigger] b[i])) {
            ascii_text(b)
        } else {
            DEFAULT_SYNTAX@
        },
        None => DEFAULT_SYNTAX@,
    };
    if contains(requested, "sql"@) {
        "sql"@
    } else {
        requested
    }
}

/// Law: whenever the language a document is saved with mentions `sql`, it is
/// exactly `sql`.
pub proof fn law_sql_language(header: Option<Seq<u8>>)
    ensures
        contains(language_of(header), "sql"@) ==> language_of(header) == "sql"@,
{
}

/// The language a document is saved with, given the bytes of its `Language`
/// header, if it came with one.
pub fn select_language(header: Option<&[u8]>) -> (r: String)
    ensures
        r@ == language_of(
            match header {
                Some(b) => Some(b@),
                None => None,
            },
        ),
{
    let requested = match header {
        Some(b) => match header_value_to_str(b) {
            Some(text) => text,
            None => String::from_str(DEFAULT_SYNTAX),
        },
        None => String::from_str(DEFAULT_SYNTAX),
    };
    if contains_text(requested.as_str(), "sql") {
        String::from_str("sql")
    } else {
        requested
    }
}

/// The id made of the alphabet's characters at `indices`, in order.
pub open spec fn id_from_indices(indices: Seq<usize>) -> Seq<char> {
    Seq::new(indices.len(), |i: int| ALPHABET@[indices[i] as int])
}

/// A text that can be a document id: `ID_LENGTH` characters of the alphabet.
pub open spec fn is_document_id(id: Seq<char>) -> bool {
    &&& id.len() == ID_LENGTH
    &&& forall|i: int| 0 <= i < id.len() ==> ALPHABET@.contains(#[trigger] id[i])
}

/// The id made of the alphabet's characters at `indices`.
pub fn document_id_from_indices(indices: &[usize]) -> (r: String)
    requires
        forall|i: int| 0 <= i < indices@.len() ==> #[trigger] indices@[i] < 32,
    ensures
        r@ == id_from_indices(indices@),
{
    proof {
        reveal_strlit("ABCDEFGHJKLMNPQRSTUVWXYZ23456789");
    }
    let alphabet = chars_of(ALPHABET);
    let mut id = String::new();
    let mut i: usize = 0;
    while i < indices.len()
        invariant
            alphabet@ == ALPHABET@,
            alphabet@.len() == 32,
            i <= indices@.len(),
            forall|k: int| 0 <= k < indices@.len() ==> #[trigger] indices@[k] < 32,
            id@ == id_from_indices(indices@.take(i as int)),
        decreases indices.len() - i,
    {
        let c = alphabet[indices[i]];
        string_push(&mut id, c);
        assert(id_from_indices(indices@.take(i + 1)) =~= id_from_indices(indices@.take(i as int)).push(c));
        i = i + 1;
    }
    assert(indices@.take(indices@.len() as int) =~= indices@);
    id
}

/// A fresh document id: `ID_LENGTH` characters of the alphabet, each drawn by chance.
pub fn generate_document_id() -> (r: String)
    ensures
        is_document_id(r@),
{
    proof {
        reveal_strlit("ABCDEFGHJKLMNPQRSTUVWXYZ23456789");
    }
    let mut indices: Vec<usize> = Vec::new();
    let mut i: usize = 0;
    while i < ID_LENGTH
        invariant
            i <= ID_LENGTH,
            indices@.len() == i,
            forall|k: int| 0 <= k < indices@.len() ==> #[trigger] indices@[k] < 32,
        decreases ID_LENGTH - i,
    {
        indices.push(random_below(32));
        i = i + 1;
    }
    let id = document_id_from_indices(indices.as_slice());
    assert forall|k: int| 0 <= k < id@.len() implies ALPHABET@.contains(#[trigger] id@[k]) by {
        assert(ALPHABET@[indices@[k] as int] == id@[k]);
    }
    id
}

/// What an upload is saved as: its text and its language.
#[derive(Debug)]
pub struct NewDocument {
    pub content: String,
    pub language: String,
}

/// Reads an upload: its body as text and its language. A body with nothing
/// but white space is refused with a 400 whose message is sent back.
pub fn prepare_document(body: &[u8], language_header: Option<&[u8]>) -> (r: Result<
    NewDocument,
    ApiError,
>)
    ensures
        is_blank(lossy_utf8(body@)) ==> (r matches Err(
            ApiError::Custom { status_code, log_message: None, http_message: Some(m) },
        ) && status_code == STATUS_BAD_REQUEST && m@ == EMPTY_FILE_MESSAGE@),
        !is_blank(lossy_utf8(body@)) ==> (r matches Ok(d) && d.content@ == lossy_utf8(body@)
            && d.language@ == language_of(
            match language_header {
                Some(b) => Some(b@),
                None => None,
            },
        )),
        r matches Err(e) ==> e.wf(),
        valid_utf8(body@) ==> lossy_utf8(body@) == decode_utf8(body@),
{
    let content = from_utf8_lossy(body);
    if is_blank_text(content.as_str()) {
        return Err(ApiError::new_message(STATUS_BAD_REQUEST, String::from_str(EMPTY_FILE_MESSAGE)));
    }
    let language = select_language(language_header);
    Ok(NewDocument { content, language })
}

/// Law: the error with which a blank upload is refused is answered with
/// status 400, logs nothing, and sends
/// `{"message":"This file is empty.","status":"failed"}`.
pub proof fn law_blank_upload_answer(e: ApiError)
    requires
        e matches ApiError::Custom { status_code, log_message: None, http_message: Some(m) }
            && status_code == STATUS_BAD_REQUEST && m@ == EMPTY_FILE_MESSAGE@,
    ensures
        e.reply_status() == STATUS_BAD_REQUEST,
        e.reply_log() is None,
        e.reply_body() == Some(failure_body(EMPTY_FILE_MESSAGE@)),
{
}

/// Caches the highlighted form of a document just saved under `id` at `time`.
/// The cache is left as it was when highlighting fails. The syntax set must
/// have a syntax for the document's language or the plain-text one.
pub fn cache_new_document(
    cache: &mut CodeCache,
    id: &str,
    document: &NewDocument,
    time: i64,
    syntect_theme: &Theme,
    syntax_set: &SyntaxSet,
) -> (r: Result<(), ApiError>)
    requires
        syntax_available(*syntax_set, document.language@),
    ensures
        match highlight_result(document.content@, document.language@, *syntax_set, *syntect_theme) {
            Some(html) => r is Ok && final(cache).view() == old(cache).view().insert(
                id@,
                (html, document.language@, time),
            ),
            None => (r matches Err(ApiError::Syntect(_))) && final(cache).view() == old(cache).view(),
        },
{
    let html = highlight_string(document.content.as_str(), document.language.as_str(), syntect_theme, syntax_set)?;
    cache.insert(String::from_str(id), html, document.language.clone(), time);
    Ok(())
}

/// The reply to a document saved under `id`: where it can be read, and the JSON body.
#[derive(Debug)]
pub struct SavedReply {
    pub location: String,
    pub body: String,
}

/// The reply to a document saved under `id`.
pub fn saved_reply(id: &str) -> (r: SavedReply)
    ensures
        r.location@ == "/"@ + id@,
        r.body@ == success_body(id@),
{
    let mut location = String::from_str("/");
    location.append(id);
    SavedReply { location, body: success_json(id) }
}

} // verus!
