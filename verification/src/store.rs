//! The document store as the service uses it: a row is inserted when an
//! upload is saved, looked up by id when a document is read, and rows saved
//! before a cutoff are deleted by the hourly task. The store itself is a
//! database table that the server queries; the row it inserts is built here,
//! and the spec functions below describe what the three queries do to the
//! table, so that laws over saving, reading and deleting can be stated.

use vstd::prelude::*;
use crate::config::Config;
use crate::document::AsthoBin;
use crate::paste::{lossy_utf8, NewDocument};

verus! {

/// The row inserted for an upload prepared as `document`, saved under `id` at `time`.
pub fn upload_row(id: &str, document: &NewDocument, time: i64) -> (r: AsthoBin)
    ensures
        r.id@ == id@,
        r.content@ == document.content@,
        r.language@ == document.language@,
        r.time == time,
{
    AsthoBin {
        id: String::from_str(id),
        content: document.content.clone(),
        language: document.language.clone(),
        time,
    }
}

/// The store once `row` is inserted.
pub open spec fn saved(
    store: Map<Seq<char>, (Seq<char>, Seq<char>, i64)>,
    row: AsthoBin,
) -> Map<Seq<char>, (Seq<char>, Seq<char>, i64)> {
    store.insert(row.id@, (row.content@, row.language@, row.time))
}

/// What the store hands the reader of `id`: its text and language, if it holds it.
pub open spec fn looked_up(
    store: Map<Seq<char>, (Seq<char>, Seq<char>, i64)>,
    id: Seq<char>,
) -> Option<(Seq<char>, Seq<char>)> {
    if store.contains_key(id) {
        Some((store[id].0, store[id].1))
    } else {
        None
    }
}

/// The store once every row saved before `cutoff` is deleted.
pub open spec fn deleted_before(
    store: Map<Seq<char>, (Seq<char>, Seq<char>, i64)>,
    cutoff: int,
) -> Map<Seq<char>, (Seq<char>, Seq<char>, i64)> {
    store.restrict(store.dom().filter(|k: Seq<char>| store[k].2 >= cutoff))
}

/// The cutoff of the deletion run at `now` under `config`.
pub open spec fn cutoff_at(config: Config, now: i64) -> int {
    now - config.delete_time
}

/// Law: the row of an upload whose body was `body` (its text decoded from
/// `body`, each invalid UTF-8 sequence replaced, as `prepare_document` does) is
/// read back with that text and its language, and so it still is after a
/// deletion whose cutoff is not after the row's time. What is read back is
/// what `stored_reply` answers a raw request with.
pub proof fn law_saved_upload_reads_back(
    store: Map<Seq<char>, (Seq<char>, Seq<char>, i64)>,
    row: AsthoBin,
    body: Seq<u8>,
    cutoff: int,
)
    requires
        row.content@ == lossy_utf8(body),
        cutoff <= row.time,
    ensures
        looked_up(saved(store, row), row.id@) == Some((lossy_utf8(body), row.language@)),
        looked_up(deleted_before(saved(store, row), cutoff), row.id@) == Some((lossy_utf8(body), row.language@)),
{
    let s = saved(store, row);
    assert(s.dom().filter(|k: Seq<char>| s[k].2 >= cutoff).contains(row.id@));
}

/// Law: a deletion repeated at the same clock removes nothing more, and a
/// deletion at a later clock removes what it would have removed alone.
pub proof fn law_repeated_deletion(
    config: Config,
    store: Map<Seq<char>, (Seq<char>, Seq<char>, i64)>,
    now: i64,
    later: i64,
)
    requires
        now <= later,
    ensures
        deleted_before(deleted_before(store, cutoff_at(config, now)), cutoff_at(config, now))
            == deleted_before(store, cutoff_at(config, now)),
        deleted_before(deleted_before(store, cutoff_at(config, now)), cutoff_at(config, later))
            == deleted_before(store, cutoff_at(config, later)),
{
    let c1 = cutoff_at(config, now);
    let c2 = cutoff_at(config, later);
    let once = deleted_before(store, c1);
    assert(deleted_before(once, c1) =~= once);
    assert(deleted_before(once, c2) =~= deleted_before(store, c2));
}

} // verus!
