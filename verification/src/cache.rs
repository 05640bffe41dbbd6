//! The cache of highlighted documents: for each document id, its HTML, its
//! language and the time it was stored. Entries expire an hour after they
//! were stored.

use vstd::prelude::*;
use dashmap::DashMap;

verus! {

#[verifier::external_type_specification]
#[verifier::external_body]
#[verifier::reject_recursive_types(K)]
#[verifier::reject_recursive_types(V)]
#[verifier::reject_recursive_types(S)]
pub struct ExDashMap<K, V, S>(DashMap<K, V, S>);

/// A cached value: the HTML, the language and the time it was stored.
pub type CachedValue = (String, String, i64);

/// The entries a cache map holds: id, then (HTML, language, time stored).
pub uninterp spec fn cached_entries(m: DashMap<String, CachedValue>) -> Map<
    Seq<char>,
    (Seq<char>, Seq<char>, i64),
>;

/// The map with no entries.
pub open spec fn no_entries() -> Map<Seq<char>, (Seq<char>, Seq<char>, i64)> {
    Map::empty()
}

/// The view of one cached value.
pub open spec fn entry_view(v: (String, String, i64)) -> (Seq<char>, Seq<char>, i64) {
    (v.0@, v.1@, v.2)
}

/// How long a cached entry lives, in seconds.
pub const CACHE_TTL_SECS: i64 = 3600;

/// An entry stored at `stored` is still fresh at time `now`.
pub open spec fn is_fresh(stored: i64, now: i64) -> bool {
    stored + CACHE_TTL_SECS > now
}

/// The entries of `m` that are still fresh at `now`.
pub open spec fn expire(
    m: Map<Seq<char>, (Seq<char>, Seq<char>, i64)>,
    now: i64,
) -> Map<Seq<char>, (Seq<char>, Seq<char>, i64)> {
    m.restrict(m.dom().filter(|k: Seq<char>| is_fresh(m[k].2, now)))
}

/// `DashMap::new`: an empty map.
#[verifier::external_body]
fn dashmap_new() -> (m: DashMap<String, CachedValue>)
    ensures
        cached_entries(m) == no_entries(),
{
    DashMap::new()
}

/// `DashMap::get`, the value copied out: the value stored under `key`, if any.
#[verifier::external_body]
fn dashmap_get(m: &DashMap<String, CachedValue>, key: &str) -> (r: Option<CachedValue>)
    ensures
        r.is_some() == cached_entries(*m).contains_key(key@),
        r.is_some() ==> entry_view(r.unwrap()) == cached_entries(*m)[key@],
{
    m.get(key).map(|entry| entry.value().clone())
}

/// `DashMap::insert`: `key` now maps to `value`, whatever it mapped to before;
/// every other key is untouched.
#[verifier::external_body]
fn dashmap_insert(m: &mut DashMap<String, CachedValue>, key: String, value: (String, String, i64))
    ensures
        cached_entries(*final(m)) == cached_entries(*old(m)).insert(key@, entry_view(value)),
{
    m.insert(key, value);
}

/// `DashMap::retain` with a test on the stored time: the entries kept are
/// exactly those stored at a time still fresh at `now`.
#[verifier::external_body]
fn dashmap_retain_fresh(m: &mut DashMap<String, CachedValue>, now: i64)
    ensures
        cached_entries(*final(m)) == expire(cached_entries(*old(m)), now),
{
    m.retain(|_, entry| entry_is_fresh(entry.2, now))
}

/// Whether an entry stored at `stored` is still fresh at `now`.
pub fn entry_is_fresh(stored: i64, now: i64) -> (b: bool)
    ensures
        b == is_fresh(stored, now),
        b == (now - stored < 3600),
{
    (stored as i128) + (CACHE_TTL_SECS as i128) > (now as i128)
}

/// The cache of highlighted documents.
pub struct CodeCache {
    entries: DashMap<String, CachedValue>,
}

impl CodeCache {
    /// The cached entries: id, then (HTML, language, time stored).
    pub closed spec fn view(&self) -> Map<Seq<char>, (Seq<char>, Seq<char>, i64)> {
        cached_entries(self.entries)
    }

    /// An empty cache.
    pub fn new() -> (c: CodeCache)
        ensures
            c.view() == Map::<Seq<char>, (Seq<char>, Seq<char>, i64)>::empty(),
    {
        CodeCache { entries: dashmap_new() }
    }

    /// The HTML and language cached for `id`, if it is cached.
    pub fn get(&self, id: &str) -> (r: Option<(String, String)>)
        ensures
            r.is_some() == self.view().contains_key(id@),
            r matches Some(p) ==> p.0@ == self.view()[id@].0 && p.1@ == self.view()[id@].1,
    {
        match dashmap_get(&self.entries, id) {
            Some((html, language, _)) => Some((html, language)),
            None => None,
        }
    }

    /// Caches `html` and `language` for `id`, stored at `time`, in place of
    /// whatever was cached for it.
    pub fn insert(&mut self, id: String, html: String, language: String, time: i64)
        ensures
            final(self).view() == old(self).view().insert(id@, (html@, language@, time)),
    {
        dashmap_insert(&mut self.entries, id, (html, language, time));
    }

    /// Drops every entry that is no longer fresh at `now`.
    pub fn evict_expired(&mut self, now: i64)
        ensures
            final(self).view() == expire(old(self).view(), now),
    {
        dashmap_retain_fresh(&mut self.entries, now);
    }
}

/// Law: a document cached under `id` is what the cache then gives back for
/// `id`, and every other id is cached as before.
pub proof fn law_get_after_insert(
    before: CodeCache,
    after: CodeCache,
    id: Seq<char>,
    html: Seq<char>,
    language: Seq<char>,
    time: i64,
)
    requires
        after.view() == before.view().insert(id, (html, language, time)),
    ensures
        after.view().contains_key(id),
        after.view()[id].0 == html,
        after.view()[id].1 == language,
        forall|k: Seq<char>| k != id ==> (#[trigger] after.view().contains_key(k) == before.view().contains_key(k)),
        forall|k: Seq<char>| k != id && before.view().contains_key(k) ==> #[trigger] after.view()[k] == before.view()[k],
{
}

/// Law: eviction keeps exactly the fresh entries, unchanged, and evicting
/// again at the same time changes nothing.
pub proof fn law_evict_keeps_fresh(
    m: Map<Seq<char>, (Seq<char>, Seq<char>, i64)>,
    now: i64,
)
    ensures
        forall|k: Seq<char>| #[trigger] expire(m, now).contains_key(k) <==> (m.contains_key(k) && is_fresh(m[k].2, now)),
        forall|k: Seq<char>| #[trigger] expire(m, now).contains_key(k) ==> expire(m, now)[k] == m[k],
        expire(expire(m, now), now) == expire(m, now),
{
    assert(expire(expire(m, now), now) =~= expire(m, now));
}

/// Law: a document cached at `time` is still served from the cache after the
/// eviction run at any `now` within the hour that follows.
pub proof fn law_cached_within_hour(
    m: Map<Seq<char>, (Seq<char>, Seq<char>, i64)>,
    id: Seq<char>,
    html: Seq<char>,
    language: Seq<char>,
    time: i64,
    now: i64,
)
    requires
        now < time + CACHE_TTL_SECS,
    ensures
        expire(m.insert(id, (html, language, time)), now).contains_key(id),
        expire(m.insert(id, (html, language, time)), now)[id] == (html, language, time),
{
}

/// Law: after the eviction run at `now`, an entry is still cached exactly when
/// it was cached before and is less than an hour (3600 s) old at `now`; an
/// entry an hour old or older is gone, whatever its age.
pub proof fn law_eviction_by_age(
    m: Map<Seq<char>, (Seq<char>, Seq<char>, i64)>,
    now: i64,
)
    ensures
        forall|k: Seq<char>| #[trigger] expire(m, now).contains_key(k) <==> (m.contains_key(k) && now - m[k].2 < 3600),
{
}

/// Law: a document cached at `time` is no longer served from the cache after
/// the eviction run at any `now` an hour or more later.
pub proof fn law_expired_after_hour(
    m: Map<Seq<char>, (Seq<char>, Seq<char>, i64)>,
    id: Seq<char>,
    html: Seq<char>,
    language: Seq<char>,
    time: i64,
    now: i64,
)
    requires
        now >= time + 3600,
    ensures
        !expire(m.insert(id, (html, language, time)), now).contains_key(id),
{
}

} // verus!
