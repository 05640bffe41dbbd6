use asthobin::cache::{entry_is_fresh, CodeCache, CACHE_TTL_SECS};

#[test]
fn a_cached_page_is_read_back() {
    let mut cache = CodeCache::new();
    assert!(cache.get("ABC").is_none());
    cache.insert("ABC".to_string(), "<pre>a</pre>".to_string(), "rust".to_string(), 1000);
    assert_eq!(cache.get("ABC"), Some(("<pre>a</pre>".to_string(), "rust".to_string())));
    assert!(cache.get("ABD").is_none());
    cache.insert("ABC".to_string(), "<pre>b</pre>".to_string(), "sql".to_string(), 1001);
    assert_eq!(cache.get("ABC"), Some(("<pre>b</pre>".to_string(), "sql".to_string())));
}

#[test]
fn freshness_lasts_one_hour() {
    assert_eq!(CACHE_TTL_SECS, 3600);
    assert!(entry_is_fresh(1000, 1000));
    assert!(entry_is_fresh(1000, 4599));
    assert!(!entry_is_fresh(1000, 4600));
    assert!(entry_is_fresh(i64::MAX, i64::MAX));
    assert!(!entry_is_fresh(i64::MIN, i64::MIN + 3600));
}

#[test]
fn eviction_keeps_only_fresh_entries() {
    let mut cache = CodeCache::new();
    cache.insert("OLD".to_string(), "o".to_string(), "c".to_string(), 0);
    cache.insert("NEW".to_string(), "n".to_string(), "c".to_string(), 5000);
    cache.evict_expired(4000);
    assert!(cache.get("OLD").is_none());
    assert_eq!(cache.get("NEW"), Some(("n".to_string(), "c".to_string())));
    cache.evict_expired(4000);
    assert!(cache.get("NEW").is_some());
    cache.evict_expired(8600);
    assert!(cache.get("NEW").is_none());
}
