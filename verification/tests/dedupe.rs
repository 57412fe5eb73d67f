use imessage_bot::dedupe::{DedupeCache, CACHE_EVICT, CACHE_LIMIT};

#[test]
fn cache_remembers_each_id_once() {
    let mut cache = DedupeCache::new();
    assert_eq!(cache.len(), 0);
    assert!(!cache.contains("a"));
    cache.insert("a".to_string());
    cache.insert("b".to_string());
    cache.insert("a".to_string());
    assert_eq!(cache.len(), 2);
    assert!(cache.contains("a"));
    assert!(cache.contains("b"));
    assert!(!cache.contains("c"));
    assert!(!cache.contains(""));
}

#[test]
fn compaction_leaves_a_small_cache_alone() {
    let mut cache = DedupeCache::new();
    for i in 0..CACHE_LIMIT {
        cache.insert(format!("id-{}", i));
    }
    assert_eq!(cache.len(), 1000);
    cache.compact();
    assert_eq!(cache.len(), 1000);
    assert!(cache.contains("id-0"));
    assert!(cache.contains("id-999"));
}

#[test]
fn compaction_drops_the_oldest_half_past_the_limit() {
    assert_eq!(CACHE_LIMIT, 1000);
    assert_eq!(CACHE_EVICT, 500);
    let mut cache = DedupeCache::new();
    for i in 0..1001 {
        cache.insert(format!("id-{}", i));
    }
    assert_eq!(cache.len(), 1001);
    cache.compact();
    assert_eq!(cache.len(), 501);
    assert!(!cache.contains("id-0"));
    assert!(!cache.contains("id-499"));
    assert!(cache.contains("id-500"));
    assert!(cache.contains("id-1000"));
    // an evicted id can be remembered again
    cache.insert("id-0".to_string());
    assert_eq!(cache.len(), 502);
    assert!(cache.contains("id-0"));
}
