use deadlinkrs::{Cache, Link};

fn link() -> Link {
    Link::new(&"https://example.com".to_string())
}

#[test]
fn cache_new() {
    let cache = Cache::new();

    assert_eq!(cache.len(), 0);
}

#[test]
fn cache_inserts() {
    let mut cache = Cache::new();

    cache.inserts(&link());

    assert_eq!(cache.len(), 1);
}

#[test]
fn not_contain_when_new() {
    let cache = Cache::new();

    assert!(!cache.contains(&Link::new(&"".to_string())));
    assert!(!cache.contains(&link()));
}

#[test]
fn contains_after_inserted() {
    let mut cache = Cache::new();

    cache.inserts(&link());

    assert!(cache.contains(&link()));
}

#[test]
fn not_contains_different_link() {
    let mut cache = Cache::new();

    cache.inserts(&link());

    assert!(!cache.contains(&Link::new(&"".to_string())));
}

#[test]
fn inserts_twice_keeps_one() {
    let mut cache = Cache::new();

    cache.inserts(&link());
    cache.inserts(&link());

    assert_eq!(cache.len(), 1);
    assert!(cache.contains(&link()));
}

#[test]
fn contains_stays_true_after_other_inserts() {
    let mut cache = Cache::new();
    let other = Link::new(&"https://example.com/other".to_string());
    let third = Link::new(&"https://example.org".to_string());

    cache.inserts(&link());
    assert!(cache.contains(&link()));

    cache.inserts(&other);
    assert!(cache.contains(&link()));

    cache.inserts(&third);
    assert!(cache.contains(&link()));
    assert!(cache.contains(&other));
    assert_eq!(cache.len(), 3);
}

#[test]
fn contains_compares_exact_text() {
    let mut cache = Cache::new();

    cache.inserts(&link());

    assert!(!cache.contains(&Link::new(&"https://example.com/".to_string())));
    assert!(!cache.contains(&Link::new(&"https://EXAMPLE.com".to_string())));
    assert!(!cache.contains(&Link::new(&"http://example.com".to_string())));
}

#[test]
fn default_cache_is_empty() {
    let cache = Cache::default();

    assert_eq!(cache.len(), 0);
    assert!(!cache.contains(&link()));
}
