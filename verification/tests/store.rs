//! Tests of the short-link store: round trips, overwrite semantics, absence,
//! and independence of writes to distinct codes.

use short_url::store::ShortLinkStore;

#[test]
fn put_then_get_round_trip() {
    let mut store = ShortLinkStore::new();
    let prev = store.put("abc".to_string(), "https://example.com".to_string());
    assert_eq!(prev, None);
    assert_eq!(store.get("abc"), Some("https://example.com".to_string()));
}

#[test]
fn overwrite_reports_previous_value() {
    let mut store = ShortLinkStore::new();
    let first = store.put("abc".to_string(), "https://a.example".to_string());
    assert_eq!(first, None);
    let second = store.put("abc".to_string(), "https://b.example".to_string());
    assert_eq!(second, Some("https://a.example".to_string()));
    assert_eq!(store.get("abc"), Some("https://b.example".to_string()));
}

#[test]
fn absent_code_reads_none() {
    let store = ShortLinkStore::new();
    assert_eq!(store.get("missing"), None);
}

#[test]
fn distinct_codes_do_not_interfere() {
    let mut store = ShortLinkStore::new();
    let pairs = [
        ("one", "https://example.com/1"),
        ("two", "https://example.com/2"),
        ("three", "https://example.com/3"),
        ("four", "https://example.com/4"),
        ("five", "https://example.com/5"),
    ];
    for (code, destination) in pairs {
        assert_eq!(store.put(code.to_string(), destination.to_string()), None);
    }
    for (code, destination) in pairs {
        assert_eq!(store.get(code), Some(destination.to_string()));
    }
}

#[test]
fn writes_to_one_code_leave_others_alone() {
    let mut store = ShortLinkStore::new();
    store.put("keep".to_string(), "https://example.com/keep".to_string());
    store.put("churn".to_string(), "https://example.com/a".to_string());
    store.put("churn".to_string(), "https://example.com/b".to_string());
    assert_eq!(store.get("keep"), Some("https://example.com/keep".to_string()));
    assert_eq!(store.get("churn"), Some("https://example.com/b".to_string()));
}
