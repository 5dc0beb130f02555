use file_sync::error::SyncError;
use file_sync::history::{temporary_path, HistoryElement, HistoryEntry, HistorySource, HistoryStore};

fn element(path: &str, hash: Option<&str>, modified_time: i64, size: Option<u64>) -> HistoryElement {
    HistoryElement {
        file_path: path.to_string(),
        md5_hash: hash.map(|h| h.to_string()),
        modified_time,
        size,
    }
}

fn entry(key: &str, hash: Option<&str>, modified_time: i64) -> HistoryEntry {
    HistoryEntry { key: key.to_string(), element: element(key, hash, modified_time, Some(1)) }
}

#[test]
fn get_on_empty_store_finds_nothing() {
    let store = HistoryStore::new();
    assert!(store.get("/a/b.md").is_none());
    assert!(!store.contains("/a/b.md"));
    assert!(store.is_empty());
    assert_eq!(store.len(), 0);
}

#[test]
fn put_then_get_returns_the_element() {
    let mut store = HistoryStore::new();
    store.put("/a/b.md".to_string(), element("/a/b.md", Some("h1"), 10, Some(3)));
    assert_eq!(store.get("/a/b.md"), Some(&element("/a/b.md", Some("h1"), 10, Some(3))));
    assert!(store.contains("/a/b.md"));
    assert!(store.get("/a/c.md").is_none());
    assert!(!store.is_empty());
    assert_eq!(store.len(), 1);
}

#[test]
fn put_overwrites_the_prior_entry() {
    let mut store = HistoryStore::new();
    store.put("/a/b.md".to_string(), element("/a/b.md", Some("h1"), 10, Some(3)));
    store.put("/a/c.md".to_string(), element("/a/c.md", Some("h2"), 20, Some(4)));
    store.put("/a/b.md".to_string(), element("/a/b.md", None, 11, None));
    assert_eq!(store.get("/a/b.md"), Some(&element("/a/b.md", None, 11, None)));
    assert_eq!(store.get("/a/c.md"), Some(&element("/a/c.md", Some("h2"), 20, Some(4))));
    assert_eq!(store.len(), 2);
}

#[test]
fn keys_are_compared_exactly() {
    let mut store = HistoryStore::new();
    store.put("/a/b.md".to_string(), element("/a/b.md", None, 1, None));
    assert!(store.get("/a/B.md").is_none());
    assert!(store.get("/a/b.md ").is_none());
    assert!(store.get("").is_none());
}

#[test]
fn entries_list_each_key_once() {
    let mut store = HistoryStore::new();
    store.put("/z".to_string(), element("/z", None, 1, Some(1)));
    store.put("/a".to_string(), element("/a", Some("h"), 2, Some(1)));
    store.put("/z".to_string(), element("/z", Some("k"), 3, Some(1)));
    let mut listing = store.entries();
    listing.sort_by(|x, y| x.key.cmp(&y.key));
    assert_eq!(listing, vec![entry("/a", Some("h"), 2), entry("/z", Some("k"), 3)]);
    assert!(HistoryStore::new().entries().is_empty());
}

#[test]
fn from_entries_lets_the_last_entry_of_a_key_stand() {
    let store = HistoryStore::from_entries(vec![
        entry("/a", Some("old"), 1),
        entry("/b", None, 2),
        entry("/a", Some("new"), 3),
    ]);
    assert_eq!(store.len(), 2);
    assert_eq!(store.get("/a"), Some(&element("/a", Some("new"), 3, Some(1))));
    assert_eq!(store.get("/b"), Some(&element("/b", None, 2, Some(1))));
}

#[test]
fn entries_round_trip_through_from_entries() {
    let mut store = HistoryStore::new();
    store.put("/x/one.md".to_string(), element("/x/one.md", Some("fnv1a64:00"), -5, Some(0)));
    store.put("/x/two.md".to_string(), element("/x/two.md", None, i64::MAX, None));
    store.put("/x/three.md".to_string(), element("/x/three.md", Some(""), i64::MIN, Some(u64::MAX)));
    let reloaded = HistoryStore::from_entries(store.entries());
    assert_eq!(reloaded.len(), store.len());
    for line in store.entries() {
        assert_eq!(reloaded.get(&line.key), Some(&line.element));
    }
    assert_eq!(reloaded.entries().len(), 3);
}

#[test]
fn load_of_an_absent_history_is_an_empty_store() {
    let store = HistoryStore::load(HistorySource::Absent).ok().unwrap();
    assert!(store.is_empty());
}

#[test]
fn load_of_a_malformed_history_is_an_error() {
    let outcome = HistoryStore::load(HistorySource::Malformed { reason: "expected value at line 1".to_string() });
    assert_eq!(
        outcome.err(),
        Some(SyncError::CorruptHistory { reason: "expected value at line 1".to_string() })
    );
}

#[test]
fn load_of_entries_records_them() {
    let outcome = HistoryStore::load(HistorySource::Entries { entries: vec![entry("/a", Some("h"), 7)] });
    let store = outcome.ok().unwrap();
    assert_eq!(store.len(), 1);
    assert_eq!(store.get("/a"), Some(&element("/a", Some("h"), 7, Some(1))));
}

#[test]
fn temporary_path_differs_from_the_path() {
    assert_eq!(temporary_path("/data/history.json"), "/data/history.json.tmp");
    assert_eq!(temporary_path(""), ".tmp");
}

#[test]
fn clone_of_an_element_is_equal_to_it() {
    let first = element("/a", Some("h"), 3, Some(9));
    assert_eq!(first.clone(), first);
    let line = entry("/a", None, 1);
    assert_eq!(line.clone(), line);
}
