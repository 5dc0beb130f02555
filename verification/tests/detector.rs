use file_sync::detector::{ChangeDetector, Classification};
use file_sync::history::{HistoryElement, HistoryStore};
use file_sync::scanner::ScanResult;

fn scan(path: &str, modified_time: i64, size: u64) -> ScanResult {
    ScanResult { path: path.to_string(), extension: "md".to_string(), modified_time, size }
}

fn store_with(path: &str, hash: Option<&str>, modified_time: i64, size: Option<u64>) -> HistoryStore {
    let mut store = HistoryStore::new();
    store.put(
        path.to_string(),
        HistoryElement {
            file_path: path.to_string(),
            md5_hash: hash.map(|h| h.to_string()),
            modified_time,
            size,
        },
    );
    store
}

#[test]
fn unknown_file_is_new() {
    let store = store_with("/r/other.md", None, 1, Some(1));
    for hashing in [false, true] {
        let detector = ChangeDetector::new(hashing);
        assert_eq!(detector.uses_hashing(), hashing);
        assert_eq!(detector.classify(&scan("/r/a.md", 1, 1), &store, None), Classification::New);
        assert_eq!(
            detector.classify(&scan("/r/a.md", 1, 1), &store, Some(&"h".to_string())),
            Classification::New
        );
        assert!(!detector.needs_hash(&scan("/r/a.md", 1, 1), &store));
    }
}

#[test]
fn same_time_and_size_is_unchanged_without_hashing() {
    let store = store_with("/r/a.md", Some("h"), 50, Some(9));
    for hashing in [false, true] {
        let detector = ChangeDetector::new(hashing);
        assert!(!detector.needs_hash(&scan("/r/a.md", 50, 9), &store));
        assert_eq!(detector.classify(&scan("/r/a.md", 50, 9), &store, None), Classification::Unchanged);
        assert_eq!(
            detector.classify(&scan("/r/a.md", 50, 9), &store, Some(&"different".to_string())),
            Classification::Unchanged
        );
    }
}

#[test]
fn any_difference_of_time_is_a_change_without_hashing() {
    let store = store_with("/r/a.md", Some("h"), 50, Some(9));
    let detector = ChangeDetector::new(false);
    assert_eq!(detector.classify(&scan("/r/a.md", 51, 9), &store, None), Classification::Changed);
    assert_eq!(detector.classify(&scan("/r/a.md", 49, 9), &store, None), Classification::Changed);
    assert_eq!(
        detector.classify(&scan("/r/a.md", 51, 9), &store, Some(&"h".to_string())),
        Classification::Changed
    );
    assert!(!detector.needs_hash(&scan("/r/a.md", 51, 9), &store));
}

#[test]
fn difference_of_size_is_a_change_where_size_is_recorded() {
    let with_size = store_with("/r/a.md", None, 50, Some(9));
    let without_size = store_with("/r/a.md", None, 50, None);
    let detector = ChangeDetector::new(false);
    assert_eq!(detector.classify(&scan("/r/a.md", 50, 10), &with_size, None), Classification::Changed);
    assert_eq!(detector.classify(&scan("/r/a.md", 50, 10), &without_size, None), Classification::Unchanged);
}

#[test]
fn changed_metadata_with_same_hash_is_unchanged() {
    let store = store_with("/r/a.md", Some("fnv1a64:aa"), 50, Some(9));
    let detector = ChangeDetector::new(true);
    assert!(detector.needs_hash(&scan("/r/a.md", 51, 9), &store));
    assert_eq!(
        detector.classify(&scan("/r/a.md", 51, 9), &store, Some(&"fnv1a64:aa".to_string())),
        Classification::Unchanged
    );
}

#[test]
fn changed_metadata_with_other_hash_is_changed() {
    let store = store_with("/r/a.md", Some("fnv1a64:aa"), 50, Some(9));
    let detector = ChangeDetector::new(true);
    assert_eq!(
        detector.classify(&scan("/r/a.md", 51, 9), &store, Some(&"fnv1a64:ab".to_string())),
        Classification::Changed
    );
    assert_eq!(
        detector.classify(&scan("/r/a.md", 50, 8), &store, Some(&"fnv1a64:ab".to_string())),
        Classification::Changed
    );
}

#[test]
fn missing_hash_on_either_side_counts_as_a_change() {
    let detector = ChangeDetector::new(true);
    let without = store_with("/r/a.md", None, 50, Some(9));
    assert!(detector.needs_hash(&scan("/r/a.md", 51, 9), &without));
    assert_eq!(
        detector.classify(&scan("/r/a.md", 51, 9), &without, Some(&"fnv1a64:aa".to_string())),
        Classification::Changed
    );
    let with = store_with("/r/a.md", Some("fnv1a64:aa"), 50, Some(9));
    assert_eq!(detector.classify(&scan("/r/a.md", 51, 9), &with, None), Classification::Changed);
}
