use file_sync::config::Config;
use file_sync::scanner::{Candidate, EntryKind, ScanResult, Scanner};

fn file(path: &str) -> Candidate {
    Candidate { path: path.to_string(), kind: EntryKind::File, modified_time: 100, size: 7 }
}

fn of_kind(path: &str, kind: EntryKind) -> Candidate {
    Candidate { path: path.to_string(), kind, modified_time: 100, size: 7 }
}

fn record(path: &str, extension: &str) -> ScanResult {
    ScanResult { path: path.to_string(), extension: extension.to_string(), modified_time: 100, size: 7 }
}

#[test]
fn extension_filter_ignores_case_of_the_file() {
    let scanner = Scanner::new(&vec!["txt".to_string()]);
    assert_eq!(scanner.select(&file("/r/a.TXT")), Some(record("/r/a.TXT", "txt")));
    assert_eq!(scanner.select(&file("/r/b.Txt")), Some(record("/r/b.Txt", "txt")));
    assert_eq!(scanner.select(&file("/r/c.txt")), Some(record("/r/c.txt", "txt")));
    assert_eq!(scanner.select(&file("/r/d.text")), None);
}

#[test]
fn extension_filter_ignores_case_of_the_configuration() {
    let scanner = Scanner::new(&vec!["TxT".to_string(), "MD".to_string()]);
    assert!(scanner.accepts_extension("txt"));
    assert!(scanner.accepts_extension("TXT"));
    assert!(scanner.accepts_extension("md"));
    assert!(scanner.accepts_extension("Md"));
    assert!(!scanner.accepts_extension("rs"));
    assert!(!scanner.accepts_extension(""));
    assert!(!scanner.accepts_extension(".txt"));
}

#[test]
fn extension_filter_folds_letters_beyond_ascii() {
    let scanner = Scanner::new(&vec!["ÉTÉ".to_string()]);
    assert!(scanner.accepts_extension("été"));
    assert!(scanner.accepts_extension("Été"));
    assert!(!scanner.accepts_extension("ete"));
}

#[test]
fn scanner_without_extensions_accepts_nothing() {
    let scanner = Scanner::new(&Vec::new());
    assert!(!scanner.accepts_extension("txt"));
    assert_eq!(scanner.select(&file("/r/a.txt")), None);
}

#[test]
fn select_passes_over_what_is_not_a_regular_file() {
    let scanner = Scanner::new(&vec!["md".to_string()]);
    assert_eq!(scanner.select(&of_kind("/r/dir.md", EntryKind::Directory)), None);
    assert_eq!(scanner.select(&of_kind("/r/link.md", EntryKind::Symlink)), None);
    assert_eq!(scanner.select(&of_kind("/r/pipe.md", EntryKind::Other)), None);
    assert_eq!(scanner.select(&of_kind("/r/file.md", EntryKind::File)), Some(record("/r/file.md", "md")));
}

#[test]
fn select_passes_over_files_without_extension() {
    let scanner = Scanner::new(&vec!["md".to_string(), "".to_string()]);
    assert_eq!(scanner.select(&file("/r/md")), None);
    assert_eq!(scanner.select(&file("/r/.md")), None);
    assert_eq!(scanner.select(&file("/r.md/notes")), None);
    assert_eq!(scanner.select(&file("/r/notes.")), Some(record("/r/notes.", "")));
}

#[test]
fn select_keeps_time_and_size() {
    let scanner = Scanner::new(&vec!["md".to_string()]);
    let entry = Candidate { path: "/r/a.MD".to_string(), kind: EntryKind::File, modified_time: -3, size: u64::MAX };
    assert_eq!(
        scanner.select(&entry),
        Some(ScanResult { path: "/r/a.MD".to_string(), extension: "md".to_string(), modified_time: -3, size: u64::MAX })
    );
}

#[test]
fn scan_keeps_the_qualifying_files_in_order() {
    let scanner = Scanner::new(&vec!["md".to_string(), "txt".to_string()]);
    let entries = vec![
        of_kind("/r", EntryKind::Directory),
        file("/r/b.md"),
        file("/r/skip.rs"),
        file("/r/a.TXT"),
        of_kind("/r/l.md", EntryKind::Symlink),
        file("/r/sub/c.Md"),
    ];
    assert_eq!(
        scanner.scan(&entries),
        vec![record("/r/b.md", "md"), record("/r/a.TXT", "txt"), record("/r/sub/c.Md", "md")]
    );
    assert_eq!(scanner.scan(&Vec::new()), Vec::<ScanResult>::new());
}

#[test]
fn scanner_for_config_uses_its_extensions() {
    let config = Config::new(
        vec!["Md".to_string()],
        vec!["./src".to_string()],
        "out".to_string(),
        "history.json".to_string(),
        false,
    );
    let scanner = Scanner::for_config(&config);
    assert!(scanner.accepts_extension("md"));
    assert!(!scanner.accepts_extension("txt"));
}

#[test]
fn irregular_kinds_are_symlinks_and_others() {
    assert!(!EntryKind::File.is_irregular());
    assert!(!EntryKind::Directory.is_irregular());
    assert!(EntryKind::Symlink.is_irregular());
    assert!(EntryKind::Other.is_irregular());
}

#[test]
fn clone_of_a_scan_result_is_equal_to_it() {
    let first = record("/r/a.md", "md");
    assert_eq!(first.clone(), first);
}
