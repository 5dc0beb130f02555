//! The scanner's choice: which of the entries that a walk of the scan roots
//! meets are files to synchronise.

use vstd::prelude::*;
use crate::config::{texts, Config};
use crate::text::{lowercase, path_extension, path_extension_of, to_lowercase};

verus! {

/// What kind of thing a directory walk has met.
#[derive(Debug, Clone, Copy, PartialEq, Eq)]
pub enum EntryKind {
    /// A regular file.
    File,
    /// A directory.
    Directory,
    /// A symbolic link that was not followed, or that leads nowhere.
    Symlink,
    /// Anything else: a device, a socket, a pipe.
    Other,
}

impl EntryKind {
    /// Whether an entry of this kind is passed over with a warning: it is
    /// neither a regular file nor a directory.
    pub open spec fn irregular(self) -> bool {
        self is Symlink || self is Other
    }

    /// Whether an entry of this kind is passed over with a warning.
    pub fn is_irregular(&self) -> (irregular: bool)
        ensures
            irregular == self.irregular(),
    {
        match self {
            EntryKind::Symlink => true,
            EntryKind::Other => true,
            _ => false,
        }
    }
}

/// One entry met while walking a scan root, before any filtering.
#[derive(Debug)]
pub struct Candidate {
    /// Absolute path of the entry.
    pub path: String,
    /// What the entry is.
    pub kind: EntryKind,
    /// Its modification time.
    pub modified_time: i64,
    /// Its size in bytes.
    pub size: u64,
}

/// The mathematical value of a [`Candidate`].
pub struct CandidateView {
    pub path: Seq<char>,
    pub kind: EntryKind,
    pub modified_time: i64,
    pub size: u64,
}

impl View for Candidate {
    type V = CandidateView;

    open spec fn view(&self) -> CandidateView {
        CandidateView {
            path: self.path@,
            kind: self.kind,
            modified_time: self.modified_time,
            size: self.size,
        }
    }
}

/// One file that qualified for synchronisation.
#[derive(Debug, PartialEq, Eq)]
pub struct ScanResult {
    /// Absolute path of the file.
    pub path: String,
    /// Its extension, in lowercase.
    pub extension: String,
    /// Its current modification time.
    pub modified_time: i64,
    /// Its current size in bytes.
    pub size: u64,
}

/// The mathematical value of a [`ScanResult`].
pub struct ScanView {
    pub path: Seq<char>,
    pub extension: Seq<char>,
    pub modified_time: i64,
    pub size: u64,
}

impl View for ScanResult {
    type V = ScanView;

    open spec fn view(&self) -> ScanView {
        ScanView {
            path: self.path@,
            extension: self.extension@,
            modified_time: self.modified_time,
            size: self.size,
        }
    }
}

impl Clone for ScanResult {
    fn clone(&self) -> (copy: Self)
        ensures
            copy@ == self@,
    {
        ScanResult {
            path: self.path.clone(),
            extension: self.extension.clone(),
            modified_time: self.modified_time,
            size: self.size,
        }
    }
}

/// The lowercase forms of the configured extensions.
pub open spec fn normalized_set(extensions: Seq<Seq<char>>) -> Set<Seq<char>> {
    Set::new(
        |e: Seq<char>| exists|i: int| 0 <= i < extensions.len() && lowercase(#[trigger] extensions[i]) == e,
    )
}

/// Whether `entry` is a regular file whose extension, in lowercase, is one of
/// `extensions`.
pub open spec fn qualifies(entry: CandidateView, extensions: Set<Seq<char>>) -> bool {
    entry.kind == EntryKind::File && match path_extension_of(entry.path) {
        Some(e) => extensions.contains(lowercase(e)),
        None => false,
    }
}

/// The record made of an entry that qualifies.
pub open spec fn scan_result_of(entry: CandidateView) -> ScanView {
    ScanView {
        path: entry.path,
        extension: match path_extension_of(entry.path) {
            Some(e) => lowercase(e),
            None => Seq::empty(),
        },
        modified_time: entry.modified_time,
        size: entry.size,
    }
}

/// The records of those among `entries` that qualify, in the order of
/// `entries`.
pub open spec fn selected(entries: Seq<CandidateView>, extensions: Set<Seq<char>>) -> Seq<ScanView>
    decreases entries.len(),
{
    if entries.len() == 0 {
        Seq::empty()
    } else if qualifies(entries.last(), extensions) {
        selected(entries.drop_last(), extensions).push(scan_result_of(entries.last()))
    } else {
        selected(entries.drop_last(), extensions)
    }
}

/// The values of a sequence of entries.
pub open spec fn candidate_views(entries: Seq<Candidate>) -> Seq<CandidateView> {
    Seq::new(entries.len(), |i: int| entries[i]@)
}

/// The values of a sequence of records.
pub open spec fn scan_views(records: Seq<ScanResult>) -> Seq<ScanView> {
    Seq::new(records.len(), |i: int| records[i]@)
}

/// Chooses the files to synchronise by kind and extension.
pub struct Scanner {
    normalized: Vec<String>,
}

impl View for Scanner {
    type V = Set<Seq<char>>;

    /// The extensions that the scanner lets through, in lowercase.
    closed spec fn view(&self) -> Set<Seq<char>> {
        Set::new(
            |e: Seq<char>| exists|i: int| 0 <= i < self.normalized@.len() && (#[trigger] self.normalized@[i])@ == e,
        )
    }
}

impl Scanner {
    /// A scanner for the given extensions, which are compared without regard
    /// to case.
    pub fn new(extensions: &Vec<String>) -> (scanner: Self)
        ensures
            scanner@ == normalized_set(texts(extensions@)),
    {
        let mut normalized: Vec<String> = Vec::new();
        let mut i: usize = 0;
        while i < extensions.len()
            invariant
                i <= extensions.len(),
                normalized@.len() == i,
                forall|j: int| 0 <= j < i ==> (#[trigger] normalized@[j])@ == lowercase(extensions@[j]@),
            decreases extensions.len() - i,
        {
            normalized.push(to_lowercase(extensions[i].as_str()));
            i = i + 1;
        }
        let scanner = Scanner { normalized };
        proof {
            let configured = texts(extensions@);
            assert forall|e: Seq<char>| scanner@.contains(e) == normalized_set(configured).contains(e) by {
                if scanner@.contains(e) {
                    let j = choose|j: int| 0 <= j < scanner.normalized@.len() && (#[trigger] scanner.normalized@[j])@ == e;
                    assert(lowercase(configured[j]) == e);
                }
                if normalized_set(configured).contains(e) {
                    let j = choose|j: int| 0 <= j < configured.len() && lowercase(#[trigger] configured[j]) == e;
                    assert(scanner.normalized@[j]@ == e);
                }
            }
            assert(scanner@ =~= normalized_set(configured));
        }
        scanner
    }

    /// A scanner for the extensions of `config`.
    pub fn for_config(config: &Config) -> (scanner: Self)
        ensures
            scanner@ == normalized_set(config@.file_extensions),
    {
        Scanner::new(config.file_extensions())
    }

    /// Whether files with the extension `ext` are let through.
    pub fn accepts_extension(&self, ext: &str) -> (accepted: bool)
        ensures
            accepted == self@.contains(lowercase(ext@)),
    {
        let lower = to_lowercase(ext);
        self.holds(&lower)
    }

    fn holds(&self, lower: &String) -> (held: bool)
        ensures
            held == self@.contains(lower@),
    {
        let mut i: usize = 0;
        while i < self.normalized.len()
            invariant
                i <= self.normalized.len(),
                forall|j: int| 0 <= j < i ==> (#[trigger] self.normalized@[j])@ != lower@,
            decreases self.normalized.len() - i,
        {
            if self.normalized[i] == *lower {
                return true;
            }
            i = i + 1;
        }
        false
    }

    /// The record of `entry` if it qualifies, and nothing otherwise.
    pub fn select(&self, entry: &Candidate) -> (chosen: Option<ScanResult>)
        ensures
            match chosen {
                Some(record) => qualifies(entry@, self@) && record@ == scan_result_of(entry@),
                None => !qualifies(entry@, self@),
            },
    {
        match entry.kind {
            EntryKind::File => {},
            _ => {
                return None;
            },
        }
        match path_extension(entry.path.as_str()) {
            None => None,
            Some(ext) => {
                let lower = to_lowercase(ext);
                if self.holds(&lower) {
                    Some(
                        ScanResult {
                            path: entry.path.clone(),
                            extension: lower,
                            modified_time: entry.modified_time,
                            size: entry.size,
                        },
                    )
                } else {
                    None
                }
            },
        }
    }

    /// The records of the entries that qualify, in the order in which the
    /// entries were met.
    pub fn scan(&self, entries: &Vec<Candidate>) -> (records: Vec<ScanResult>)
        ensures
            scan_views(records@) == selected(candidate_views(entries@), self@),
    {
        let mut records: Vec<ScanResult> = Vec::new();
        let mut i: usize = 0;
        assert(candidate_views(entries@).take(0) =~= Seq::empty());
        assert(scan_views(records@) =~= Seq::empty());
        while i < entries.len()
            invariant
                i <= entries.len(),
                scan_views(records@) == selected(candidate_views(entries@).take(i as int), self@),
            decreases entries.len() - i,
        {
            let ghost before = scan_views(records@);
            let ghost seen = candidate_views(entries@).take(i + 1);
            proof {
                assert(seen.drop_last() =~= candidate_views(entries@).take(i as int));
                assert(seen.last() == entries@[i as int]@);
            }
            match self.select(&entries[i]) {
                Some(record) => {
                    records.push(record);
                    assert(scan_views(records@) =~= before.push(record@));
                },
                None => {},
            }
            i = i + 1;
        }
        assert(candidate_views(entries@).take(i as int) =~= candidate_views(entries@));
        records
    }
}

/// Matching is blind to case: an extension is let through exactly when its
/// lowercase form is the lowercase form of a configured extension.
pub proof fn lemma_matching_ignores_case(extensions: Seq<Seq<char>>, ext: Seq<char>)
    ensures
        normalized_set(extensions).contains(lowercase(ext)) <==> exists|i: int|
            0 <= i < extensions.len() && lowercase(#[trigger] extensions[i]) == lowercase(ext),
{
}

/// Two extensions with the same lowercase form are let through together or
/// not at all.
pub proof fn lemma_same_case_folding_same_answer(
    extensions: Set<Seq<char>>,
    a: CandidateView,
    b: CandidateView,
)
    requires
        a.kind == b.kind,
        path_extension_of(a.path) is Some,
        path_extension_of(b.path) is Some,
        lowercase(path_extension_of(a.path)->0) == lowercase(path_extension_of(b.path)->0),
    ensures
        qualifies(a, extensions) == qualifies(b, extensions),
{
}

} // verus!
