//! Change detection: is a scanned file new, changed or unchanged with
//! respect to the history store?

use vstd::prelude::*;
use crate::history::{ElementView, HistoryStore};
use crate::scanner::{ScanResult, ScanView};

verus! {

/// How a scanned file stands with respect to the history store.
#[derive(Debug, Clone, Copy, PartialEq, Eq)]
pub enum Classification {
    /// The store has no entry for the file.
    New,
    /// The file is as the store remembers it.
    Unchanged,
    /// The file differs from what the store remembers.
    Changed,
}

/// What `history` records under `path`, if anything.
pub open spec fn known_of(history: Map<Seq<char>, ElementView>, path: Seq<char>) -> Option<
    ElementView,
> {
    if history.contains_key(path) {
        Some(history[path])
    } else {
        None
    }
}

/// Whether the modification time of `scan` is the recorded one and, where a
/// size is recorded, the size as well. Times are compared exactly.
pub open spec fn metadata_unchanged(scan: ScanView, known: ElementView) -> bool {
    &&& known.modified_time == scan.modified_time
    &&& known.size matches Some(size) ==> size == scan.size
}

/// Whether the content fingerprint must be computed before the file can be
/// classified: fingerprints are in use, the file is known, and its metadata
/// no longer vouches for it.
pub open spec fn needs_hash(hashing: bool, scan: ScanView, known: Option<ElementView>) -> bool {
    hashing && known is Some && !metadata_unchanged(scan, known->0)
}

/// The classification of `scan` against what is `known` of its path.
///
/// An unknown file is new. A known file with unchanged metadata is unchanged,
/// whatever its content. Otherwise the file is unchanged only if fingerprints
/// are in use and the current one is the recorded one; a fingerprint that is
/// missing on either side counts as a difference.
pub open spec fn classification(
    hashing: bool,
    scan: ScanView,
    known: Option<ElementView>,
    current_hash: Option<Seq<char>>,
) -> Classification {
    match known {
        None => Classification::New,
        Some(element) => {
            if metadata_unchanged(scan, element) {
                Classification::Unchanged
            } else if hashing && current_hash is Some && element.md5_hash == current_hash {
                Classification::Unchanged
            } else {
                Classification::Changed
            }
        },
    }
}

/// Decides whether files are new, changed or unchanged.
#[derive(Debug, Clone, Copy)]
pub struct ChangeDetector {
    hashing: bool,
}

impl ChangeDetector {
    /// A detector that compares content fingerprints if `hashing` is set, and
    /// modification time and size alone if it is not.
    pub fn new(hashing: bool) -> (detector: Self)
        ensures
            detector.hashing() == hashing,
    {
        ChangeDetector { hashing }
    }

    /// Whether this detector compares content fingerprints.
    pub closed spec fn hashing(&self) -> bool {
        self.hashing
    }

    /// Whether this detector compares content fingerprints.
    pub fn uses_hashing(&self) -> (enabled: bool)
        ensures
            enabled == self.hashing(),
    {
        self.hashing
    }

    /// Whether the fingerprint of the file is needed to classify it.
    pub fn needs_hash(&self, scan: &ScanResult, history: &HistoryStore) -> (needed: bool)
        ensures
            needed == needs_hash(self.hashing(), scan@, known_of(history@, scan@.path)),
    {
        if !self.hashing {
            return false;
        }
        match history.get(scan.path.as_str()) {
            None => false,
            Some(element) => !(element.modified_time == scan.modified_time && match element.size {
                Some(size) => size == scan.size,
                None => true,
            }),
        }
    }

    /// Classifies `scan` against `history`, given the current fingerprint of
    /// the file where the caller has computed it.
    pub fn classify(
        &self,
        scan: &ScanResult,
        history: &HistoryStore,
        current_hash: Option<&String>,
    ) -> (class: Classification)
        ensures
            class == classification(
                self.hashing(),
                scan@,
                known_of(history@, scan@.path),
                match current_hash {
                    Some(h) => Some(h@),
                    None => None,
                },
            ),
    {
        match history.get(scan.path.as_str()) {
            None => Classification::New,
            Some(element) => {
                let same_size = match element.size {
                    Some(size) => size == scan.size,
                    None => true,
                };
                if element.modified_time == scan.modified_time && same_size {
                    return Classification::Unchanged;
                }
                if !self.hashing {
                    return Classification::Changed;
                }
                match (&element.md5_hash, current_hash) {
                    (Some(recorded), Some(current)) => {
                        if *recorded == *current {
                            Classification::Unchanged
                        } else {
                            Classification::Changed
                        }
                    },
                    _ => Classification::Changed,
                }
            },
        }
    }
}

/// Where no fingerprint is needed, the classification does not depend on the
/// fingerprint that is supplied.
pub proof fn lemma_hash_irrelevant_unless_needed(
    hashing: bool,
    scan: ScanView,
    known: Option<ElementView>,
    h1: Option<Seq<char>>,
    h2: Option<Seq<char>>,
)
    requires
        !needs_hash(hashing, scan, known),
    ensures
        classification(hashing, scan, known, h1) == classification(hashing, scan, known, h2),
{
}

} // verus!
