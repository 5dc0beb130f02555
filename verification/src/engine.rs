//! The synchronisation engine: the decisions of a run, one file at a time.
//!
//! The engine reads no file and copies none. Whoever drives it walks the scan
//! roots, hands over each entry as an [`Event::Found`], performs the
//! [`Action`] that comes back (computing a fingerprint, copying a file) and
//! reports how that went as the next event. The engine classifies the files,
//! keeps the history store and the counters, and survives the failure of any
//! single file.

use vstd::prelude::*;
use crate::config::Config;
use crate::detector::{classification, known_of, ChangeDetector, Classification};
use crate::error::SyncError;
use crate::history::{ElementView, HistoryElement, HistoryStore};
use crate::paths::{mirror_path, mirrored};
use crate::scanner::{
    normalized_set,
    qualifies,
    scan_result_of,
    Candidate,
    CandidateView,
    ScanResult,
    ScanView,
    Scanner,
};
use crate::stats::RunStats;

verus! {

/// One file that the run could not handle, and why.
#[derive(Debug, PartialEq, Eq)]
pub struct FileFailure {
    /// Path of the file.
    pub path: String,
    /// What went wrong.
    pub reason: String,
}

/// The mathematical value of a [`FileFailure`].
pub struct FailureView {
    pub path: Seq<char>,
    pub reason: Seq<char>,
}

impl View for FileFailure {
    type V = FailureView;

    open spec fn view(&self) -> FailureView {
        FailureView { path: self.path@, reason: self.reason@ }
    }
}

impl FileFailure {
    /// This failure as an error of the run.
    pub fn to_error(&self) -> (error: SyncError)
        ensures
            error matches SyncError::Io { path, reason } && path@ == self.path@ && reason@
                == self.reason@,
    {
        SyncError::Io { path: self.path.clone(), reason: self.reason.clone() }
    }
}

/// The values of a sequence of failures.
pub open spec fn failure_views(failures: Seq<FileFailure>) -> Seq<FailureView> {
    Seq::new(failures.len(), |i: int| failures[i]@)
}

/// What the driver reports to the engine.
#[derive(Debug)]
pub enum Event {
    /// The walk of the scan root `root` has met `entry`.
    Found { root: String, entry: Candidate },
    /// The walk could not read what lies at `path`.
    Unreadable { path: String, reason: String },
    /// The fingerprint that was asked for is `hash`.
    Hashed { hash: String },
    /// The fingerprint that was asked for could not be computed.
    HashFailed { reason: String },
    /// The copy that was asked for is done.
    Copied,
    /// The copy that was asked for has failed.
    CopyFailed { reason: String },
}

/// The mathematical value of an [`Event`].
pub enum EventView {
    Found { root: Seq<char>, entry: CandidateView },
    Unreadable { path: Seq<char>, reason: Seq<char> },
    Hashed { hash: Seq<char> },
    HashFailed { reason: Seq<char> },
    Copied,
    CopyFailed { reason: Seq<char> },
}

impl View for Event {
    type V = EventView;

    open spec fn view(&self) -> EventView {
        match *self {
            Event::Found { root, entry } => EventView::Found { root: root@, entry: entry@ },
            Event::Unreadable { path, reason } => EventView::Unreadable {
                path: path@,
                reason: reason@,
            },
            Event::Hashed { hash } => EventView::Hashed { hash: hash@ },
            Event::HashFailed { reason } => EventView::HashFailed { reason: reason@ },
            Event::Copied => EventView::Copied,
            Event::CopyFailed { reason } => EventView::CopyFailed { reason: reason@ },
        }
    }
}

/// What the engine asks of the driver.
#[derive(Debug, PartialEq, Eq)]
pub enum Action {
    /// Nothing more for this file: report the next entry.
    Next,
    /// Compute the fingerprint of the file at `path` and report it.
    Hash { path: String },
    /// Copy the file at `from` to `to`, creating the directories on the way,
    /// and report the outcome.
    Copy { from: String, to: String },
}

/// The mathematical value of an [`Action`].
pub enum ActionView {
    Next,
    Hash { path: Seq<char> },
    Copy { from: Seq<char>, to: Seq<char> },
}

impl View for Action {
    type V = ActionView;

    open spec fn view(&self) -> ActionView {
        match *self {
            Action::Next => ActionView::Next,
            Action::Hash { path } => ActionView::Hash { path: path@ },
            Action::Copy { from, to } => ActionView::Copy { from: from@, to: to@ },
        }
    }
}

enum Phase {
    Idle,
    AwaitingHash { root: String, scan: ScanResult },
    AwaitingCopy { scan: ScanResult, hash: Option<String>, to: String },
}

/// What the engine is waiting for.
pub enum PhaseView {
    /// The next entry.
    Idle,
    /// The fingerprint of the file `scan`, found under `root`.
    AwaitingHash { root: Seq<char>, scan: ScanView },
    /// The outcome of copying the file `scan`, whose fingerprint is `hash`
    /// where one was computed, to `to`.
    AwaitingCopy { scan: ScanView, hash: Option<Seq<char>>, to: Seq<char> },
}

impl View for Phase {
    type V = PhaseView;

    closed spec fn view(&self) -> PhaseView {
        match *self {
            Phase::Idle => PhaseView::Idle,
            Phase::AwaitingHash { root, scan } => PhaseView::AwaitingHash { root: root@, scan: scan@ },
            Phase::AwaitingCopy { scan, hash, to } => PhaseView::AwaitingCopy {
                scan: scan@,
                hash: crate::history::text_of(hash),
                to: to@,
            },
        }
    }
}

/// The mathematical value of a [`SyncEngine`].
pub struct EngineView {
    /// The extensions that are synchronised, in lowercase.
    pub extensions: Set<Seq<char>>,
    /// Where the copies go.
    pub output_dir: Seq<char>,
    /// Whether content fingerprints are compared.
    pub hashing: bool,
    /// The history store.
    pub history: Map<Seq<char>, ElementView>,
    /// The counters.
    pub stats: RunStats,
    /// The failures so far, oldest first.
    pub failures: Seq<FailureView>,
    /// What the engine is waiting for.
    pub phase: PhaseView,
}

/// The reason recorded for a file that does not lie below the scan root
/// under which it was reported.
pub open spec fn outside_root_reason() -> Seq<char> {
    "file is not below its scan root"@
}

/// What the store records of the file `scan` once it has been dealt with.
pub open spec fn recorded(scan: ScanView, hash: Option<Seq<char>>) -> ElementView {
    ElementView {
        file_path: scan.path,
        md5_hash: hash,
        modified_time: scan.modified_time,
        size: Some(scan.size),
    }
}

/// The action that a phase is waiting to see performed.
pub open spec fn awaited(phase: PhaseView) -> ActionView {
    match phase {
        PhaseView::Idle => ActionView::Next,
        PhaseView::AwaitingHash { root, scan } => ActionView::Hash { path: scan.path },
        PhaseView::AwaitingCopy { scan, hash, to } => ActionView::Copy { from: scan.path, to },
    }
}

/// The state after the file at `path` has failed for `reason`: one more
/// error, the failure on record, everything else as it was, and the engine
/// ready for the next entry.
pub open spec fn failed(state: EngineView, path: Seq<char>, reason: Seq<char>) -> EngineView {
    EngineView {
        stats: state.stats.with_error(),
        failures: state.failures.push(FailureView { path, reason }),
        phase: PhaseView::Idle,
        ..state
    }
}

/// The state after the file `scan` has been dealt with and found unchanged.
pub open spec fn left_alone(state: EngineView) -> EngineView {
    EngineView { stats: state.stats.with_unchanged(), phase: PhaseView::Idle, ..state }
}

/// Asks for the copy of a new or changed file, or fails the file where it has
/// no place below the output directory.
pub open spec fn plan_copy(
    state: EngineView,
    root: Seq<char>,
    scan: ScanView,
    hash: Option<Seq<char>>,
) -> (EngineView, ActionView) {
    match mirrored(root, scan.path, state.output_dir) {
        Some(to) => (
            EngineView { phase: PhaseView::AwaitingCopy { scan, hash, to }, ..state },
            ActionView::Copy { from: scan.path, to },
        ),
        None => (failed(state, scan.path, outside_root_reason()), ActionView::Next),
    }
}

/// What an idle engine does with an entry.
///
/// An entry that does not qualify is passed over and not counted. A file that
/// is unchanged by its metadata is counted as such. Any other file is copied;
/// where fingerprints are in use, its fingerprint is asked for first.
pub open spec fn on_found(state: EngineView, root: Seq<char>, entry: CandidateView) -> (
    EngineView,
    ActionView,
) {
    if !qualifies(entry, state.extensions) {
        (state, ActionView::Next)
    } else {
        let scan = scan_result_of(entry);
        let known = known_of(state.history, scan.path);
        if classification(state.hashing, scan, known, None) == Classification::Unchanged {
            (left_alone(state), ActionView::Next)
        } else if state.hashing {
            (
                EngineView { phase: PhaseView::AwaitingHash { root, scan }, ..state },
                ActionView::Hash { path: scan.path },
            )
        } else {
            plan_copy(state, root, scan, None)
        }
    }
}

/// What the engine does with the fingerprint it asked for.
///
/// A file whose fingerprint is the recorded one is unchanged; its entry takes
/// the current modification time and size, so that the next run need not
/// read the file again. Any other file is copied.
pub open spec fn on_hashed(state: EngineView, root: Seq<char>, scan: ScanView, hash: Seq<char>) -> (
    EngineView,
    ActionView,
) {
    let known = known_of(state.history, scan.path);
    if classification(state.hashing, scan, known, Some(hash)) == Classification::Unchanged {
        (
            EngineView {
                history: state.history.insert(scan.path, recorded(scan, Some(hash))),
                ..left_alone(state)
            },
            ActionView::Next,
        )
    } else {
        plan_copy(state, root, scan, Some(hash))
    }
}

/// The state after the copy of `scan` has succeeded: the file is on record
/// as it is now, and counted as copied.
pub open spec fn on_copied(state: EngineView, scan: ScanView, hash: Option<Seq<char>>) -> EngineView {
    EngineView {
        history: state.history.insert(scan.path, recorded(scan, hash)),
        stats: state.stats.with_copy(),
        phase: PhaseView::Idle,
        ..state
    }
}

/// The engine's transition: the state and the action that follow `event` in
/// `state`.
///
/// An event that the current phase is not waiting for changes nothing, and
/// the action that is still awaited is asked for again.
pub open spec fn step(state: EngineView, event: EventView) -> (EngineView, ActionView) {
    match (state.phase, event) {
        (PhaseView::Idle, EventView::Found { root, entry }) => on_found(state, root, entry),
        (PhaseView::Idle, EventView::Unreadable { path, reason }) => (
            failed(state, path, reason),
            ActionView::Next,
        ),
        (PhaseView::AwaitingHash { root, scan }, EventView::Hashed { hash }) => on_hashed(
            state,
            root,
            scan,
            hash,
        ),
        (PhaseView::AwaitingHash { root, scan }, EventView::HashFailed { reason }) => (
            failed(state, scan.path, reason),
            ActionView::Next,
        ),
        (PhaseView::AwaitingCopy { scan, hash, to }, EventView::Copied) => (
            on_copied(state, scan, hash),
            ActionView::Next,
        ),
        (PhaseView::AwaitingCopy { scan, hash, to }, EventView::CopyFailed { reason }) => (
            failed(state, scan.path, reason),
            ActionView::Next,
        ),
        _ => (state, awaited(state.phase)),
    }
}

/// Orchestrates one run: scanner, change detector, history store and
/// counters, driven by events.
pub struct SyncEngine {
    scanner: Scanner,
    detector: ChangeDetector,
    output_dir: String,
    store: HistoryStore,
    stats: RunStats,
    failures: Vec<FileFailure>,
    phase: Phase,
}

impl View for SyncEngine {
    type V = EngineView;

    closed spec fn view(&self) -> EngineView {
        EngineView {
            extensions: self.scanner@,
            output_dir: self.output_dir@,
            hashing: self.detector.hashing(),
            history: self.store@,
            stats: self.stats,
            failures: failure_views(self.failures@),
            phase: self.phase@,
        }
    }
}

impl SyncEngine {
    /// An engine for a run with the parameters of `config`, starting from
    /// the history `store`.
    pub fn new(config: &Config, store: HistoryStore) -> (engine: Self)
        ensures
            engine@ == (EngineView {
                extensions: normalized_set(config@.file_extensions),
                output_dir: config@.output_dir,
                hashing: config@.calculate_md5_hash,
                history: store@,
                stats: RunStats::zero(),
                failures: Seq::empty(),
                phase: PhaseView::Idle,
            }),
    {
        let engine = SyncEngine {
            scanner: Scanner::for_config(config),
            detector: ChangeDetector::new(config.calculate_md5_hash()),
            output_dir: config.output_dir().clone(),
            store,
            stats: RunStats::new(),
            failures: Vec::new(),
            phase: Phase::Idle,
        };
        assert(failure_views(engine.failures@) =~= Seq::empty());
        engine
    }

    /// The counters so far.
    pub fn stats(&self) -> (stats: RunStats)
        ensures
            stats == self@.stats,
    {
        self.stats
    }

    /// The history store as it stands.
    pub fn history(&self) -> (store: &HistoryStore)
        ensures
            store@ == self@.history,
    {
        &self.store
    }

    /// The failures so far, oldest first.
    pub fn failures(&self) -> (failures: &Vec<FileFailure>)
        ensures
            failure_views(failures@) == self@.failures,
    {
        &self.failures
    }

    /// Whether the engine is waiting for the next entry, rather than for the
    /// outcome of an action.
    pub fn is_idle(&self) -> (idle: bool)
        ensures
            idle == (self@.phase is Idle),
    {
        match self.phase {
            Phase::Idle => true,
            _ => false,
        }
    }

    /// Ends the run: the history store to persist, and the counters to
    /// report.
    pub fn finish(self) -> (outcome: (HistoryStore, RunStats))
        ensures
            outcome.0@ == self@.history,
            outcome.1 == self@.stats,
    {
        (self.store, self.stats)
    }

    /// Takes the next event and says what to do next.
    pub fn step(&mut self, event: Event) -> (action: Action)
        ensures
            (final(self)@, action@) == step(old(self)@, event@),
    {
        let mut phase = Phase::Idle;
        std::mem::swap(&mut self.phase, &mut phase);
        match (phase, event) {
            (Phase::Idle, Event::Found { root, entry }) => self.found(root, entry),
            (Phase::Idle, Event::Unreadable { path, reason }) => {
                self.fail(path, reason);
                Action::Next
            },
            (Phase::AwaitingHash { root, scan }, Event::Hashed { hash }) => self.hashed(
                root,
                scan,
                hash,
            ),
            (Phase::AwaitingHash { root, scan }, Event::HashFailed { reason }) => {
                self.fail(scan.path, reason);
                Action::Next
            },
            (Phase::AwaitingCopy { scan, hash, to }, Event::Copied) => {
                self.copied(scan, hash);
                Action::Next
            },
            (Phase::AwaitingCopy { scan, hash, to }, Event::CopyFailed { reason }) => {
                self.fail(scan.path, reason);
                Action::Next
            },
            (phase, _) => {
                let action = match &phase {
                    Phase::Idle => Action::Next,
                    Phase::AwaitingHash { root, scan } => Action::Hash { path: scan.path.clone() },
                    Phase::AwaitingCopy { scan, hash, to } => Action::Copy {
                        from: scan.path.clone(),
                        to: to.clone(),
                    },
                };
                self.phase = phase;
                action
            },
        }
    }

    fn fail(&mut self, path: String, reason: String)
        ensures
            final(self)@ == failed(old(self)@, path@, reason@),
    {
        self.stats.record_error();
        self.failures.push(FileFailure { path, reason });
        self.phase = Phase::Idle;
        assert(failure_views(self.failures@) =~= failure_views(old(self).failures@).push(
            FailureView { path: path@, reason: reason@ },
        ));
    }

    fn plan_copy(&mut self, root: String, scan: ScanResult, hash: Option<String>) -> (action: Action)
        ensures
            (final(self)@, action@) == plan_copy(
                old(self)@,
                root@,
                scan@,
                crate::history::text_of(hash),
            ),
    {
        match mirror_path(root.as_str(), scan.path.as_str(), self.output_dir.as_str()) {
            Some(to) => {
                let action = Action::Copy { from: scan.path.clone(), to: to.clone() };
                self.phase = Phase::AwaitingCopy { scan, hash, to };
                action
            },
            None => {
                proof {
                    reveal_strlit("file is not below its scan root");
                }
                self.fail(scan.path, String::from_str("file is not below its scan root"));
                Action::Next
            },
        }
    }

    fn found(&mut self, root: String, entry: Candidate) -> (action: Action)
        requires
            old(self)@.phase is Idle,
        ensures
            (final(self)@, action@) == on_found(old(self)@, root@, entry@),
    {
        match self.scanner.select(&entry) {
            None => Action::Next,
            Some(scan) => {
                match self.detector.classify(&scan, &self.store, None) {
                    Classification::Unchanged => {
                        self.stats.record_unchanged();
                        Action::Next
                    },
                    _ => {
                        if self.detector.uses_hashing() {
                            let action = Action::Hash { path: scan.path.clone() };
                            self.phase = Phase::AwaitingHash { root, scan };
                            action
                        } else {
                            self.plan_copy(root, scan, None)
                        }
                    },
                }
            },
        }
    }

    fn hashed(&mut self, root: String, scan: ScanResult, hash: String) -> (action: Action)
        requires
            old(self)@.phase is Idle,
        ensures
            (final(self)@, action@) == on_hashed(old(self)@, root@, scan@, hash@),
    {
        match self.detector.classify(&scan, &self.store, Some(&hash)) {
            Classification::Unchanged => {
                self.store.put(
                    scan.path.clone(),
                    HistoryElement {
                        file_path: scan.path,
                        md5_hash: Some(hash),
                        modified_time: scan.modified_time,
                        size: Some(scan.size),
                    },
                );
                self.stats.record_unchanged();
                Action::Next
            },
            _ => self.plan_copy(root, scan, Some(hash)),
        }
    }

    fn copied(&mut self, scan: ScanResult, hash: Option<String>)
        ensures
            final(self)@ == on_copied(old(self)@, scan@, crate::history::text_of(hash)),
    {
        self.store.put(
            scan.path.clone(),
            HistoryElement {
                file_path: scan.path,
                md5_hash: hash,
                modified_time: scan.modified_time,
                size: Some(scan.size),
            },
        );
        self.stats.record_copied();
        self.phase = Phase::Idle;
    }
}

} // verus!
