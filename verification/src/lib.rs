//! Incremental file synchronisation.
//!
//! A run walks the configured scan roots, finds the files that are new or
//! have changed since the last run, copies those to the output directory, and
//! keeps a history store so that the next run can pass over what has not
//! changed. This library holds the decisions of such a run: which entries
//! qualify, how a file is classified, where its copy goes, what the history
//! and the counters become. It touches no file itself; the caller reads,
//! copies and writes as the [`engine`] asks.

pub mod config;
pub mod detector;
pub mod engine;
pub mod error;
pub mod hasher;
pub mod history;
pub mod laws;
pub mod paths;
pub mod scanner;
pub mod stats;
pub mod text;

pub use config::Config;
pub use detector::{ChangeDetector, Classification};
pub use engine::{Action, Event, FileFailure, SyncEngine};
pub use error::SyncError;
pub use hasher::ContentHasher;
pub use history::{HistoryElement, HistoryEntry, HistorySource, HistoryStore};
pub use scanner::{Candidate, EntryKind, ScanResult, Scanner};
pub use stats::RunStats;
