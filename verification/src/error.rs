//! What can go wrong in a run, and what it means for the run.

use vstd::prelude::*;

verus! {

/// An error of a synchronisation run.
#[derive(Debug, PartialEq, Eq)]
pub enum SyncError {
    /// The configuration is missing or malformed. Nothing has been scanned.
    Config { reason: String },
    /// The history file exists and cannot be understood. The run does not
    /// go on with an empty history in its place: a history that is wrongly
    /// taken for empty or, worse, half read would misclassify files.
    CorruptHistory { reason: String },
    /// One file could not be read or copied.
    Io { path: String, reason: String },
    /// The output directory cannot be prepared, or the history cannot be
    /// written.
    FilesystemSetup { reason: String },
}

/// Whether an error of this kind ends the run. Only the failure of a single
/// file does not.
pub open spec fn fatal(error: SyncError) -> bool {
    !(error is Io)
}

/// The text that describes `error`.
pub open spec fn message_of(error: SyncError) -> Seq<char> {
    match error {
        SyncError::Config { reason } => "configuration error: "@ + reason@,
        SyncError::CorruptHistory { reason } => "corrupt history store: "@ + reason@,
        SyncError::Io { path, reason } => path@ + ": "@ + reason@,
        SyncError::FilesystemSetup { reason } => "filesystem setup failed: "@ + reason@,
    }
}

/// The exit status of a run that ended with `error`, or without one: zero
/// unless a fatal error ended it.
pub open spec fn exit_status(error: Option<SyncError>) -> u8 {
    match error {
        Some(e) => if fatal(e) {
            1
        } else {
            0
        },
        None => 0,
    }
}

impl SyncError {
    /// Whether this error ends the run.
    pub fn is_fatal(&self) -> (ends: bool)
        ensures
            ends == fatal(*self),
    {
        match self {
            SyncError::Io { .. } => false,
            _ => true,
        }
    }

    /// A line of text that describes this error.
    pub fn message(&self) -> (text: String)
        ensures
            text@ == message_of(*self),
    {
        match self {
            SyncError::Config { reason } => String::from_str("configuration error: ").concat(
                reason.as_str(),
            ),
            SyncError::CorruptHistory { reason } => String::from_str(
                "corrupt history store: ",
            ).concat(reason.as_str()),
            SyncError::Io { path, reason } => path.clone().concat(": ").concat(reason.as_str()),
            SyncError::FilesystemSetup { reason } => String::from_str("filesystem setup failed: ").concat(reason.as_str()),
        }
    }
}

/// The exit status of a run: zero where it completed, even if single files
/// failed, and one where a fatal error ended it.
pub fn exit_code(error: Option<&SyncError>) -> (status: u8)
    ensures
        status == exit_status(
            match error {
                Some(e) => Some(*e),
                None => None,
            },
        ),
{
    match error {
        Some(e) => if e.is_fatal() {
            1
        } else {
            0
        },
        None => 0,
    }
}

} // verus!
