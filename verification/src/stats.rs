//! Counters of one synchronisation run.

use vstd::prelude::*;

verus! {

/// One more than `count`; a counter that has reached `u64::MAX` stays there.
pub open spec fn bumped(count: u64) -> u64 {
    if count < u64::MAX {
        (count + 1) as u64
    } else {
        count
    }
}

fn bump(count: u64) -> (next: u64)
    ensures
        next == bumped(count),
{
    if count < u64::MAX {
        count + 1
    } else {
        count
    }
}

/// What a run did, file by file.
#[derive(Debug, Clone, Copy, PartialEq, Eq)]
pub struct RunStats {
    /// Files that were copied to the output directory.
    pub files_copied: u64,
    /// Files that were found unchanged and left alone.
    pub files_unchanged: u64,
    /// Files that could not be read or copied.
    pub files_in_error: u64,
}

impl RunStats {
    /// The counters before any file.
    pub open spec fn zero() -> RunStats {
        RunStats { files_copied: 0, files_unchanged: 0, files_in_error: 0 }
    }

    /// The counters after one more copy.
    pub open spec fn with_copy(self) -> RunStats {
        RunStats { files_copied: bumped(self.files_copied), ..self }
    }

    /// The counters after one more unchanged file.
    pub open spec fn with_unchanged(self) -> RunStats {
        RunStats { files_unchanged: bumped(self.files_unchanged), ..self }
    }

    /// The counters after one more failure.
    pub open spec fn with_error(self) -> RunStats {
        RunStats { files_in_error: bumped(self.files_in_error), ..self }
    }

    /// The counters before any file.
    pub fn new() -> (stats: Self)
        ensures
            stats == RunStats::zero(),
    {
        RunStats { files_copied: 0, files_unchanged: 0, files_in_error: 0 }
    }

    /// Counts one copied file.
    pub fn record_copied(&mut self)
        ensures
            *final(self) == old(self).with_copy(),
    {
        self.files_copied = bump(self.files_copied);
    }

    /// Counts one unchanged file.
    pub fn record_unchanged(&mut self)
        ensures
            *final(self) == old(self).with_unchanged(),
    {
        self.files_unchanged = bump(self.files_unchanged);
    }

    /// Counts one file in error.
    pub fn record_error(&mut self)
        ensures
            *final(self) == old(self).with_error(),
    {
        self.files_in_error = bump(self.files_in_error);
    }
}

} // verus!
