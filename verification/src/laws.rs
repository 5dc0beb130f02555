//! What holds of every run, whatever files it meets.
//!
//! The statements speak of an engine whose driver does as it is asked: it
//! reports a file, supplies the fingerprint when the engine asks for it, and
//! performs the copy when the engine asks for that.

use vstd::prelude::*;
use crate::detector::{known_of, metadata_unchanged};
use crate::engine::{left_alone, recorded, step, ActionView, EngineView, EventView, PhaseView};
use crate::paths::mirrored;
use crate::scanner::{qualifies, scan_result_of, CandidateView};

verus! {

/// The engine once `entry` has been reported and, if the engine asked for
/// it, the fingerprint `hash` supplied: either the file is settled, or its
/// copy is asked for.
pub open spec fn settle(state: EngineView, root: Seq<char>, entry: CandidateView, hash: Seq<char>) -> (
    EngineView,
    ActionView,
) {
    let (asked, first) = step(state, EventView::Found { root, entry });
    if first is Hash {
        step(asked, EventView::Hashed { hash })
    } else {
        (asked, first)
    }
}

/// The engine once `entry` has been dealt with and nothing went wrong on the
/// driver's side: as [`settle`], and the copy done if one was asked for.
pub open spec fn process(state: EngineView, root: Seq<char>, entry: CandidateView, hash: Seq<char>) -> EngineView {
    let (settled, action) = settle(state, root, entry, hash);
    if action is Copy {
        step(settled, EventView::Copied).0
    } else {
        settled
    }
}

/// The fingerprint that goes on record for a file whose fingerprint is
/// `hash`: none where fingerprints are not in use.
pub open spec fn hash_on_record(state: EngineView, hash: Seq<char>) -> Option<Seq<char>> {
    if state.hashing {
        Some(hash)
    } else {
        None
    }
}

/// A file that is as the history remembers it (the same modification time
/// and size or, where fingerprints are in use, the same fingerprint) is
/// counted as unchanged and no copy is asked for. The history keeps its keys,
/// and the fingerprint on record for the file stays what it was.
pub proof fn lemma_unchanged_file_is_left_alone(
    state: EngineView,
    root: Seq<char>,
    entry: CandidateView,
    hash: Seq<char>,
)
    requires
        state.phase is Idle,
        qualifies(entry, state.extensions),
        state.history.contains_key(entry.path),
        metadata_unchanged(scan_result_of(entry), state.history[entry.path]) || (state.hashing
            && state.history[entry.path].md5_hash == Some(hash)),
    ensures
        settle(state, root, entry, hash).1 == ActionView::Next,
        process(state, root, entry, hash) == settle(state, root, entry, hash).0,
        process(state, root, entry, hash).phase is Idle,
        process(state, root, entry, hash).stats == state.stats.with_unchanged(),
        process(state, root, entry, hash).history.dom() == state.history.dom(),
        process(state, root, entry, hash).history[entry.path].md5_hash
            == state.history[entry.path].md5_hash,
        metadata_unchanged(scan_result_of(entry), state.history[entry.path]) ==> process(
            state,
            root,
            entry,
            hash,
        ).history == state.history,
{
    let scan = scan_result_of(entry);
    let after = process(state, root, entry, hash);
    if !metadata_unchanged(scan, state.history[entry.path]) {
        assert(after.history.dom() =~= state.history.dom());
    }
}

/// Once a file has been found unchanged, by its metadata or by its
/// fingerprint, the next look at it needs no fingerprint: the entry that was
/// refreshed vouches for the file as it is now.
pub proof fn lemma_refresh_spares_the_next_hash(
    state: EngineView,
    root: Seq<char>,
    entry: CandidateView,
    hash: Seq<char>,
)
    requires
        state.phase is Idle,
        qualifies(entry, state.extensions),
        state.history.contains_key(entry.path),
        metadata_unchanged(scan_result_of(entry), state.history[entry.path]) || (state.hashing
            && state.history[entry.path].md5_hash == Some(hash)),
    ensures
        step(process(state, root, entry, hash), EventView::Found { root, entry }).1
            == ActionView::Next,
{
}

/// A file that the history does not know is copied and put on record, and a
/// run that follows at once, on the history that this one leaves, counts it
/// as unchanged and asks for no copy.
pub proof fn lemma_new_file_is_copied_once(
    state: EngineView,
    again: EngineView,
    root: Seq<char>,
    entry: CandidateView,
    hash: Seq<char>,
)
    requires
        state.phase is Idle,
        qualifies(entry, state.extensions),
        !state.history.contains_key(entry.path),
        mirrored(root, entry.path, state.output_dir) is Some,
        again.phase is Idle,
        again.extensions == state.extensions,
        again.hashing == state.hashing,
        again.history == process(state, root, entry, hash).history,
    ensures
        settle(state, root, entry, hash).1 == (ActionView::Copy {
            from: entry.path,
            to: mirrored(root, entry.path, state.output_dir)->0,
        }),
        process(state, root, entry, hash).phase is Idle,
        process(state, root, entry, hash).stats == state.stats.with_copy(),
        process(state, root, entry, hash).history == state.history.insert(
            entry.path,
            recorded(scan_result_of(entry), hash_on_record(state, hash)),
        ),
        settle(again, root, entry, hash) == (left_alone(again), ActionView::Next),
{
}

/// A file whose modification time differs from the one on record and, where
/// fingerprints are in use, whose fingerprint differs as well, is copied
/// again, and the history takes its current state.
pub proof fn lemma_changed_file_is_recopied(
    state: EngineView,
    root: Seq<char>,
    entry: CandidateView,
    hash: Seq<char>,
)
    requires
        state.phase is Idle,
        qualifies(entry, state.extensions),
        state.history.contains_key(entry.path),
        state.history[entry.path].modified_time != entry.modified_time,
        state.hashing ==> state.history[entry.path].md5_hash != Some(hash),
        mirrored(root, entry.path, state.output_dir) is Some,
    ensures
        settle(state, root, entry, hash).1 == (ActionView::Copy {
            from: entry.path,
            to: mirrored(root, entry.path, state.output_dir)->0,
        }),
        process(state, root, entry, hash).phase is Idle,
        process(state, root, entry, hash).stats == state.stats.with_copy(),
        process(state, root, entry, hash).history == state.history.insert(
            entry.path,
            recorded(scan_result_of(entry), hash_on_record(state, hash)),
        ),
{
}

/// Every entry that qualifies is counted exactly once, as copied, as
/// unchanged or as in error, and the engine is then ready for the next; an
/// entry that does not qualify leaves no trace at all.
pub proof fn lemma_each_file_is_counted_once(
    state: EngineView,
    root: Seq<char>,
    entry: CandidateView,
    hash: Seq<char>,
)
    requires
        state.phase is Idle,
    ensures
        process(state, root, entry, hash).phase is Idle,
        qualifies(entry, state.extensions) ==> {
            let stats = process(state, root, entry, hash).stats;
            ||| stats == state.stats.with_copy()
            ||| stats == state.stats.with_unchanged()
            ||| stats == state.stats.with_error()
        },
        !qualifies(entry, state.extensions) ==> process(state, root, entry, hash) == state,
{
}

/// The path of the file that the engine has in hand, if it has one.
pub open spec fn path_in_hand(phase: PhaseView) -> Option<Seq<char>> {
    match phase {
        PhaseView::Idle => None,
        PhaseView::AwaitingHash { root, scan } => Some(scan.path),
        PhaseView::AwaitingCopy { scan, hash, to } => Some(scan.path),
    }
}

/// A step changes what the history records under the path of the file in
/// hand, and under no other: what is known of the other files is never
/// disturbed. The parameters of the run never change.
pub proof fn lemma_step_keeps_other_entries(state: EngineView, event: EventView, key: Seq<char>)
    requires
        path_in_hand(state.phase) != Some(key),
    ensures
        step(state, event).0.history.contains_key(key) == state.history.contains_key(key),
        state.history.contains_key(key) ==> step(state, event).0.history[key] == state.history[key],
        step(state, event).0.extensions == state.extensions,
        step(state, event).0.output_dir == state.output_dir,
        step(state, event).0.hashing == state.hashing,
{
}

/// Whether `event` reports the failure of what `phase` is waiting for.
pub open spec fn is_failure_of(event: EventView, phase: PhaseView) -> bool {
    ||| phase is Idle && event is Unreadable
    ||| phase is AwaitingHash && event is HashFailed
    ||| phase is AwaitingCopy && event is CopyFailed
}

/// A file that cannot be read or copied costs one count of the error counter
/// and nothing else: the history and the other counters stay as they are,
/// and every file that follows is handled as if the failed one had never
/// been met.
pub proof fn lemma_failure_stays_local(
    state: EngineView,
    failure: EventView,
    root: Seq<char>,
    entry: CandidateView,
    hash: Seq<char>,
)
    requires
        is_failure_of(failure, state.phase),
    ensures
        step(state, failure).1 == ActionView::Next,
        step(state, failure).0.phase is Idle,
        step(state, failure).0.history == state.history,
        step(state, failure).0.stats == state.stats.with_error(),
        step(state, failure).0.failures.len() == state.failures.len() + 1,
        settle(step(state, failure).0, root, entry, hash).1 == settle(
            EngineView { phase: PhaseView::Idle, ..state },
            root,
            entry,
            hash,
        ).1,
        process(step(state, failure).0, root, entry, hash).history == process(
            EngineView { phase: PhaseView::Idle, ..state },
            root,
            entry,
            hash,
        ).history,
        process(step(state, failure).0, root, entry, hash).stats.files_copied == process(
            EngineView { phase: PhaseView::Idle, ..state },
            root,
            entry,
            hash,
        ).stats.files_copied,
{
}

} // verus!
