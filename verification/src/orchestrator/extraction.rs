//! The decisions of the extraction stage: which download is the archive,
//! which unpacked directory is the source tree, and in which order the
//! driver unpacks, moves and cleans up.

use vstd::prelude::*;
use vstd::string::StringSliceAdditionalSpecFns;
use vstd::utf8::encode_utf8;
use crate::orchestrator::error::SetupError;
use crate::text::{ends_with, occurs_at, starts_with};

verus! {

/// One entry of a directory, as the driver found it.
pub struct DirEntry {
    /// The entry's file name, without any directory.
    pub name: String,
    /// The entry is a directory.
    pub is_dir: bool,
    /// When the entry was last modified, in seconds since the epoch.
    pub modified: u64,
}

/// With what the name of the archive begins.
pub open spec fn archive_prefix() -> Seq<u8> {
    "ffmpeg".spec_bytes()
}

/// With what the name of the archive ends.
pub open spec fn archive_suffix() -> Seq<u8> {
    ".tar.gz".spec_bytes()
}

/// `name` is the name of an archive of the sources: it begins with the
/// prefix and ends with the suffix.
pub open spec fn is_archive_name(name: Seq<char>) -> bool {
    let bytes = encode_utf8(name);
    &&& occurs_at(bytes, archive_prefix(), 0)
    &&& archive_suffix().len() <= bytes.len()
    &&& occurs_at(bytes, archive_suffix(), bytes.len() - archive_suffix().len())
}

/// Entry `i` is the newest archive among the entries: it is named like an
/// archive, no entry named like one was modified later, and of those
/// modified at the same time it is the first.
pub open spec fn is_newest_archive(entries: Seq<DirEntry>, i: int) -> bool {
    &&& 0 <= i < entries.len()
    &&& is_archive_name(entries[i].name@)
    &&& forall|j: int|
        0 <= j < entries.len() && is_archive_name(#[trigger] entries[j].name@)
            ==> entries[j].modified <= entries[i].modified
    &&& forall|j: int|
        0 <= j < i && is_archive_name(#[trigger] entries[j].name@) ==> entries[j].modified
            < entries[i].modified
}

/// The index of the newest archive among the first `n` entries.
pub open spec fn newest_archive_among(entries: Seq<DirEntry>, n: int) -> Option<int>
    decreases n,
{
    if n <= 0 || n > entries.len() {
        None
    } else {
        let earlier = newest_archive_among(entries, n - 1);
        if !is_archive_name(entries[n - 1].name@) {
            earlier
        } else {
            match earlier {
                Some(b) if entries[b].modified >= entries[n - 1].modified => earlier,
                _ => Some(n - 1),
            }
        }
    }
}

/// The index of the newest archive among the entries, if one is named like
/// an archive.
pub open spec fn newest_archive(entries: Seq<DirEntry>) -> Option<int> {
    newest_archive_among(entries, entries.len() as int)
}

/// The index of the first entry at or after `from` that is a directory.
pub open spec fn first_dir_from(entries: Seq<DirEntry>, from: int) -> Option<int>
    decreases entries.len() - from,
{
    if from < 0 || from >= entries.len() {
        None
    } else if entries[from].is_dir {
        Some(from)
    } else {
        first_dir_from(entries, from + 1)
    }
}

/// `newest_archive_among` returns the newest archive of the first `n`
/// entries, and `None` only where none of them is named like an archive.
pub proof fn lemma_newest_archive_among(entries: Seq<DirEntry>, n: int)
    requires
        0 <= n <= entries.len(),
    ensures
        match newest_archive_among(entries, n) {
            Some(i) => is_newest_archive(entries.take(n), i),
            None => forall|j: int| 0 <= j < n ==> !is_archive_name(#[trigger] entries[j].name@),
        },
    decreases n,
{
    if n > 0 {
        lemma_newest_archive_among(entries, n - 1);
        let shorter = entries.take(n - 1);
        let longer = entries.take(n);
        assert forall|j: int| 0 <= j < n - 1 implies shorter[j] == longer[j] by {}
        match newest_archive_among(entries, n) {
            Some(i) => {
                assert(longer[i] == entries[i]);
                assert forall|j: int|
                    0 <= j < longer.len() && is_archive_name(
                        #[trigger] longer[j].name@,
                    ) implies longer[j].modified <= longer[i].modified by {
                    if j < n - 1 {
                        assert(is_archive_name(shorter[j].name@));
                    }
                }
                assert forall|j: int|
                    0 <= j < i && is_archive_name(
                        #[trigger] longer[j].name@,
                    ) implies longer[j].modified < longer[i].modified by {
                    assert(is_archive_name(shorter[j].name@));
                }
            },
            None => {},
        }
    }
}

/// `newest_archive` returns the newest archive, and `None` exactly where no
/// entry is named like an archive.
pub proof fn lemma_newest_archive(entries: Seq<DirEntry>)
    ensures
        match newest_archive(entries) {
            Some(i) => is_newest_archive(entries, i),
            None => forall|j: int|
                0 <= j < entries.len() ==> !is_archive_name(#[trigger] entries[j].name@),
        },
{
    lemma_newest_archive_among(entries, entries.len() as int);
    assert(entries.take(entries.len() as int) =~= entries);
}

/// `first_dir_from` returns the least index of a directory, and `None` only
/// where no entry at or after `from` is one.
pub proof fn lemma_first_dir_from(entries: Seq<DirEntry>, from: int)
    requires
        0 <= from,
    ensures
        match first_dir_from(entries, from) {
            Some(i) => from <= i < entries.len() && entries[i].is_dir && forall|j: int|
                from <= j < i ==> !entries[j].is_dir,
            None => forall|j: int| from <= j < entries.len() ==> !entries[j].is_dir,
        },
    decreases entries.len() - from,
{
    if from < entries.len() && !entries[from].is_dir {
        lemma_first_dir_from(entries, from + 1);
    }
}

/// Tells whether `name` is the name of an archive of the sources.
pub fn is_archive(name: &str) -> (r: bool)
    ensures
        r == is_archive_name(name@),
{
    let bytes = name.as_bytes();
    starts_with(bytes, "ffmpeg".as_bytes()) && ends_with(bytes, ".tar.gz".as_bytes())
}

/// The index of the archive of the sources among the downloads: of the
/// entries named like one, the one modified last, and the first of those
/// where several were modified at the same time. `None` where no entry is
/// named like an archive.
pub fn find_archive(entries: &Vec<DirEntry>) -> (r: Option<usize>)
    ensures
        match r {
            Some(i) => newest_archive(entries@) == Some(i as int),
            None => newest_archive(entries@) is None,
        },
        match r {
            Some(i) => is_newest_archive(entries@, i as int),
            None => forall|j: int|
                0 <= j < entries@.len() ==> !is_archive_name(#[trigger] entries@[j].name@),
        },
{
    proof {
        lemma_newest_archive(entries@);
    }
    let mut best: Option<usize> = None;
    let mut i: usize = 0;
    while i < entries.len()
        invariant
            i <= entries.len(),
            match best {
                Some(b) => newest_archive_among(entries@, i as int) == Some(b as int) && b < i,
                None => newest_archive_among(entries@, i as int) is None,
            },
        decreases entries.len() - i,
    {
        if is_archive(entries[i].name.as_str()) {
            best = match best {
                Some(b) if entries[b].modified >= entries[i].modified => Some(b),
                _ => Some(i),
            };
        }
        i += 1;
    }
    best
}

/// The index of the first unpacked entry that is a directory, in the order
/// in which the driver listed them: the top-level directory of the sources.
pub fn find_top_level_dir(entries: &Vec<DirEntry>) -> (r: Option<usize>)
    ensures
        match r {
            Some(i) => first_dir_from(entries@, 0) == Some(i as int),
            None => first_dir_from(entries@, 0) is None,
        },
        match r {
            Some(i) => i < entries@.len() && entries@[i as int].is_dir && forall|j: int|
                0 <= j < i ==> !entries@[j].is_dir,
            None => forall|j: int| 0 <= j < entries@.len() ==> !entries@[j].is_dir,
        },
{
    proof {
        lemma_first_dir_from(entries@, 0);
    }
    let mut i: usize = 0;
    while i < entries.len()
        invariant
            i <= entries.len(),
            forall|j: int| 0 <= j < i ==> !entries@[j].is_dir,
            match first_dir_from(entries@, 0) {
                Some(k) => 0 <= k < entries@.len() && entries@[k].is_dir && forall|j: int|
                    0 <= j < k ==> !entries@[j].is_dir,
                None => forall|j: int| 0 <= j < entries@.len() ==> !entries@[j].is_dir,
            },
        decreases entries.len() - i,
    {
        if entries[i].is_dir {
            return Some(i);
        }
        i += 1;
    }
    None
}

/// Where the extraction of the sources stands.
#[derive(Clone, Copy, Debug, PartialEq, Eq)]
pub enum ExtractState {
    /// Waiting to hear whether the source tree is in place already.
    AwaitTree,
    /// Waiting for the list of the downloads.
    AwaitDownloads,
    /// Waiting for a fresh staging directory, into which download number
    /// `archive` will be unpacked.
    AwaitFreshStaging { archive: usize },
    /// Waiting for download number `archive` to be unpacked.
    AwaitUnpack { archive: usize },
    /// Waiting for the list of what was unpacked.
    AwaitStaging,
    /// Waiting for the tree's final path to be cleared, to which unpacked
    /// entry number `top` will be moved.
    AwaitClearTarget { top: usize },
    /// Waiting for unpacked entry number `top` to be moved into place.
    AwaitPromote { top: usize },
    /// Waiting for the staging directory to be removed; `failure` is the
    /// error to end with, if there is one.
    AwaitCleanup { failure: Option<SetupError> },
    /// The source tree is in place.
    Finished,
    /// The stage failed.
    Failed(SetupError),
}

/// What the driver of the extraction has to do next.
#[derive(Clone, Copy, Debug, PartialEq, Eq)]
pub enum ExtractAction {
    /// Look whether a directory stands at the tree's final path, and report
    /// it.
    ProbeTree,
    /// List the tool's downloads; report whether they could be listed, and
    /// the entries.
    ListDownloads,
    /// Remove the staging directory if there is one, and make a new, empty
    /// one; report whether that went well.
    PrepareStaging,
    /// Unpack download number `archive` into the staging directory, and
    /// report whether that went well.
    Unpack { archive: usize },
    /// List the staging directory; report whether it could be listed, and
    /// the entries.
    ListStaging,
    /// Remove what stands at the tree's final path, if anything does, and
    /// report whether the path is free.
    RemoveTarget,
    /// Move unpacked entry number `top` to the tree's final path, and report
    /// whether that went well.
    Promote { top: usize },
    /// Remove the staging directory if there is one, and report whether
    /// that went well.
    RemoveStaging,
    /// Nothing is left to do.
    Succeed,
    /// Give up with this error.
    Fail(SetupError),
}

/// The state the extraction starts in.
pub open spec fn extract_start() -> ExtractState {
    ExtractState::AwaitTree
}

/// The state in which the staging directory is removed before the stage
/// fails with `error`.
pub open spec fn cleanup_then_fail(error: SetupError) -> ExtractState {
    ExtractState::AwaitCleanup { failure: Some(error) }
}

/// The state that follows `state` when the driver reports `ok` and, for a
/// listing, the entries `entries`.
pub open spec fn extract_next(state: ExtractState, ok: bool, entries: Seq<DirEntry>) -> ExtractState {
    match state {
        ExtractState::AwaitTree => if ok {
            ExtractState::Finished
        } else {
            ExtractState::AwaitDownloads
        },
        ExtractState::AwaitDownloads => match newest_archive(entries) {
            Some(i) if ok => ExtractState::AwaitFreshStaging { archive: i as usize },
            _ => ExtractState::Failed(SetupError::ArchiveMissing),
        },
        ExtractState::AwaitFreshStaging { archive } => if ok {
            ExtractState::AwaitUnpack { archive }
        } else {
            cleanup_then_fail(SetupError::ExtractionFailed)
        },
        ExtractState::AwaitUnpack { archive } => if ok {
            ExtractState::AwaitStaging
        } else {
            cleanup_then_fail(SetupError::ExtractionFailed)
        },
        ExtractState::AwaitStaging => match first_dir_from(entries, 0) {
            Some(i) if ok => ExtractState::AwaitClearTarget { top: i as usize },
            _ => cleanup_then_fail(SetupError::NoTopLevelDirectory),
        },
        ExtractState::AwaitClearTarget { top } => if ok {
            ExtractState::AwaitPromote { top }
        } else {
            cleanup_then_fail(SetupError::ExtractionFailed)
        },
        ExtractState::AwaitPromote { top } => if ok {
            ExtractState::AwaitCleanup { failure: None }
        } else {
            cleanup_then_fail(SetupError::ExtractionFailed)
        },
        ExtractState::AwaitCleanup { failure } => match failure {
            Some(e) => ExtractState::Failed(e),
            None => if ok {
                ExtractState::Finished
            } else {
                ExtractState::Failed(SetupError::ExtractionFailed)
            },
        },
        ExtractState::Finished => ExtractState::Finished,
        ExtractState::Failed(e) => ExtractState::Failed(e),
    }
}

/// What the driver has to do in `state`.
pub open spec fn extract_pending(state: ExtractState) -> ExtractAction {
    match state {
        ExtractState::AwaitTree => ExtractAction::ProbeTree,
        ExtractState::AwaitDownloads => ExtractAction::ListDownloads,
        ExtractState::AwaitFreshStaging { .. } => ExtractAction::PrepareStaging,
        ExtractState::AwaitUnpack { archive } => ExtractAction::Unpack { archive },
        ExtractState::AwaitStaging => ExtractAction::ListStaging,
        ExtractState::AwaitClearTarget { .. } => ExtractAction::RemoveTarget,
        ExtractState::AwaitPromote { top } => ExtractAction::Promote { top },
        ExtractState::AwaitCleanup { .. } => ExtractAction::RemoveStaging,
        ExtractState::Finished => ExtractAction::Succeed,
        ExtractState::Failed(e) => ExtractAction::Fail(e),
    }
}

/// The state the extraction starts in: the driver is asked first whether
/// the tree is in place already.
pub fn start_extract() -> (r: ExtractState)
    ensures
        r == extract_start(),
{
    ExtractState::AwaitTree
}

/// What the driver has to do in `state`.
pub fn extract_action(state: ExtractState) -> (r: ExtractAction)
    ensures
        r == extract_pending(state),
{
    match state {
        ExtractState::AwaitTree => ExtractAction::ProbeTree,
        ExtractState::AwaitDownloads => ExtractAction::ListDownloads,
        ExtractState::AwaitFreshStaging { .. } => ExtractAction::PrepareStaging,
        ExtractState::AwaitUnpack { archive } => ExtractAction::Unpack { archive },
        ExtractState::AwaitStaging => ExtractAction::ListStaging,
        ExtractState::AwaitClearTarget { .. } => ExtractAction::RemoveTarget,
        ExtractState::AwaitPromote { top } => ExtractAction::Promote { top },
        ExtractState::AwaitCleanup { .. } => ExtractAction::RemoveStaging,
        ExtractState::Finished => ExtractAction::Succeed,
        ExtractState::Failed(e) => ExtractAction::Fail(e),
    }
}

/// The state that follows `state` when the driver reports `ok` for the
/// action that `state` asked for; `entries` is what a listing found, and is
/// not read otherwise.
///
/// A tree that is in place already ends the stage with success at once.
/// Downloads that cannot be listed, or hold no archive, end it as
/// `ArchiveMissing` before anything is touched. The archive is unpacked
/// into a fresh staging directory, and its top-level directory is moved to
/// a final path that was cleared just before. Once the staging directory
/// has been asked for, the stage ends only after it has been removed again,
/// with success or with the first error that came up.
pub fn extract_step(state: ExtractState, ok: bool, entries: &Vec<DirEntry>) -> (r: ExtractState)
    ensures
        r == extract_next(state, ok, entries@),
{
    let failed = ExtractState::AwaitCleanup { failure: Some(SetupError::ExtractionFailed) };
    match state {
        ExtractState::AwaitTree => if ok {
            ExtractState::Finished
        } else {
            ExtractState::AwaitDownloads
        },
        ExtractState::AwaitDownloads => {
            if !ok {
                return ExtractState::Failed(SetupError::ArchiveMissing);
            }
            match find_archive(entries) {
                Some(i) => ExtractState::AwaitFreshStaging { archive: i },
                None => ExtractState::Failed(SetupError::ArchiveMissing),
            }
        },
        ExtractState::AwaitFreshStaging { archive } => if ok {
            ExtractState::AwaitUnpack { archive }
        } else {
            failed
        },
        ExtractState::AwaitUnpack { archive } => if ok {
            ExtractState::AwaitStaging
        } else {
            failed
        },
        ExtractState::AwaitStaging => {
            if !ok {
                return ExtractState::AwaitCleanup {
                    failure: Some(SetupError::NoTopLevelDirectory),
                };
            }
            match find_top_level_dir(entries) {
                Some(i) => ExtractState::AwaitClearTarget { top: i },
                None => ExtractState::AwaitCleanup {
                    failure: Some(SetupError::NoTopLevelDirectory),
                },
            }
        },
        ExtractState::AwaitClearTarget { top } => if ok {
            ExtractState::AwaitPromote { top }
        } else {
            failed
        },
        ExtractState::AwaitPromote { top } => if ok {
            ExtractState::AwaitCleanup { failure: None }
        } else {
            failed
        },
        ExtractState::AwaitCleanup { failure } => match failure {
            Some(e) => ExtractState::Failed(e),
            None => if ok {
                ExtractState::Finished
            } else {
                ExtractState::Failed(SetupError::ExtractionFailed)
            },
        },
        ExtractState::Finished => ExtractState::Finished,
        ExtractState::Failed(e) => ExtractState::Failed(e),
    }
}

/// A bound on the number of answers the extraction can still take in
/// `state`.
pub open spec fn extract_steps_left(state: ExtractState) -> int {
    match state {
        ExtractState::AwaitTree => 8,
        ExtractState::AwaitDownloads => 7,
        ExtractState::AwaitFreshStaging { .. } => 6,
        ExtractState::AwaitUnpack { .. } => 5,
        ExtractState::AwaitStaging => 4,
        ExtractState::AwaitClearTarget { .. } => 3,
        ExtractState::AwaitPromote { .. } => 2,
        ExtractState::AwaitCleanup { .. } => 1,
        ExtractState::Finished => 0,
        ExtractState::Failed(_) => 0,
    }
}

/// The staging directory may exist in `state`: it has been asked for and
/// not yet been removed.
pub open spec fn staging_in_use(state: ExtractState) -> bool {
    state is AwaitFreshStaging || state is AwaitUnpack || state is AwaitStaging
        || state is AwaitClearTarget || state is AwaitPromote
}

/// A tree that is in place already is not extracted again: the stage ends
/// with success on the first answer, before anything is listed or removed.
pub proof fn law_present_tree_is_kept(entries: Seq<DirEntry>)
    ensures
        extract_next(extract_start(), true, entries) == ExtractState::Finished,
        extract_pending(extract_start()) == ExtractAction::ProbeTree,
{
}

/// The extraction ends: every answer lowers the bound.
pub proof fn law_extract_ends(state: ExtractState, ok: bool, entries: Seq<DirEntry>)
    requires
        !(state is Finished || state is Failed),
    ensures
        0 <= extract_steps_left(extract_next(state, ok, entries)) < extract_steps_left(state),
{
}

/// The staging directory does not outlive the stage: while it may exist,
/// no answer ends the stage; the stage goes on with the staging directory
/// or turns to its removal.
pub proof fn law_staging_is_removed(state: ExtractState, ok: bool, entries: Seq<DirEntry>)
    requires
        staging_in_use(state),
    ensures
        staging_in_use(extract_next(state, ok, entries)) || extract_next(state, ok, entries)
            is AwaitCleanup,
{
}

/// Nothing is unpacked but into a fresh staging directory, and nothing is
/// moved but to a path that was cleared: the unpacking follows only the
/// successful making of the staging directory, and the move only the
/// successful clearing of the final path.
pub proof fn law_fresh_before_use(state: ExtractState, ok: bool, entries: Seq<DirEntry>)
    requires
        !(state is Finished || state is Failed),
    ensures
        extract_next(state, ok, entries) is AwaitUnpack ==> state is AwaitFreshStaging && ok,
        extract_next(state, ok, entries) is AwaitPromote ==> state is AwaitClearTarget && ok,
{
}

} // verus!
