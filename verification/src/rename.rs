use vstd::prelude::*;

use crate::pattern::{pattern_matches, regex_is_match, regex_replace, replaced, Pattern};

verus! {

/// Why one candidate path could not be renamed.
pub enum RenameError {
    /// The path matched the pattern but no filesystem entry exists at it.
    SourceDoesNotExist,
    /// An entry already exists at the computed destination; renaming never
    /// overwrites.
    DestinationExists(String),
    /// The underlying rename call itself failed; carries its message.
    FsError(String),
}

/// What became of one candidate path.
pub enum RenameOutcome {
    /// The path was renamed to the given destination.
    Renamed(String),
    /// Dry run: the path would have been renamed to the given destination.
    WouldRename(String),
    /// The pattern does not match the path; not an error.
    Skipped,
    /// The path matched but could not be renamed.
    Failed(RenameError),
}

/// The next thing to do for one candidate path.  The filesystem itself is
/// outside the library: the caller performs the probes and the rename call
/// and feeds the answers back in.
pub enum RenameStep {
    /// The outcome is settled; nothing more touches the filesystem.
    Done(RenameOutcome),
    /// The destination has been computed: probe whether the path and the
    /// destination exist, then call `settle_rename`.
    CheckFs(String),
    /// Perform the rename to the given destination, then call
    /// `record_rename` with the result.
    Commit(String),
}

/// The shape of an outcome, with the destination strings abstracted away.
pub enum OutcomeKind {
    Skipped,
    SourceMissing,
    DestinationTaken,
    WouldRename,
    Renamed,
    FsFailed,
}

impl RenameOutcome {
    /// The shape of this outcome.
    pub open spec fn kind(self) -> OutcomeKind {
        match self {
            RenameOutcome::Renamed(_) => OutcomeKind::Renamed,
            RenameOutcome::WouldRename(_) => OutcomeKind::WouldRename,
            RenameOutcome::Skipped => OutcomeKind::Skipped,
            RenameOutcome::Failed(RenameError::SourceDoesNotExist) => OutcomeKind::SourceMissing,
            RenameOutcome::Failed(RenameError::DestinationExists(_)) => OutcomeKind::DestinationTaken,
            RenameOutcome::Failed(RenameError::FsError(_)) => OutcomeKind::FsFailed,
        }
    }
}

/// The decision taken for one candidate path, by the first applicable
/// condition: no match skips it, a missing source or an occupied
/// destination fails it, a dry run only previews, and otherwise the rename
/// is committed (`Renamed` assumes the commit itself succeeds).
pub open spec fn spec_decision(
    matched: bool,
    source_exists: bool,
    destination_exists: bool,
    dry_run: bool,
) -> OutcomeKind {
    if !matched {
        OutcomeKind::Skipped
    } else if !source_exists {
        OutcomeKind::SourceMissing
    } else if destination_exists {
        OutcomeKind::DestinationTaken
    } else if dry_run {
        OutcomeKind::WouldRename
    } else {
        OutcomeKind::Renamed
    }
}

/// Match test and substitution for one candidate path: a path the pattern
/// does not match is skipped outright; otherwise the destination is the
/// path with the leftmost match replaced, and the filesystem must be
/// probed next.
pub fn prepare_rename(pattern: &Pattern, path: &str, replacement: &str) -> (r: RenameStep)
    ensures
        !pattern_matches(pattern@, path@) ==> r == RenameStep::Done(RenameOutcome::Skipped),
        pattern_matches(pattern@, path@) ==> (r matches RenameStep::CheckFs(d) && d@ == replaced(
            pattern@,
            path@,
            replacement@,
        )),
{
    if regex_is_match(pattern, path) {
        RenameStep::CheckFs(regex_replace(pattern, path, replacement))
    } else {
        RenameStep::Done(RenameOutcome::Skipped)
    }
}

/// The decision for a matching path, given the filesystem's answers: does
/// an entry exist at the path, and at the computed destination.  The
/// checks apply in order: source existence, destination collision, dry
/// run; only a `Commit` asks the caller to touch the filesystem.
pub fn settle_rename(
    destination: String,
    dry_run: bool,
    source_exists: bool,
    destination_exists: bool,
) -> (r: RenameStep)
    ensures
        !source_exists ==> r == RenameStep::Done(
            RenameOutcome::Failed(RenameError::SourceDoesNotExist),
        ),
        source_exists && destination_exists ==> r == RenameStep::Done(
            RenameOutcome::Failed(RenameError::DestinationExists(destination)),
        ),
        source_exists && !destination_exists && dry_run ==> r == RenameStep::Done(
            RenameOutcome::WouldRename(destination),
        ),
        source_exists && !destination_exists && !dry_run ==> r == RenameStep::Commit(destination),
        r matches RenameStep::Done(o) ==> o.kind() == spec_decision(
            true,
            source_exists,
            destination_exists,
            dry_run,
        ),
        r is Commit <==> spec_decision(true, source_exists, destination_exists, dry_run)
            == OutcomeKind::Renamed,
{
    if !source_exists {
        RenameStep::Done(RenameOutcome::Failed(RenameError::SourceDoesNotExist))
    } else if destination_exists {
        RenameStep::Done(RenameOutcome::Failed(RenameError::DestinationExists(destination)))
    } else if dry_run {
        RenameStep::Done(RenameOutcome::WouldRename(destination))
    } else {
        RenameStep::Commit(destination)
    }
}

/// Folds the caller's rename result into the outcome: no error means the
/// path now lives at `destination`; otherwise the message of the
/// filesystem error is carried through unchanged.
pub fn record_rename(destination: String, fs_error: Option<String>) -> (o: RenameOutcome)
    ensures
        fs_error is None ==> o == RenameOutcome::Renamed(destination),
        fs_error matches Some(m) ==> o == RenameOutcome::Failed(RenameError::FsError(m)),
{
    match fs_error {
        None => RenameOutcome::Renamed(destination),
        Some(m) => RenameOutcome::Failed(RenameError::FsError(m)),
    }
}

} // verus!
