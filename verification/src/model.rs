use vstd::prelude::*;

use crate::pattern::{pattern_matches, replaced};
use crate::rename::{spec_decision, OutcomeKind};

verus! {

/// The destination computed for `path`: the path with the leftmost match
/// of `pattern` replaced by `replacement`.  A dry run computes the very
/// same destination, since nothing here depends on the dry-run flag.
pub open spec fn spec_destination(
    pattern: Seq<char>,
    path: Seq<char>,
    replacement: Seq<char>,
) -> Seq<char> {
    replaced(pattern, path, replacement)
}

/// The outcome of one attempt over a model filesystem, taken as the set of
/// path strings at which an entry exists.  `Renamed` stands for a commit
/// whose rename call succeeds; the model has no failing calls.
pub open spec fn spec_outcome(
    pattern: Seq<char>,
    path: Seq<char>,
    replacement: Seq<char>,
    dry_run: bool,
    fs: Set<Seq<char>>,
) -> OutcomeKind {
    spec_decision(
        pattern_matches(pattern, path),
        fs.contains(path),
        fs.contains(spec_destination(pattern, path, replacement)),
        dry_run,
    )
}

/// The model filesystem after one attempt: only a committed rename changes
/// it, removing the entry at the path and adding one at the destination.
pub open spec fn spec_fs_after(
    pattern: Seq<char>,
    path: Seq<char>,
    replacement: Seq<char>,
    dry_run: bool,
    fs: Set<Seq<char>>,
) -> Set<Seq<char>> {
    if spec_outcome(pattern, path, replacement, dry_run, fs) == OutcomeKind::Renamed {
        fs.remove(path).insert(spec_destination(pattern, path, replacement))
    } else {
        fs
    }
}

/// A path the pattern does not match anywhere is skipped and the
/// filesystem is untouched.
pub proof fn lemma_no_match_skips(
    pattern: Seq<char>,
    path: Seq<char>,
    replacement: Seq<char>,
    dry_run: bool,
    fs: Set<Seq<char>>,
)
    requires
        !pattern_matches(pattern, path),
    ensures
        spec_outcome(pattern, path, replacement, dry_run, fs) == OutcomeKind::Skipped,
        spec_fs_after(pattern, path, replacement, dry_run, fs) == fs,
{
}

/// A matching path with no filesystem entry fails as source-missing and no
/// rename takes place.
pub proof fn lemma_missing_source_fails(
    pattern: Seq<char>,
    path: Seq<char>,
    replacement: Seq<char>,
    dry_run: bool,
    fs: Set<Seq<char>>,
)
    requires
        pattern_matches(pattern, path),
        !fs.contains(path),
    ensures
        spec_outcome(pattern, path, replacement, dry_run, fs) == OutcomeKind::SourceMissing,
        spec_fs_after(pattern, path, replacement, dry_run, fs) == fs,
{
}

/// A matching, existing path whose computed destination already exists
/// fails as destination-taken; nothing is overwritten and the entry at the
/// path stays where it was.
pub proof fn lemma_collision_fails(
    pattern: Seq<char>,
    path: Seq<char>,
    replacement: Seq<char>,
    dry_run: bool,
    fs: Set<Seq<char>>,
)
    requires
        pattern_matches(pattern, path),
        fs.contains(path),
        fs.contains(spec_destination(pattern, path, replacement)),
    ensures
        spec_outcome(pattern, path, replacement, dry_run, fs) == OutcomeKind::DestinationTaken,
        spec_fs_after(pattern, path, replacement, dry_run, fs) == fs,
        spec_fs_after(pattern, path, replacement, dry_run, fs).contains(path),
{
}

/// A dry run never changes the filesystem; it would rename exactly when a
/// real run over the same filesystem renames, and in every other case the
/// two runs reach the same outcome.  Both compute the same destination,
/// since `spec_destination` does not depend on the dry-run flag.
pub proof fn lemma_dry_run_is_faithful(
    pattern: Seq<char>,
    path: Seq<char>,
    replacement: Seq<char>,
    fs: Set<Seq<char>>,
)
    ensures
        spec_fs_after(pattern, path, replacement, true, fs) == fs,
        spec_outcome(pattern, path, replacement, true, fs) == OutcomeKind::WouldRename
            <==> spec_outcome(pattern, path, replacement, false, fs) == OutcomeKind::Renamed,
        spec_outcome(pattern, path, replacement, true, fs) != OutcomeKind::WouldRename
            ==> spec_outcome(pattern, path, replacement, true, fs) == spec_outcome(
            pattern,
            path,
            replacement,
            false,
            fs,
        ),
{
}

/// After a committed rename the entry at the path is gone, one exists at
/// the destination, and no other entry changed.
pub proof fn lemma_rename_moves_entry(
    pattern: Seq<char>,
    path: Seq<char>,
    replacement: Seq<char>,
    fs: Set<Seq<char>>,
)
    requires
        spec_outcome(pattern, path, replacement, false, fs) == OutcomeKind::Renamed,
    ensures
        path != spec_destination(pattern, path, replacement),
        !spec_fs_after(pattern, path, replacement, false, fs).contains(path),
        spec_fs_after(pattern, path, replacement, false, fs).contains(
            spec_destination(pattern, path, replacement),
        ),
        forall|q: Seq<char>|
            q != path && q != spec_destination(pattern, path, replacement) ==> spec_fs_after(
                pattern,
                path,
                replacement,
                false,
                fs,
            ).contains(q) == fs.contains(q),
{
}

/// Idempotence, path by path: a second attempt straight after a successful
/// rename, with the same pattern and replacement, finds the source gone
/// under its old name and fails as source-missing, leaving the filesystem
/// as the first attempt left it.
pub proof fn lemma_second_run_source_missing(
    pattern: Seq<char>,
    path: Seq<char>,
    replacement: Seq<char>,
    fs: Set<Seq<char>>,
)
    requires
        spec_outcome(pattern, path, replacement, false, fs) == OutcomeKind::Renamed,
    ensures
        spec_outcome(
            pattern,
            path,
            replacement,
            false,
            spec_fs_after(pattern, path, replacement, false, fs),
        ) == OutcomeKind::SourceMissing,
        spec_fs_after(
            pattern,
            path,
            replacement,
            false,
            spec_fs_after(pattern, path, replacement, false, fs),
        ) == spec_fs_after(pattern, path, replacement, false, fs),
{
    lemma_rename_moves_entry(pattern, path, replacement, fs);
}

/// Round trip: renaming `path` and then renaming the result under an
/// inverse pattern and replacement — one whose substitution maps the
/// destination back to `path` — restores the original filesystem.
pub proof fn lemma_round_trip(
    pattern1: Seq<char>,
    replacement1: Seq<char>,
    pattern2: Seq<char>,
    replacement2: Seq<char>,
    path: Seq<char>,
    fs: Set<Seq<char>>,
)
    requires
        spec_outcome(pattern1, path, replacement1, false, fs) == OutcomeKind::Renamed,
        pattern_matches(pattern2, spec_destination(pattern1, path, replacement1)),
        spec_destination(
            pattern2,
            spec_destination(pattern1, path, replacement1),
            replacement2,
        ) == path,
    ensures
        spec_outcome(
            pattern2,
            spec_destination(pattern1, path, replacement1),
            replacement2,
            false,
            spec_fs_after(pattern1, path, replacement1, false, fs),
        ) == OutcomeKind::Renamed,
        spec_fs_after(
            pattern2,
            spec_destination(pattern1, path, replacement1),
            replacement2,
            false,
            spec_fs_after(pattern1, path, replacement1, false, fs),
        ) == fs,
{
    let dest = spec_destination(pattern1, path, replacement1);
    let fs1 = spec_fs_after(pattern1, path, replacement1, false, fs);
    assert(fs1 == fs.remove(path).insert(dest));
    assert(fs1.contains(dest));
    assert(!fs1.contains(path));
    assert(spec_outcome(pattern2, dest, replacement2, false, fs1) == OutcomeKind::Renamed);
    assert(fs1.remove(dest).insert(path) =~= fs);
}

} // verus!
