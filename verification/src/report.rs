use vstd::prelude::*;

use crate::pattern::Pattern;
use crate::rename::{RenameError, RenameOutcome};

verus! {

/// Relies on `String::push_str`: appends the characters of `suffix`.
#[verifier::external_body]
fn push_part(s: &mut String, suffix: &str)
    ensures
        final(s)@ == old(s)@ + suffix@,
{
    s.push_str(suffix);
}

/// The human-readable cause of a failure concerning `path`.
pub open spec fn spec_message(e: RenameError, path: Seq<char>) -> Seq<char> {
    match e {
        RenameError::SourceDoesNotExist => "source path `"@ + path + "` doesn't exist"@,
        RenameError::DestinationExists(d) => "destination path `"@ + d@ + "` already exists"@,
        RenameError::FsError(m) => m@,
    }
}

/// The one line reported for an outcome of `path` under `pattern`.
pub open spec fn spec_report_line(
    o: RenameOutcome,
    path: Seq<char>,
    pattern: Seq<char>,
) -> Seq<char> {
    match o {
        RenameOutcome::Renamed(d) => "Renamed `"@ + path + "` -> `"@ + d@ + "`"@,
        RenameOutcome::WouldRename(d) => "Would rename `"@ + path + "` -> `"@ + d@ + "`"@,
        RenameOutcome::Skipped => "Skipping `"@ + path + "` (doesn't match regex `"@ + pattern
            + "`)"@,
        RenameOutcome::Failed(e) => "Failed to rename `"@ + path + "`: "@ + spec_message(e, path),
    }
}

impl RenameError {
    /// The human-readable cause of this failure, for the path it concerns.
    pub fn message(&self, path: &str) -> (s: String)
        ensures
            s@ == spec_message(*self, path@),
    {
        let mut s = String::new();
        match self {
            RenameError::SourceDoesNotExist => {
                push_part(&mut s, "source path `");
                push_part(&mut s, path);
                push_part(&mut s, "` doesn't exist");
                assert(s@ =~= spec_message(*self, path@));
            },
            RenameError::DestinationExists(d) => {
                push_part(&mut s, "destination path `");
                push_part(&mut s, d.as_str());
                push_part(&mut s, "` already exists");
                assert(s@ =~= spec_message(*self, path@));
            },
            RenameError::FsError(m) => {
                push_part(&mut s, m.as_str());
                assert(s@ =~= spec_message(*self, path@));
            },
        }
        s
    }
}

impl RenameOutcome {
    /// True exactly for the failures, which a caller reports on its error
    /// stream; everything else belongs on ordinary output.
    pub fn is_failure(&self) -> (b: bool)
        ensures
            b == (*self is Failed),
    {
        match self {
            RenameOutcome::Failed(_) => true,
            _ => false,
        }
    }

    /// The one line reported for this outcome of `path` under `pattern`.
    pub fn report_line(&self, path: &str, pattern: &Pattern) -> (s: String)
        ensures
            s@ == spec_report_line(*self, path@, pattern@),
    {
        let mut s = String::new();
        match self {
            RenameOutcome::Renamed(d) => {
                push_part(&mut s, "Renamed `");
                push_part(&mut s, path);
                push_part(&mut s, "` -> `");
                push_part(&mut s, d.as_str());
                push_part(&mut s, "`");
                assert(s@ =~= spec_report_line(*self, path@, pattern@));
            },
            RenameOutcome::WouldRename(d) => {
                push_part(&mut s, "Would rename `");
                push_part(&mut s, path);
                push_part(&mut s, "` -> `");
                push_part(&mut s, d.as_str());
                push_part(&mut s, "`");
                assert(s@ =~= spec_report_line(*self, path@, pattern@));
            },
            RenameOutcome::Skipped => {
                push_part(&mut s, "Skipping `");
                push_part(&mut s, path);
                push_part(&mut s, "` (doesn't match regex `");
                push_part(&mut s, pattern.source_str());
                push_part(&mut s, "`)");
                assert(s@ =~= spec_report_line(*self, path@, pattern@));
            },
            RenameOutcome::Failed(e) => {
                push_part(&mut s, "Failed to rename `");
                push_part(&mut s, path);
                push_part(&mut s, "`: ");
                let m = e.message(path);
                push_part(&mut s, m.as_str());
                assert(s@ =~= spec_report_line(*self, path@, pattern@));
            },
        }
        s
    }
}

} // verus!
