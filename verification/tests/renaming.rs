use r3name::pattern::Pattern;
use r3name::rename::{
    prepare_rename, record_rename, settle_rename, RenameError, RenameOutcome, RenameStep,
};

fn has_entry(fs: &Vec<String>, p: &str) -> bool {
    fs.iter().any(|x| x == p)
}

/// Drives one candidate path through the library's steps against a model
/// filesystem held as the list of existing paths; the rename call itself
/// always succeeds in this model.
fn run_once(
    pattern: &Pattern,
    replacement: &str,
    dry_run: bool,
    fs: &mut Vec<String>,
    path: &str,
) -> RenameOutcome {
    match prepare_rename(pattern, path, replacement) {
        RenameStep::Done(o) => o,
        RenameStep::CheckFs(dest) => {
            let source_exists = has_entry(fs, path);
            let destination_exists = has_entry(fs, &dest);
            match settle_rename(dest, dry_run, source_exists, destination_exists) {
                RenameStep::Done(o) => o,
                RenameStep::Commit(dest) => {
                    fs.retain(|x| x != path);
                    fs.push(dest.clone());
                    record_rename(dest, None)
                }
                RenameStep::CheckFs(_) => unreachable!(),
            }
        }
        RenameStep::Commit(_) => unreachable!(),
    }
}

fn jpeg_pattern() -> Pattern {
    Pattern::compile(r"^(.*)\.jpeg$").unwrap()
}

#[test]
fn no_match_is_skipped_and_fs_untouched() {
    let pattern = jpeg_pattern();
    let mut fs = vec!["notes.txt".to_string()];
    let outcome = run_once(&pattern, "$1.jpg", false, &mut fs, "notes.txt");
    assert!(matches!(outcome, RenameOutcome::Skipped));
    assert_eq!(fs, vec!["notes.txt".to_string()]);
}

#[test]
fn missing_source_fails_without_rename() {
    let pattern = jpeg_pattern();
    let mut fs: Vec<String> = vec![];
    let outcome = run_once(&pattern, "$1.jpg", false, &mut fs, "photo.jpeg");
    assert!(matches!(
        outcome,
        RenameOutcome::Failed(RenameError::SourceDoesNotExist)
    ));
    assert!(fs.is_empty());
}

#[test]
fn occupied_destination_fails_without_overwrite() {
    let pattern = jpeg_pattern();
    let mut fs = vec!["photo.jpeg".to_string(), "photo.jpg".to_string()];
    let outcome = run_once(&pattern, "$1.jpg", false, &mut fs, "photo.jpeg");
    match outcome {
        RenameOutcome::Failed(RenameError::DestinationExists(d)) => assert_eq!(d, "photo.jpg"),
        _ => panic!("expected a destination collision"),
    }
    assert!(has_entry(&fs, "photo.jpeg"));
    assert!(has_entry(&fs, "photo.jpg"));
}

#[test]
fn dry_run_computes_same_destination_without_mutating() {
    let pattern = jpeg_pattern();
    let mut fs = vec!["photo.jpeg".to_string()];
    let dry = run_once(&pattern, "$1.jpg", true, &mut fs, "photo.jpeg");
    let would = match dry {
        RenameOutcome::WouldRename(d) => d,
        _ => panic!("expected a dry-run preview"),
    };
    assert_eq!(fs, vec!["photo.jpeg".to_string()]);
    let real = run_once(&pattern, "$1.jpg", false, &mut fs, "photo.jpeg");
    match real {
        RenameOutcome::Renamed(d) => assert_eq!(d, would),
        _ => panic!("expected a rename"),
    }
}

#[test]
fn batch_renames_and_skips() {
    let pattern = jpeg_pattern();
    let mut fs = vec!["photo.jpeg".to_string(), "notes.txt".to_string()];
    let mut lines = vec![];
    for path in ["photo.jpeg", "notes.txt"] {
        let outcome = run_once(&pattern, "$1.jpg", false, &mut fs, path);
        assert!(!outcome.is_failure());
        lines.push(outcome.report_line(path, &pattern));
    }
    assert_eq!(lines[0], "Renamed `photo.jpeg` -> `photo.jpg`");
    assert_eq!(
        lines[1],
        "Skipping `notes.txt` (doesn't match regex `^(.*)\\.jpeg$`)"
    );
    assert!(has_entry(&fs, "photo.jpg"));
    assert!(has_entry(&fs, "notes.txt"));
    assert!(!has_entry(&fs, "photo.jpeg"));
}

#[test]
fn dry_run_batch_reports_without_mutating() {
    let pattern = jpeg_pattern();
    let mut fs = vec!["photo.jpeg".to_string(), "notes.txt".to_string()];
    let outcome = run_once(&pattern, "$1.jpg", true, &mut fs, "photo.jpeg");
    assert_eq!(
        outcome.report_line("photo.jpeg", &pattern),
        "Would rename `photo.jpeg` -> `photo.jpg`"
    );
    assert_eq!(
        fs,
        vec!["photo.jpeg".to_string(), "notes.txt".to_string()]
    );
}

#[test]
fn second_run_finds_source_missing() {
    let pattern = jpeg_pattern();
    let mut fs = vec!["photo.jpeg".to_string()];
    let first = run_once(&pattern, "$1.jpg", false, &mut fs, "photo.jpeg");
    assert!(matches!(first, RenameOutcome::Renamed(_)));
    let second = run_once(&pattern, "$1.jpg", false, &mut fs, "photo.jpeg");
    assert!(matches!(
        second,
        RenameOutcome::Failed(RenameError::SourceDoesNotExist)
    ));
    assert_eq!(fs, vec!["photo.jpg".to_string()]);
}

#[test]
fn inverse_substitution_round_trips() {
    let forward = Pattern::compile(r"^a\.txt$").unwrap();
    let backward = Pattern::compile(r"^b\.txt$").unwrap();
    let mut fs = vec!["a.txt".to_string()];
    let there = run_once(&forward, "b.txt", false, &mut fs, "a.txt");
    assert!(matches!(there, RenameOutcome::Renamed(_)));
    assert_eq!(fs, vec!["b.txt".to_string()]);
    let back = run_once(&backward, "a.txt", false, &mut fs, "b.txt");
    assert!(matches!(back, RenameOutcome::Renamed(_)));
    assert_eq!(fs, vec!["a.txt".to_string()]);
}

#[test]
fn collision_report_goes_to_error_stream() {
    let pattern = Pattern::compile(r"^draft\.md$").unwrap();
    let mut fs = vec!["draft.md".to_string(), "final.md".to_string()];
    let outcome = run_once(&pattern, "final.md", false, &mut fs, "draft.md");
    assert!(outcome.is_failure());
    let line = outcome.report_line("draft.md", &pattern);
    assert!(line.contains("destination path"));
    assert!(line.contains("already exists"));
    assert_eq!(
        line,
        "Failed to rename `draft.md`: destination path `final.md` already exists"
    );
    assert!(has_entry(&fs, "draft.md"));
}

#[test]
fn invalid_pattern_is_rejected() {
    assert!(Pattern::compile("(").is_err());
}

#[test]
fn valid_pattern_keeps_its_source() {
    let pattern = Pattern::compile(r"^(.*)\.jpeg$").unwrap();
    assert_eq!(pattern.source_str(), r"^(.*)\.jpeg$");
}

#[test]
fn only_the_first_match_is_replaced() {
    let pattern = Pattern::compile("o").unwrap();
    let mut fs = vec!["foo.txt".to_string()];
    let outcome = run_once(&pattern, "0", false, &mut fs, "foo.txt");
    match outcome {
        RenameOutcome::Renamed(d) => assert_eq!(d, "f0o.txt"),
        _ => panic!("expected a rename"),
    }
}

#[test]
fn pattern_matches_anywhere_in_the_path() {
    let pattern = Pattern::compile(r"\.jpeg$").unwrap();
    let mut fs = vec!["album/photo.jpeg".to_string()];
    let outcome = run_once(&pattern, ".jpg", false, &mut fs, "album/photo.jpeg");
    match outcome {
        RenameOutcome::Renamed(d) => assert_eq!(d, "album/photo.jpg"),
        _ => panic!("expected a rename"),
    }
}

#[test]
fn missing_source_message_names_the_path() {
    let e = RenameError::SourceDoesNotExist;
    assert_eq!(e.message("gone.txt"), "source path `gone.txt` doesn't exist");
}

#[test]
fn filesystem_error_is_carried_through() {
    let outcome = record_rename("b.txt".to_string(), Some("permission denied".to_string()));
    match &outcome {
        RenameOutcome::Failed(RenameError::FsError(m)) => assert_eq!(m, "permission denied"),
        _ => panic!("expected a filesystem failure"),
    }
    assert!(outcome.is_failure());
    let pattern = Pattern::compile("a").unwrap();
    assert_eq!(
        outcome.report_line("a.txt", &pattern),
        "Failed to rename `a.txt`: permission denied"
    );
}

#[test]
fn successful_rename_is_recorded() {
    let outcome = record_rename("b.txt".to_string(), None);
    match outcome {
        RenameOutcome::Renamed(d) => assert_eq!(d, "b.txt"),
        _ => panic!("expected a rename"),
    }
}
