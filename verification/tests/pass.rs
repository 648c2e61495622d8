use dir_archiver::archiver::ArchiveJob;
use dir_archiver::eligibility::Decision;
use dir_archiver::entry::DirectoryEntry;
use dir_archiver::error::PassError;
use dir_archiver::exclude::ExcludePattern;
use dir_archiver::gate::{keep_file_min_size, GateOutcome};
use dir_archiver::pass::{plan_pass, run_archive_loop, PassConfig, Task};
use dir_archiver::retention::keep_latest_n_files;
use dir_archiver::Args;

fn file(path: &str, created: u64) -> DirectoryEntry {
    DirectoryEntry { path: path.to_string(), created, is_dir: false }
}

fn folder(path: &str, created: u64) -> DirectoryEntry {
    DirectoryEntry { path: path.to_string(), created, is_dir: true }
}

fn settings(exclude: Option<&str>, min_size: Option<&str>, max_files: Option<usize>) -> Args {
    Args {
        directory: "data".to_string(),
        max_files,
        exclude: exclude.map(|s| s.to_string()),
        keep_min_size: min_size.map(|s| s.to_string()),
        disable_watch: true,
    }
}

fn tasks_of(args: &Args, entries: &Vec<DirectoryEntry>) -> Vec<Task> {
    let plan = run_archive_loop(args, entries).unwrap();
    (0..entries.len()).map(|i| plan.task(i)).collect()
}

#[test]
fn three_files_two_are_archived() {
    let entries = vec![file("data/a.txt", 1), file("data/b.txt", 2), file("data/c.txt", 3)];
    let plan = run_archive_loop(&settings(None, None, None), &entries).unwrap();
    assert_eq!(plan.latest, 2);
    assert_eq!(
        plan.decisions,
        vec![Decision::Archive, Decision::Archive, Decision::SkipLatest]
    );
    assert_eq!(plan.min_size, None);
    assert_eq!(plan.max_files, None);
    assert_eq!(plan.task(0), Task::Compress);
    assert_eq!(plan.task(1), Task::Compress);
    assert_eq!(plan.task(2), Task::Leave);
    let a = ArchiveJob::for_source("data/a.txt").unwrap();
    let b = ArchiveJob::for_source("data/b.txt").unwrap();
    assert_eq!(a.archive, "data/a.txt.tar.gz");
    assert_eq!(b.archive, "data/b.txt.tar.gz");
}

#[test]
fn retention_of_one_keeps_only_the_newest_archive() {
    let before = vec![
        file("data/a.txt", 1),
        file("data/b.txt", 2),
        file("data/c.txt", 3),
        file("data/old.txt.tar.gz", 0),
    ];
    let plan = run_archive_loop(&settings(None, None, Some(1)), &before).unwrap();
    assert_eq!(
        plan.decisions,
        vec![
            Decision::Archive,
            Decision::Archive,
            Decision::SkipLatest,
            Decision::SkipAlreadyArchived
        ]
    );
    assert_eq!(plan.max_files, Some(1));
    let after = vec![
        file("data/c.txt", 3),
        file("data/old.txt.tar.gz", 0),
        file("data/a.txt.tar.gz", 10),
        file("data/b.txt.tar.gz", 11),
    ];
    let retention = keep_latest_n_files(&after, 1);
    assert_eq!(retention.keep, vec![3]);
    assert_eq!(retention.delete, vec![2, 1]);
}

#[test]
fn excluded_log_and_latest_text_leave_nothing_to_archive() {
    let entries = vec![file("data/a.log", 1), file("data/b.txt", 2)];
    let plan = run_archive_loop(&settings(Some("*.log"), None, None), &entries).unwrap();
    assert_eq!(plan.latest, 1);
    assert_eq!(plan.decisions, vec![Decision::SkipExcluded, Decision::SkipLatest]);
    assert_eq!(plan.task(0), Task::Leave);
    assert_eq!(plan.task(1), Task::Leave);
}

#[test]
fn second_pass_finds_nothing_to_do() {
    let args = settings(Some("*.log"), None, Some(2));
    let before = vec![
        folder("data/sub", 9),
        file("data/a.txt", 1),
        file("data/keep.log", 5),
        file("data/b.txt", 6),
        file("data/c.txt", 2),
    ];
    assert_eq!(
        tasks_of(&args, &before),
        vec![Task::Leave, Task::Compress, Task::Leave, Task::Leave, Task::Compress]
    );
    let first = run_archive_loop(&args, &before).unwrap();
    assert_eq!(before[first.latest].path, "data/b.txt");
    let listed = vec![
        folder("data/sub", 9),
        file("data/keep.log", 5),
        file("data/b.txt", 6),
        file("data/a.txt.tar.gz", 20),
        file("data/c.txt.tar.gz", 21),
        file("data/older.tar.gz", 3),
    ];
    let pruned = keep_latest_n_files(&listed, 2);
    assert_eq!(pruned.delete, vec![5]);
    let after = vec![
        folder("data/sub", 9),
        file("data/keep.log", 5),
        file("data/b.txt", 6),
        file("data/a.txt.tar.gz", 20),
        file("data/c.txt.tar.gz", 21),
    ];
    let second = run_archive_loop(&args, &after).unwrap();
    assert_eq!(after[second.latest].path, "data/b.txt");
    assert!(second.decisions.iter().all(|d| *d != Decision::Archive));
    assert!(tasks_of(&args, &after).iter().all(|t| *t == Task::Leave));
    let retention = keep_latest_n_files(&after, 2);
    assert!(retention.delete.is_empty());
}

#[test]
fn latest_file_is_protected_from_exclude_and_gate() {
    let entries = vec![file("data/a.txt", 1), file("data/z.log", 7)];
    let plan = run_archive_loop(&settings(Some("*.log"), Some("1 GB"), None), &entries).unwrap();
    assert_eq!(plan.latest, 1);
    assert_eq!(plan.decisions, vec![Decision::Archive, Decision::SkipLatest]);
    assert_eq!(plan.task(1), Task::Leave);
    assert_eq!(plan.task(0), Task::SizeGate(1_000_000_000));
}

#[test]
fn size_gate_replaces_the_archiver() {
    let entries = vec![
        file("data/small.txt", 1),
        file("data/big.txt", 2),
        file("data/new.txt", 3),
        file("data/x.txt.tar.gz", 0),
    ];
    let tasks = tasks_of(&settings(None, Some("1 kB"), None), &entries);
    assert_eq!(
        tasks,
        vec![Task::SizeGate(1000), Task::SizeGate(1000), Task::Leave, Task::Leave]
    );
    assert!(tasks.iter().all(|t| *t != Task::Compress));
    assert_eq!(keep_file_min_size(999, 1000), GateOutcome::Delete);
    assert_eq!(keep_file_min_size(1000, 1000), GateOutcome::Keep);
    assert_eq!(keep_file_min_size(1001, 1000), GateOutcome::Keep);
}

#[test]
fn gate_with_zero_threshold_deletes_nothing() {
    assert_eq!(keep_file_min_size(0, 0), GateOutcome::Keep);
    assert_eq!(keep_file_min_size(0, 1), GateOutcome::Delete);
    assert_eq!(keep_file_min_size(u64::MAX, u64::MAX), GateOutcome::Keep);
}

#[test]
fn invalid_exclude_is_a_configuration_error() {
    let entries = vec![file("data/a.txt", 1)];
    let r = run_archive_loop(&settings(Some("[abc"), None, None), &entries);
    assert_eq!(r.err(), Some(PassError::InvalidExclude));
    let r = run_archive_loop(&settings(Some("a**"), None, None), &entries);
    assert_eq!(r.err(), Some(PassError::InvalidExclude));
}

#[test]
fn invalid_min_size_is_a_configuration_error() {
    let entries = vec![file("data/a.txt", 1)];
    let r = run_archive_loop(&settings(None, Some("lots"), None), &entries);
    assert_eq!(r.err(), Some(PassError::InvalidMinSize));
}

#[test]
fn invalid_exclude_is_reported_before_invalid_size_and_missing_files() {
    let r = run_archive_loop(&settings(Some("[abc"), Some("lots"), None), &Vec::new());
    assert_eq!(r.err(), Some(PassError::InvalidExclude));
    let r = run_archive_loop(&settings(Some("*.log"), Some("lots"), None), &Vec::new());
    assert_eq!(r.err(), Some(PassError::InvalidMinSize));
}

#[test]
fn directory_without_source_files_is_an_error() {
    let args = settings(None, None, None);
    assert_eq!(run_archive_loop(&args, &Vec::new()).err(), Some(PassError::NoFiles));
    let only_output = vec![file("data/a.txt.tar.gz", 1), folder("data/sub", 2)];
    assert_eq!(run_archive_loop(&args, &only_output).err(), Some(PassError::NoFiles));
}

#[test]
fn excluded_files_still_count_as_latest() {
    let entries = vec![file("data/z.log", 1)];
    let plan = run_archive_loop(&settings(Some("*.log"), None, None), &entries).unwrap();
    assert_eq!(plan.latest, 0);
    assert_eq!(plan.decisions, vec![Decision::SkipLatest]);
}

#[test]
fn assemble_reports_each_refused_text() {
    assert_eq!(
        PassConfig::assemble(Some(None), Some(None), None).err(),
        Some(PassError::InvalidExclude)
    );
    assert_eq!(
        PassConfig::assemble(None, Some(None), Some(3)).err(),
        Some(PassError::InvalidMinSize)
    );
    let config = PassConfig::assemble(None, Some(Some(42)), Some(3)).unwrap();
    assert!(config.exclude.is_none());
    assert_eq!(config.min_size, Some(42));
    assert_eq!(config.max_files, Some(3));
    let config = PassConfig::assemble(Some(ExcludePattern::new("*.log").ok()), None, None).unwrap();
    assert_eq!(config.exclude.unwrap().as_str(), "*.log");
    assert_eq!(config.min_size, None);
    assert_eq!(config.max_files, None);
}

#[test]
fn from_args_compiles_both_policies() {
    let config = PassConfig::from_args(&settings(Some("*.tmp"), Some("2 KiB"), Some(4))).unwrap();
    assert_eq!(config.exclude.unwrap().as_str(), "*.tmp");
    assert_eq!(config.min_size, Some(2048));
    assert_eq!(config.max_files, Some(4));
}

#[test]
fn plan_pass_uses_compiled_policies() {
    let config = PassConfig::from_args(&settings(Some("*/b.*"), None, Some(1))).unwrap();
    let entries = vec![file("data/a.txt", 3), file("data/b.txt", 1), file("data/c.txt", 2)];
    let plan = plan_pass(&config, &entries).unwrap();
    assert_eq!(plan.latest, 0);
    assert_eq!(
        plan.decisions,
        vec![Decision::SkipLatest, Decision::SkipExcluded, Decision::Archive]
    );
    assert_eq!(plan.max_files, Some(1));
    assert_eq!(plan_pass(&config, &Vec::new()).err(), Some(PassError::NoFiles));
}

#[test]
fn error_messages_name_the_cause() {
    assert_eq!(PassError::NoFiles.message(), "No files in directory");
    assert_eq!(PassError::InvalidExclude.message(), "exclude is not a valid glob pattern");
    assert_eq!(
        PassError::InvalidMinSize.message(),
        "minimum size is not a valid size expression"
    );
}
