use dir_archiver::eligibility::{classify, decide, Decision};
use dir_archiver::entry::{archive_path_for, is_archive_path, DirectoryEntry};
use dir_archiver::error::PassError;
use dir_archiver::exclude::{is_excluded, ExcludePattern};
use dir_archiver::latest::latest_file;
use dir_archiver::size::parse_min_size;

fn entry(path: &str, created: u64, is_dir: bool) -> DirectoryEntry {
    DirectoryEntry { path: path.to_string(), created, is_dir }
}

#[test]
fn star_matches_across_separators() {
    let pattern = ExcludePattern::new("*.log").ok();
    assert!(pattern.is_some());
    assert!(is_excluded(&pattern, "logs/a.log"));
    assert!(!is_excluded(&pattern, "logs/b.txt"));
}

#[test]
fn question_mark_and_brackets_match_one_character() {
    let pattern = ExcludePattern::new("data/?[0-9].txt").ok();
    assert!(is_excluded(&pattern, "data/a1.txt"));
    assert!(!is_excluded(&pattern, "data/ab.txt"));
    assert!(!is_excluded(&pattern, "data/a12.txt"));
}

#[test]
fn compiled_pattern_keeps_its_text() {
    assert_eq!(ExcludePattern::new("d*g").unwrap().as_str(), "d*g");
    assert!(ExcludePattern::new("d*g").unwrap().matches("dog"));
    assert!(!ExcludePattern::new("d*g").unwrap().matches("cat"));
}

#[test]
fn unclosed_bracket_is_no_pattern() {
    assert_eq!(ExcludePattern::new("[abc").err(), Some(PassError::InvalidExclude));
    assert_eq!(ExcludePattern::new("a***b").err(), Some(PassError::InvalidExclude));
}

#[test]
fn no_pattern_excludes_nothing() {
    assert!(!is_excluded(&None, "logs/a.log"));
}

#[test]
fn archive_suffix_is_recognised() {
    assert!(is_archive_path("data/a.txt.tar.gz"));
    assert!(is_archive_path(".tar.gz"));
    assert!(is_archive_path("données/é.tar.gz"));
    assert!(!is_archive_path("data/a.txt"));
    assert!(!is_archive_path("data/a.tar"));
    assert!(!is_archive_path("data/a.tar.gzz"));
    assert!(!is_archive_path("data/a.TAR.GZ"));
    assert!(!is_archive_path("tar.gz"));
    assert!(!is_archive_path(""));
}

#[test]
fn archive_path_appends_the_suffix() {
    assert_eq!(archive_path_for("data/a.txt"), "data/a.txt.tar.gz");
    assert_eq!(archive_path_for("data/noext"), "data/noext.tar.gz");
    assert_eq!(archive_path_for("data/a.tar.gz"), "data/a.tar.gz.tar.gz");
    assert!(is_archive_path(&archive_path_for("data/é")));
}

#[test]
fn entries_know_what_they_are() {
    assert!(entry("data/a.txt", 1, false).is_source_file());
    assert!(!entry("data/a.txt", 1, false).is_archive_unit());
    assert!(entry("data/a.txt.tar.gz", 1, false).is_archive_unit());
    assert!(!entry("data/a.txt.tar.gz", 1, false).is_source_file());
    assert!(!entry("data/sub.tar.gz", 1, true).is_archive_unit());
    assert!(!entry("data/sub", 1, true).is_source_file());
}

#[test]
fn rules_apply_in_order() {
    let dir = entry("data/sub.tar.gz", 1, true);
    let archive = entry("data/a.tar.gz", 1, false);
    let plain = entry("data/a.txt", 1, false);
    assert_eq!(decide(&dir, true, true), Decision::SkipDirectory);
    assert_eq!(decide(&dir, false, false), Decision::SkipDirectory);
    assert_eq!(decide(&archive, true, true), Decision::SkipAlreadyArchived);
    assert_eq!(decide(&archive, false, false), Decision::SkipAlreadyArchived);
    assert_eq!(decide(&plain, true, true), Decision::SkipLatest);
    assert_eq!(decide(&plain, true, false), Decision::SkipLatest);
    assert_eq!(decide(&plain, false, true), Decision::SkipExcluded);
    assert_eq!(decide(&plain, false, false), Decision::Archive);
}

#[test]
fn only_archive_goes_on() {
    assert!(!Decision::Archive.skips());
    assert!(Decision::SkipLatest.skips());
    assert!(Decision::SkipExcluded.skips());
    assert!(Decision::SkipDirectory.skips());
    assert!(Decision::SkipAlreadyArchived.skips());
}

#[test]
fn classify_compares_paths_not_texts() {
    let pattern = ExcludePattern::new("*.log").ok();
    let e = entry("data/c.txt", 3, false);
    assert_eq!(classify(&e, "data/c.txt", &pattern), Decision::SkipLatest);
    assert_eq!(classify(&e, "data//c.txt", &pattern), Decision::SkipLatest);
    assert_eq!(classify(&e, "data/./c.txt", &pattern), Decision::SkipLatest);
    assert_eq!(classify(&e, "data/d.txt", &pattern), Decision::Archive);
    assert_eq!(classify(&e, "data/c.txt.bak", &pattern), Decision::Archive);
    let log = entry("data/c.log", 3, false);
    assert_eq!(classify(&log, "data/d.txt", &pattern), Decision::SkipExcluded);
    assert_eq!(classify(&log, "data/c.log", &pattern), Decision::SkipLatest);
    assert_eq!(classify(&log, "data/d.txt", &None), Decision::Archive);
}

#[test]
fn latest_is_the_newest_source_file() {
    let entries = vec![
        entry("data/a.txt", 5, false),
        entry("data/sub", 99, true),
        entry("data/b.txt", 7, false),
        entry("data/z.tar.gz", 50, false),
        entry("data/c.txt", 6, false),
    ];
    assert_eq!(latest_file(&entries), Ok(2));
}

#[test]
fn latest_among_equals_is_the_first_listed() {
    let entries = vec![
        entry("data/a.txt", 1, false),
        entry("data/b.txt", 4, false),
        entry("data/c.txt", 4, false),
    ];
    assert_eq!(latest_file(&entries), Ok(1));
    let single = vec![entry("data/a.txt", 0, false)];
    assert_eq!(latest_file(&single), Ok(0));
}

#[test]
fn no_source_file_no_latest() {
    assert_eq!(latest_file(&Vec::new()), Err(PassError::NoFiles));
    let entries = vec![entry("data/sub", 1, true), entry("data/a.tar.gz", 2, false)];
    assert_eq!(latest_file(&entries), Err(PassError::NoFiles));
}

#[test]
fn sizes_are_read_as_bytes() {
    assert_eq!(parse_min_size("1 MB"), Ok(1_000_000));
    assert_eq!(parse_min_size("1 GB"), Ok(1_000_000_000));
    assert_eq!(parse_min_size("512 B"), Ok(512));
    assert_eq!(parse_min_size("1 KiB"), Ok(1024));
    assert_eq!(parse_min_size("2MiB"), Ok(2 * 1024 * 1024));
    assert_eq!(parse_min_size("1.5 kB"), Ok(1500));
    assert_eq!(parse_min_size("0 B"), Ok(0));
    assert_eq!(parse_min_size("  3 kB  "), Ok(3000));
}

#[test]
fn refused_sizes_are_configuration_errors() {
    assert_eq!(parse_min_size(""), Err(PassError::InvalidMinSize));
    assert_eq!(parse_min_size("100"), Err(PassError::InvalidMinSize));
    assert_eq!(parse_min_size("MB"), Err(PassError::InvalidMinSize));
    assert_eq!(parse_min_size("1 parsec"), Err(PassError::InvalidMinSize));
    assert_eq!(parse_min_size("1.2.3 MB"), Err(PassError::InvalidMinSize));
    assert_eq!(parse_min_size("-1 MB"), Err(PassError::InvalidMinSize));
}

#[test]
fn sizes_outside_ascii_are_refused() {
    assert_eq!(parse_min_size("١٢ MB"), Err(PassError::InvalidMinSize));
    assert_eq!(parse_min_size("1٣ B"), Err(PassError::InvalidMinSize));
    assert_eq!(parse_min_size("1\u{a0}MB"), Err(PassError::InvalidMinSize));
}
