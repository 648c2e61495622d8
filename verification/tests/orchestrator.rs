use dir_archiver::eligibility::Decision;
use dir_archiver::entry::DirectoryEntry;
use dir_archiver::error::PassError;
use dir_archiver::orchestrator::{Pass, PassAction, PassEvent, Stage};
use dir_archiver::Args;

fn file(path: &str, created: u64) -> DirectoryEntry {
    DirectoryEntry { path: path.to_string(), created, is_dir: false }
}

fn settings(exclude: Option<&str>, min_size: Option<&str>, max_files: Option<usize>) -> Args {
    Args {
        directory: "data".to_string(),
        max_files,
        exclude: exclude.map(|s| s.to_string()),
        keep_min_size: min_size.map(|s| s.to_string()),
        disable_watch: false,
    }
}

#[test]
fn pass_without_retention_ends_after_the_tasks() {
    let (pass, action) = Pass::begin(&settings(None, None, None));
    assert_eq!(pass.stage, Stage::Listing);
    assert!(matches!(action, PassAction::List));
    let listed = vec![file("data/a.txt", 1), file("data/b.txt", 2)];
    let (pass, action) = pass.step(PassEvent::Listed(listed.clone()));
    assert_eq!(pass.stage, Stage::Working);
    match action {
        PassAction::Process { entries, plan } => {
            assert_eq!(entries, listed);
            assert_eq!(plan.latest, 1);
            assert_eq!(plan.decisions, vec![Decision::Archive, Decision::SkipLatest]);
        }
        other => panic!("unexpected action {:?}", other),
    }
    let (pass, action) = pass.step(PassEvent::TasksDone(vec!["data/a.txt".to_string()]));
    assert_eq!(pass.stage, Stage::Finished);
    match action {
        PassAction::Finish(report) => {
            assert_eq!(report.fatal, None);
            assert_eq!(report.failed, vec!["data/a.txt".to_string()]);
            assert!(report.unpruned.is_empty());
        }
        other => panic!("unexpected action {:?}", other),
    }
}

#[test]
fn pass_with_retention_prunes_after_the_tasks() {
    let (pass, _) = Pass::begin(&settings(None, None, Some(1)));
    let (pass, _) = pass.step(PassEvent::Listed(vec![file("data/a.txt", 1), file("data/b.txt", 2)]));
    let (pass, action) = pass.step(PassEvent::TasksDone(Vec::new()));
    assert_eq!(pass.stage, Stage::Relisting);
    assert!(matches!(action, PassAction::List));
    let relisted = vec![
        file("data/b.txt", 2),
        file("data/old.tar.gz", 0),
        file("data/a.txt.tar.gz", 5),
    ];
    let (pass, action) = pass.step(PassEvent::Listed(relisted.clone()));
    assert_eq!(pass.stage, Stage::Pruning);
    match action {
        PassAction::Prune { entries, retention } => {
            assert_eq!(entries, relisted);
            assert_eq!(retention.keep, vec![2]);
            assert_eq!(retention.delete, vec![1]);
        }
        other => panic!("unexpected action {:?}", other),
    }
    let (pass, action) = pass.step(PassEvent::PruneDone(vec!["data/old.tar.gz".to_string()]));
    assert_eq!(pass.stage, Stage::Finished);
    match action {
        PassAction::Finish(report) => {
            assert_eq!(report.fatal, None);
            assert!(report.failed.is_empty());
            assert_eq!(report.unpruned, vec!["data/old.tar.gz".to_string()]);
        }
        other => panic!("unexpected action {:?}", other),
    }
}

#[test]
fn refused_settings_end_the_pass_at_once() {
    let (pass, action) = Pass::begin(&settings(Some("[abc"), None, None));
    assert_eq!(pass.stage, Stage::Finished);
    match action {
        PassAction::Finish(report) => {
            assert_eq!(report.fatal, Some(PassError::InvalidExclude));
            assert!(report.failed.is_empty());
            assert!(report.unpruned.is_empty());
        }
        other => panic!("unexpected action {:?}", other),
    }
    let (pass, action) = Pass::begin(&settings(None, Some("1 furlong"), None));
    assert_eq!(pass.stage, Stage::Finished);
    match action {
        PassAction::Finish(report) => assert_eq!(report.fatal, Some(PassError::InvalidMinSize)),
        other => panic!("unexpected action {:?}", other),
    }
    let (pass, action) = pass.step(PassEvent::Listed(vec![file("data/a.txt", 1)]));
    assert_eq!(pass.stage, Stage::Finished);
    assert!(matches!(action, PassAction::Ignore));
}

#[test]
fn unlistable_directory_ends_the_pass() {
    let (pass, _) = Pass::begin(&settings(None, None, Some(3)));
    let (pass, action) = pass.step(PassEvent::ListFailed);
    assert_eq!(pass.stage, Stage::Finished);
    match action {
        PassAction::Finish(report) => assert_eq!(report.fatal, Some(PassError::Unlistable)),
        other => panic!("unexpected action {:?}", other),
    }
}

#[test]
fn empty_directory_ends_the_pass() {
    let (pass, _) = Pass::begin(&settings(None, None, Some(3)));
    let (pass, action) = pass.step(PassEvent::Listed(vec![file("data/a.tar.gz", 1)]));
    assert_eq!(pass.stage, Stage::Finished);
    match action {
        PassAction::Finish(report) => {
            assert_eq!(report.fatal, Some(PassError::NoFiles));
            assert!(report.failed.is_empty());
        }
        other => panic!("unexpected action {:?}", other),
    }
}

#[test]
fn failed_relisting_keeps_the_failed_tasks() {
    let (pass, _) = Pass::begin(&settings(None, None, Some(3)));
    let (pass, _) = pass.step(PassEvent::Listed(vec![file("data/a.txt", 1), file("data/b.txt", 2)]));
    let (pass, _) = pass.step(PassEvent::TasksDone(vec!["data/a.txt".to_string()]));
    let (pass, action) = pass.step(PassEvent::ListFailed);
    assert_eq!(pass.stage, Stage::Finished);
    match action {
        PassAction::Finish(report) => {
            assert_eq!(report.fatal, Some(PassError::Unlistable));
            assert_eq!(report.failed, vec!["data/a.txt".to_string()]);
            assert!(report.unpruned.is_empty());
        }
        other => panic!("unexpected action {:?}", other),
    }
}

#[test]
fn events_out_of_turn_change_nothing() {
    let (pass, _) = Pass::begin(&settings(None, None, Some(1)));
    let (pass, action) = pass.step(PassEvent::TasksDone(Vec::new()));
    assert_eq!(pass.stage, Stage::Listing);
    assert!(matches!(action, PassAction::Ignore));
    let (pass, action) = pass.step(PassEvent::PruneDone(Vec::new()));
    assert_eq!(pass.stage, Stage::Listing);
    assert!(matches!(action, PassAction::Ignore));
    let (pass, _) = pass.step(PassEvent::Listed(vec![file("data/a.txt", 1)]));
    let (pass, action) = pass.step(PassEvent::Listed(vec![file("data/a.txt", 1)]));
    assert_eq!(pass.stage, Stage::Working);
    assert!(matches!(action, PassAction::Ignore));
    let (pass, action) = pass.step(PassEvent::PruneDone(Vec::new()));
    assert_eq!(pass.stage, Stage::Working);
    assert!(matches!(action, PassAction::Ignore));
    let (pass, _) = pass.step(PassEvent::TasksDone(Vec::new()));
    let (pass, action) = pass.step(PassEvent::TasksDone(Vec::new()));
    assert_eq!(pass.stage, Stage::Relisting);
    assert!(matches!(action, PassAction::Ignore));
}
