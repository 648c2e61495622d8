//! The eligibility filter: what a pass does with one entry of the listing.

use vstd::prelude::*;
use crate::entry::{has_archive_suffix, is_archive_path, DirectoryEntry, EntryView};
use crate::exclude::{excluded_by, is_excluded, source_of, ExcludePattern};
use crate::paths::{names_same_path, utf8_path_eq};

verus! {

/// The verdict of the eligibility filter on one entry.
#[derive(Clone, Copy, Debug, PartialEq, Eq, Structural)]
pub enum Decision {
    /// The entry goes on to the next stage: the archiver, or the size gate.
    Archive,
    /// The entry is the latest file of the directory.
    SkipLatest,
    /// The entry matches the exclude pattern.
    SkipExcluded,
    /// The entry is a directory.
    SkipDirectory,
    /// The entry bears the archive suffix.
    SkipAlreadyArchived,
}

impl Decision {
    /// Whether the entry is left exactly as it is.
    pub open spec fn is_skip(self) -> bool {
        self != Decision::Archive
    }

    /// Whether the entry is left exactly as it is.
    pub fn skips(&self) -> (r: bool)
        ensures
            r == self.is_skip(),
    {
        match self {
            Decision::Archive => false,
            _ => true,
        }
    }
}

/// The rules of the filter, in the order in which they apply: directories
/// first, then archive units, then the latest file, then the exclude pattern.
pub open spec fn decision_for(entry: EntryView, is_latest: bool, excluded: bool) -> Decision {
    if entry.is_dir {
        Decision::SkipDirectory
    } else if has_archive_suffix(entry.path) {
        Decision::SkipAlreadyArchived
    } else if is_latest {
        Decision::SkipLatest
    } else if excluded {
        Decision::SkipExcluded
    } else {
        Decision::Archive
    }
}

/// Applies the rules of the filter to one entry, given whether it is the
/// latest file and whether the exclude pattern matches it.
pub fn decide(entry: &DirectoryEntry, is_latest: bool, excluded: bool) -> (d: Decision)
    ensures
        d == decision_for(entry@, is_latest, excluded),
{
    if entry.is_dir {
        Decision::SkipDirectory
    } else if is_archive_path(entry.path.as_str()) {
        Decision::SkipAlreadyArchived
    } else if is_latest {
        Decision::SkipLatest
    } else if excluded {
        Decision::SkipExcluded
    } else {
        Decision::Archive
    }
}

/// The verdict on an entry of a directory whose latest file is at `latest`,
/// under an optional exclude pattern.
pub open spec fn verdict(entry: EntryView, latest: Seq<char>, exclude: Option<Seq<char>>) -> Decision {
    decision_for(entry, names_same_path(entry.path, latest), excluded_by(exclude, entry.path))
}

/// The eligibility filter: decides what a pass does with `entry`, given the
/// path of the latest file and the compiled exclude pattern, if there is one.
pub fn classify(entry: &DirectoryEntry, latest: &str, exclude: &Option<ExcludePattern>) -> (d:
    Decision)
    ensures
        d == verdict(entry@, latest@, source_of(*exclude)),
{
    let is_latest = utf8_path_eq(entry.path.as_str(), latest);
    let excluded = is_excluded(exclude, entry.path.as_str());
    decide(entry, is_latest, excluded)
}

} // verus!
