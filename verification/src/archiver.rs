//! The archiver: one source file becomes one archive unit, and only then is
//! the source file removed.

use vstd::prelude::*;
use vstd::string::*;
use crate::entry::{archive_path_for, archive_suffix};
use crate::paths::{file_name_of, utf8_file_name};

verus! {

/// The paths that archiving one source file involves.
#[derive(Clone, Debug, PartialEq, Eq)]
pub struct ArchiveJob {
    /// The file to archive.
    pub source: String,
    /// The name under which the file is stored inside the archive unit: the
    /// file's own name, without its directories.
    pub entry_name: String,
    /// Where the uncompressed container is written before it is compressed.
    pub staging: String,
    /// The archive unit: the source path with the archive suffix appended.
    pub archive: String,
}

/// The mathematical content of an [`ArchiveJob`].
pub struct JobView {
    pub source: Seq<char>,
    pub entry_name: Seq<char>,
    pub staging: Seq<char>,
    pub archive: Seq<char>,
}

impl View for ArchiveJob {
    type V = JobView;

    open spec fn view(&self) -> JobView {
        JobView {
            source: self.source@,
            entry_name: self.entry_name@,
            staging: self.staging@,
            archive: self.archive@,
        }
    }
}

/// The suffix of the staging file: `.tar`.
pub open spec fn staging_suffix() -> Seq<char> {
    seq!['.', 't', 'a', 'r']
}

/// The job of archiving the file at `path` under the name `name`.
pub open spec fn job_for(path: Seq<char>, name: Seq<char>) -> JobView {
    JobView {
        source: path,
        entry_name: name,
        staging: path + staging_suffix(),
        archive: path + archive_suffix(),
    }
}

impl ArchiveJob {
    /// Puts the job together from a source path and the file's own name.
    pub fn with_name(path: &str, name: String) -> (job: ArchiveJob)
        ensures
            job@ == job_for(path@, name@),
    {
        let tar = ".tar";
        proof {
            reveal_strlit(".tar");
        }
        assert(tar@ =~= staging_suffix());
        ArchiveJob {
            source: path.to_owned(),
            entry_name: name,
            staging: path.to_owned().concat(tar),
            archive: archive_path_for(path),
        }
    }

    /// The job of archiving the file at `path`. A path without a file name
    /// (one that ends in `..`, the root, the empty path) names nothing that
    /// could be archived.
    pub fn for_source(path: &str) -> (r: Option<ArchiveJob>)
        ensures
            match file_name_of(path@) {
                Some(name) => r is Some && r->0@ == job_for(path@, name),
                None => r is None,
            },
    {
        match utf8_file_name(path) {
            Some(name) => Some(ArchiveJob::with_name(path, name)),
            None => None,
        }
    }
}

/// What the archiver asks its caller to do next.
#[derive(Clone, Copy, Debug, PartialEq, Eq, Structural)]
pub enum ArchiveStep {
    /// Write the archive unit from the source file, completely, and flush it.
    Compress,
    /// Remove the source file.
    RemoveSource,
    /// Remove what a failed compression left of the archive unit and of the
    /// staging file.
    Discard,
    /// Nothing is left to do.
    Stop,
}

/// How far the archiving of one file has come.
#[derive(Clone, Copy, Debug, PartialEq, Eq, Structural)]
pub enum ArchiveState {
    /// Nothing has been done yet.
    Ready,
    /// The archive unit is complete; the source file is still there.
    Compressed,
    /// Compression failed; the source file is still there, and a partial
    /// archive unit may be.
    Discarding,
    /// The archive unit is complete and the source file is gone.
    Archived,
    /// Compression failed. The source file is in its place.
    CompressFailed,
    /// The archive unit is complete, but the source file could not be
    /// removed, and is in its place.
    SourceLeft,
}

impl ArchiveState {
    /// The step that is due in this state.
    pub open spec fn due(self) -> ArchiveStep {
        match self {
            ArchiveState::Ready => ArchiveStep::Compress,
            ArchiveState::Compressed => ArchiveStep::RemoveSource,
            ArchiveState::Discarding => ArchiveStep::Discard,
            _ => ArchiveStep::Stop,
        }
    }

    /// The state after the step that was due has succeeded (`ok`) or failed.
    /// Discarding is best effort: its outcome changes nothing.
    pub open spec fn after(self, ok: bool) -> ArchiveState {
        match self {
            ArchiveState::Ready => if ok {
                ArchiveState::Compressed
            } else {
                ArchiveState::Discarding
            },
            ArchiveState::Compressed => if ok {
                ArchiveState::Archived
            } else {
                ArchiveState::SourceLeft
            },
            ArchiveState::Discarding => ArchiveState::CompressFailed,
            done => done,
        }
    }

    /// Whether the file was archived: the archive unit written and the
    /// source file removed.
    pub open spec fn is_success(self) -> bool {
        self == ArchiveState::Archived
    }

    /// The state in which the archiving of every file starts.
    pub fn start() -> (s: ArchiveState)
        ensures
            s == ArchiveState::Ready,
    {
        ArchiveState::Ready
    }

    /// The step that is due in this state.
    pub fn step(&self) -> (step: ArchiveStep)
        ensures
            step == self.due(),
    {
        match self {
            ArchiveState::Ready => ArchiveStep::Compress,
            ArchiveState::Compressed => ArchiveStep::RemoveSource,
            ArchiveState::Discarding => ArchiveStep::Discard,
            _ => ArchiveStep::Stop,
        }
    }

    /// Takes note of how the due step went, and moves on.
    pub fn advance(self, ok: bool) -> (next: ArchiveState)
        ensures
            next == self.after(ok),
    {
        match self {
            ArchiveState::Ready => if ok {
                ArchiveState::Compressed
            } else {
                ArchiveState::Discarding
            },
            ArchiveState::Compressed => if ok {
                ArchiveState::Archived
            } else {
                ArchiveState::SourceLeft
            },
            ArchiveState::Discarding => ArchiveState::CompressFailed,
            done => done,
        }
    }

    /// Whether the file was archived.
    pub fn succeeded(&self) -> (r: bool)
        ensures
            r == self.is_success(),
    {
        match self {
            ArchiveState::Archived => true,
            _ => false,
        }
    }
}

/// The state that a run of the archiver reaches from the start, given how
/// each of its steps went.
pub open spec fn state_after(outcomes: Seq<bool>) -> ArchiveState
    decreases outcomes.len(),
{
    if outcomes.len() == 0 {
        ArchiveState::Ready
    } else {
        state_after(outcomes.drop_last()).after(outcomes.last())
    }
}

/// Archive before delete. In every run of the archiver, whatever the
/// outcomes of its steps, the removal of the source file is due at one point
/// only: directly after the compression, and only if the compression
/// succeeded. So a failed compression leaves the source file in its place,
/// and a file counts as archived only when both steps succeeded.
pub proof fn lemma_archive_before_delete(outcomes: Seq<bool>, k: int)
    requires
        0 <= k <= outcomes.len(),
    ensures
        state_after(outcomes.take(k)).due() == ArchiveStep::RemoveSource <==> k == 1
            && outcomes[0],
        state_after(outcomes.take(k)).due() == ArchiveStep::Compress <==> k == 0,
        state_after(outcomes.take(k)).is_success() <==> k >= 2 && outcomes[0] && outcomes[1],
    decreases k,
{
    if k > 0 {
        lemma_archive_before_delete(outcomes, k - 1);
        assert(outcomes.take(k).drop_last() =~= outcomes.take(k - 1));
        assert(outcomes.take(k).last() == outcomes[k - 1]);
        if k >= 2 {
            lemma_archive_before_delete(outcomes, k - 2);
            assert(outcomes.take(k - 1).drop_last() =~= outcomes.take(k - 2));
            assert(outcomes.take(k - 1).last() == outcomes[k - 2]);
        }
        if k >= 3 {
            lemma_run_ends(outcomes, k - 1);
        }
    } else {
        assert(outcomes.take(0).len() == 0);
    }
}

proof fn lemma_run_ends(outcomes: Seq<bool>, k: int)
    requires
        2 <= k <= outcomes.len(),
    ensures
        state_after(outcomes.take(k)) == if !outcomes[0] {
            ArchiveState::CompressFailed
        } else if outcomes[1] {
            ArchiveState::Archived
        } else {
            ArchiveState::SourceLeft
        },
    decreases k,
{
    assert(outcomes.take(k).drop_last() =~= outcomes.take(k - 1));
    assert(outcomes.take(k).last() == outcomes[k - 1]);
    if k > 2 {
        lemma_run_ends(outcomes, k - 1);
    } else {
        assert(outcomes.take(1).drop_last() =~= outcomes.take(0));
        assert(outcomes.take(1).last() == outcomes[0]);
        assert(outcomes.take(0).len() == 0);
        assert(state_after(outcomes.take(0)) == ArchiveState::Ready);
        assert(state_after(outcomes.take(1)) == ArchiveState::Ready.after(outcomes[0]));
    }
}

} // verus!
