//! Directory entries as a pass sees them, and the archive suffix that marks
//! the output of earlier passes.

use vstd::prelude::*;
use vstd::string::*;

verus! {

/// One entry of a directory listing: a snapshot taken when the directory was
/// listed, and not updated afterwards.
#[derive(Clone, Debug, PartialEq, Eq)]
pub struct DirectoryEntry {
    /// The full path of the entry.
    pub path: String,
    /// When the entry was created, in any unit that grows with time.
    pub created: u64,
    /// Whether the entry is a directory.
    pub is_dir: bool,
}

/// The mathematical content of a [`DirectoryEntry`].
pub struct EntryView {
    pub path: Seq<char>,
    pub created: nat,
    pub is_dir: bool,
}

impl View for DirectoryEntry {
    type V = EntryView;

    open spec fn view(&self) -> EntryView {
        EntryView { path: self.path@, created: self.created as nat, is_dir: self.is_dir }
    }
}

/// The listing that a vector of entries stands for.
pub open spec fn listing(entries: Seq<DirectoryEntry>) -> Seq<EntryView> {
    entries.map_values(|e: DirectoryEntry| e@)
}

/// The suffix that every archive unit bears: `.tar.gz`.
pub open spec fn archive_suffix() -> Seq<char> {
    seq!['.', 't', 'a', 'r', '.', 'g', 'z']
}

/// Whether a path ends in the archive suffix.
pub open spec fn has_archive_suffix(path: Seq<char>) -> bool {
    path.len() >= archive_suffix().len() && path.skip(path.len() - archive_suffix().len())
        == archive_suffix()
}

impl EntryView {
    /// An archive unit is a file whose path bears the archive suffix.
    pub open spec fn is_archive_unit(self) -> bool {
        !self.is_dir && has_archive_suffix(self.path)
    }

    /// A source file is a file that is no archive unit. Only source files can
    /// be the latest file of a directory, and only they are ever archived.
    pub open spec fn is_source_file(self) -> bool {
        !self.is_dir && !has_archive_suffix(self.path)
    }
}

/// Whether `path` ends in the archive suffix.
pub fn is_archive_path(path: &str) -> (r: bool)
    ensures
        r == has_archive_suffix(path@),
{
    let suffix = ".tar.gz";
    proof {
        reveal_strlit(".tar.gz");
    }
    assert(suffix@ =~= archive_suffix());
    let n: usize = path.unicode_len();
    let m: usize = suffix.unicode_len();
    if n < m {
        return false;
    }
    let start: usize = n - m;
    let mut i: usize = 0;
    while i < m
        invariant
            i <= m,
            m == 7,
            n == path@.len(),
            start + m == n,
            suffix@ == archive_suffix(),
            forall|j: int| 0 <= j < i ==> path@[start + j] == suffix@[j],
        decreases m - i,
    {
        if path.get_char(start + i) != suffix.get_char(i) {
            assert(path@.skip(start as int)[i as int] != archive_suffix()[i as int]);
            return false;
        }
        i += 1;
    }
    assert(path@.skip(start as int) =~= archive_suffix());
    true
}

/// The path of the archive unit that holds `path`: the suffix is appended,
/// and nothing of the path is replaced.
pub fn archive_path_for(path: &str) -> (r: String)
    ensures
        r@ == path@ + archive_suffix(),
{
    let suffix = ".tar.gz";
    proof {
        reveal_strlit(".tar.gz");
    }
    assert(suffix@ =~= archive_suffix());
    path.to_owned().concat(suffix)
}

/// The path of an archive unit always bears the archive suffix, so that no
/// later pass takes an archive unit for a source file.
pub proof fn lemma_archive_path_is_archive(path: Seq<char>)
    ensures
        has_archive_suffix(path + archive_suffix()),
{
    let whole = path + archive_suffix();
    assert(whole.skip(whole.len() - archive_suffix().len()) =~= archive_suffix());
}

impl DirectoryEntry {
    /// Whether this entry is an archive unit.
    pub fn is_archive_unit(&self) -> (r: bool)
        ensures
            r == self@.is_archive_unit(),
    {
        !self.is_dir && is_archive_path(self.path.as_str())
    }

    /// Whether this entry is a source file.
    pub fn is_source_file(&self) -> (r: bool)
        ensures
            r == self@.is_source_file(),
    {
        !self.is_dir && !is_archive_path(self.path.as_str())
    }
}

} // verus!
