//! The latest file of a directory: the one that every pass protects.

use vstd::prelude::*;
use crate::entry::{listing, DirectoryEntry, EntryView};
use crate::error::PassError;

verus! {

/// Whether the listing holds a source file at all.
pub open spec fn has_source_file(dir: Seq<EntryView>) -> bool {
    exists|j: int| 0 <= j < dir.len() && (#[trigger] dir[j]).is_source_file()
}

/// Whether the entry at `i` is the latest file of the listing: a source file
/// that no other source file is newer than. Among source files created at the
/// same time, the one that stands first in the listing is the latest.
pub open spec fn is_latest(dir: Seq<EntryView>, i: int) -> bool {
    &&& 0 <= i < dir.len()
    &&& dir[i].is_source_file()
    &&& forall|j: int|
        0 <= j < dir.len() && (#[trigger] dir[j]).is_source_file() ==> dir[j].created
            <= dir[i].created
    &&& forall|j: int|
        0 <= j < i && (#[trigger] dir[j]).is_source_file() ==> dir[j].created < dir[i].created
}

/// A listing has at most one latest file.
pub proof fn lemma_latest_is_unique(dir: Seq<EntryView>, a: int, b: int)
    requires
        is_latest(dir, a),
        is_latest(dir, b),
    ensures
        a == b,
{
    if a < b {
        assert(dir[a].is_source_file());
        assert(dir[a].created < dir[b].created);
        assert(dir[b].created <= dir[a].created);
    } else if b < a {
        assert(dir[b].is_source_file());
        assert(dir[b].created < dir[a].created);
        assert(dir[a].created <= dir[b].created);
    }
}

/// A listing has a latest file exactly if it holds a source file.
pub proof fn lemma_latest_exists(dir: Seq<EntryView>)
    ensures
        has_source_file(dir) <==> exists|i: int| is_latest(dir, i),
{
    if has_source_file(dir) {
        let j = choose|j: int| 0 <= j < dir.len() && (#[trigger] dir[j]).is_source_file();
        let i = latest_upto(dir, dir.len() as int);
        lemma_latest_upto(dir, dir.len() as int);
        assert(dir[j].is_source_file());
        assert(dir.take(dir.len() as int) =~= dir);
        assert(is_latest(dir, i));
    }
    if exists|i: int| is_latest(dir, i) {
        let i = choose|i: int| is_latest(dir, i);
        assert(dir[i].is_source_file());
    }
}

/// The latest file among the first `n` entries, or -1 if none of them is a
/// source file.
spec fn latest_upto(dir: Seq<EntryView>, n: int) -> int
    decreases n,
{
    if n <= 0 {
        -1
    } else {
        let before = latest_upto(dir, n - 1);
        if dir[n - 1].is_source_file() && (before < 0 || dir[n - 1].created
            > dir[before].created) {
            n - 1
        } else {
            before
        }
    }
}

/// What [`latest_upto`] computes: the latest file of the first `n` entries.
proof fn lemma_latest_upto(dir: Seq<EntryView>, n: int)
    requires
        0 <= n <= dir.len(),
    ensures
        -1 <= latest_upto(dir, n) < n,
        latest_upto(dir, n) < 0 ==> forall|j: int|
            0 <= j < n ==> !(#[trigger] dir[j]).is_source_file(),
        latest_upto(dir, n) >= 0 ==> is_latest(dir.take(n), latest_upto(dir, n)),
    decreases n,
{
    if n > 0 {
        lemma_latest_upto(dir, n - 1);
        let before = latest_upto(dir, n - 1);
        let now = latest_upto(dir, n);
        let head = dir.take(n - 1);
        let all = dir.take(n);
        assert forall|j: int| 0 <= j < n - 1 implies head[j] == all[j] by {}
        if now >= 0 {
            assert forall|j: int|
                0 <= j < all.len() && (#[trigger] all[j]).is_source_file() implies all[j].created
                <= all[now].created by {
                if j < n - 1 {
                    assert(head[j].is_source_file());
                }
            }
            assert forall|j: int|
                0 <= j < now && (#[trigger] all[j]).is_source_file() implies all[j].created
                < all[now].created by {
                assert(head[j].is_source_file());
            }
        }
    } else {
        assert(dir.take(0).len() == 0);
    }
}

/// Finds the latest file of a listing. With no source file in the listing
/// there is nothing to protect, and the pass cannot run.
pub fn latest_file(entries: &Vec<DirectoryEntry>) -> (r: Result<usize, PassError>)
    ensures
        match r {
            Ok(i) => is_latest(listing(entries@), i as int),
            Err(e) => e == PassError::NoFiles && !has_source_file(listing(entries@)),
        },
{
    let ghost dir = listing(entries@);
    let mut latest: Option<usize> = None;
    let mut i: usize = 0;
    while i < entries.len()
        invariant
            i <= entries.len(),
            dir == listing(entries@),
            match latest {
                None => forall|j: int| 0 <= j < i ==> !(#[trigger] dir[j]).is_source_file(),
                Some(k) => {
                    &&& k < i
                    &&& dir[k as int].is_source_file()
                    &&& forall|j: int|
                        0 <= j < i && (#[trigger] dir[j]).is_source_file() ==> dir[j].created
                            <= dir[k as int].created
                    &&& forall|j: int|
                        0 <= j < k && (#[trigger] dir[j]).is_source_file() ==> dir[j].created
                            < dir[k as int].created
                },
            },
        decreases entries.len() - i,
    {
        let entry = &entries[i];
        assert(dir[i as int] == entry@);
        if entry.is_source_file() {
            match latest {
                None => {
                    latest = Some(i);
                },
                Some(k) => {
                    assert(dir[k as int] == entries[k as int]@);
                    if entry.created > entries[k].created {
                        latest = Some(i);
                    }
                },
            }
        }
        i += 1;
    }
    match latest {
        Some(k) => Ok(k),
        None => Err(PassError::NoFiles),
    }
}

} // verus!
