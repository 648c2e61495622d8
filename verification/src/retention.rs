//! The retention pruner: which archive units stay, and which are deleted.

use vstd::prelude::*;
use crate::entry::{listing, DirectoryEntry, EntryView};

verus! {

/// Whether the archive unit at `a` comes before the one at `b` when archive
/// units are ordered newest first. Units created at the same time keep the
/// order of the listing.
pub open spec fn ranks_before(dir: Seq<EntryView>, a: int, b: int) -> bool {
    dir[a].created > dir[b].created || (dir[a].created == dir[b].created && a < b)
}

/// Whether `order` names the archive units of the listing, each of them once,
/// newest first.
pub open spec fn is_retention_order(dir: Seq<EntryView>, order: Seq<usize>) -> bool {
    &&& forall|k: int|
        0 <= k < order.len() ==> (#[trigger] order[k]) < dir.len()
            && dir[order[k] as int].is_archive_unit()
    &&& forall|i: usize|
        i < dir.len() && (#[trigger] dir[i as int]).is_archive_unit() ==> order.contains(i)
    &&& forall|k: int, l: int|
        0 <= k < l < order.len() ==> ranks_before(
            dir,
            (#[trigger] order[k]) as int,
            (#[trigger] order[l]) as int,
        )
}

/// How many of `total` archive units stay under a retention count of `n`.
pub open spec fn kept_count(total: nat, n: nat) -> nat {
    if total <= n {
        total
    } else {
        n
    }
}

/// The archive units to keep and to delete, as positions in the listing.
#[derive(Debug)]
pub struct Retention {
    /// The units that stay, newest first.
    pub keep: Vec<usize>,
    /// The units that are deleted, newest first.
    pub delete: Vec<usize>,
}

/// Lists the archive units of a directory, newest first.
pub fn retention_order(entries: &Vec<DirectoryEntry>) -> (order: Vec<usize>)
    ensures
        is_retention_order(listing(entries@), order@),
{
    let ghost dir = listing(entries@);
    let mut order: Vec<usize> = Vec::new();
    let mut i: usize = 0;
    while i < entries.len()
        invariant
            i <= entries.len(),
            dir == listing(entries@),
            forall|k: int|
                0 <= k < order.len() ==> (#[trigger] order[k]) < i
                    && dir[order[k] as int].is_archive_unit(),
            forall|j: usize|
                j < i && (#[trigger] dir[j as int]).is_archive_unit() ==> order@.contains(j),
            forall|k: int, l: int|
                0 <= k < l < order.len() ==> ranks_before(
                    dir,
                    (#[trigger] order[k]) as int,
                    (#[trigger] order[l]) as int,
                ),
        decreases entries.len() - i,
    {
        assert(dir[i as int] == entries[i as int]@);
        if entries[i].is_archive_unit() {
            let created = entries[i].created;
            let mut p: usize = 0;
            while p < order.len() && entries[order[p]].created >= created
                invariant
                    p <= order.len(),
                    i < entries.len(),
                    dir == listing(entries@),
                    created == entries[i as int].created,
                    forall|k: int| 0 <= k < order.len() ==> (#[trigger] order[k]) < i,
                    forall|k: int|
                        0 <= k < p ==> dir[(#[trigger] order[k]) as int].created >= created,
                decreases order.len() - p,
            {
                assert(dir[order[p as int] as int] == entries[order[p as int] as int]@);
                p += 1;
            }
            let ghost before = order@;
            proof {
                if p < order.len() {
                    assert(dir[order[p as int] as int] == entries[order[p as int] as int]@);
                }
                assert forall|l: int| p <= l < before.len() implies dir[(#[trigger] before[l]) as int].created
                    < created by {
                    if l > p {
                        assert(ranks_before(dir, before[p as int] as int, before[l] as int));
                    }
                }
            }
            order.insert(p, i);
            proof {
                let after = order@;
                assert(after.len() == before.len() + 1);
                assert(after[p as int] == i);
                assert forall|k: int| 0 <= k < p implies after[k] == before[k] by {}
                assert forall|k: int| p < k < after.len() implies after[k] == before[k - 1] by {}
                assert forall|j: usize|
                    j < i + 1 && (#[trigger] dir[j as int]).is_archive_unit() implies after.contains(
                    j,
                ) by {
                    if j < i {
                        assert(before.contains(j));
                        let k = choose|k: int| 0 <= k < before.len() && before[k] == j;
                        if k < p {
                            assert(after[k] == j);
                        } else {
                            assert(after[k + 1] == j);
                        }
                    }
                }
                assert forall|k: int, l: int| 0 <= k < l < after.len() implies ranks_before(
                    dir,
                    (#[trigger] after[k]) as int,
                    (#[trigger] after[l]) as int,
                ) by {
                    if l < p {
                    } else if l == p {
                    } else if k < p {
                        assert(after[l] == before[l - 1]);
                    } else if k == p {
                        assert(after[l] == before[l - 1]);
                    } else {
                        assert(after[k] == before[k - 1]);
                        assert(after[l] == before[l - 1]);
                    }
                }
            }
        }
        i += 1;
    }
    order
}

/// The retention pruner: of the archive units in the listing, the `n` newest
/// stay and all others are deleted. Entries that are no archive units are
/// never named.
pub fn keep_latest_n_files(entries: &Vec<DirectoryEntry>, n: usize) -> (r: Retention)
    ensures
        is_retention_order(listing(entries@), r.keep@ + r.delete@),
        r.keep@.len() == kept_count(r.keep@.len() + r.delete@.len(), n as nat),
{
    let mut keep = retention_order(entries);
    let ghost order = keep@;
    let at: usize = if keep.len() <= n {
        keep.len()
    } else {
        n
    };
    let delete = keep.split_off(at);
    assert(keep@ + delete@ =~= order);
    Retention { keep, delete }
}

/// The archive units of a listing, as the set of their positions.
pub open spec fn archive_units(dir: Seq<EntryView>) -> Set<usize> {
    Set::new(|i: usize| i < dir.len() && dir[i as int].is_archive_unit())
}

/// The archive units that are still there once those in `delete` are gone.
pub open spec fn remaining_units(dir: Seq<EntryView>, delete: Seq<usize>) -> Set<usize> {
    Set::new(|i: usize| i < dir.len() && dir[i as int].is_archive_unit() && !delete.contains(i))
}

/// No position occurs twice in a retention order.
pub proof fn lemma_retention_order_is_duplicate_free(dir: Seq<EntryView>, order: Seq<usize>)
    requires
        is_retention_order(dir, order),
    ensures
        order.no_duplicates(),
{
    assert forall|k: int, l: int|
        0 <= k < order.len() && 0 <= l < order.len() && k != l implies order[k] != order[l] by {
        if k < l {
            assert(ranks_before(dir, order[k] as int, order[l] as int));
        } else {
            assert(ranks_before(dir, order[l] as int, order[k] as int));
        }
    }
}

proof fn lemma_retention_orders_agree(
    dir: Seq<EntryView>,
    first: Seq<usize>,
    second: Seq<usize>,
    k: int,
)
    requires
        is_retention_order(dir, first),
        is_retention_order(dir, second),
        0 <= k <= first.len(),
        k <= second.len(),
    ensures
        forall|j: int| 0 <= j < k ==> first[j] == second[j],
    decreases k,
{
    if k > 0 {
        lemma_retention_orders_agree(dir, first, second, k - 1);
        let a = first[k - 1];
        let b = second[k - 1];
        assert(dir[a as int].is_archive_unit());
        assert(dir[b as int].is_archive_unit());
        assert(second.contains(a));
        assert(first.contains(b));
        let m = choose|m: int| 0 <= m < second.len() && second[m] == a;
        let w = choose|w: int| 0 <= w < first.len() && first[w] == b;
        if m < k - 1 {
            assert(first[m] == second[m]);
            assert(ranks_before(dir, first[m] as int, first[k - 1] as int));
        }
        if w < k - 1 {
            assert(first[w] == second[w]);
            assert(ranks_before(dir, second[w] as int, second[k - 1] as int));
        }
        if m > k - 1 && w > k - 1 {
            assert(ranks_before(dir, second[k - 1] as int, second[m] as int));
            assert(ranks_before(dir, first[k - 1] as int, first[w] as int));
        }
    }
}

/// The order in which the pruner considers the archive units of a listing is
/// fixed by the listing: two retention orders of one listing are equal.
pub proof fn lemma_retention_order_is_unique(
    dir: Seq<EntryView>,
    first: Seq<usize>,
    second: Seq<usize>,
)
    requires
        is_retention_order(dir, first),
        is_retention_order(dir, second),
    ensures
        first == second,
{
    let k = if first.len() <= second.len() {
        first.len() as int
    } else {
        second.len() as int
    };
    lemma_retention_orders_agree(dir, first, second, k);
    if first.len() < second.len() {
        let b = second[k];
        assert(dir[b as int].is_archive_unit());
        assert(first.contains(b));
        let w = choose|w: int| 0 <= w < first.len() && first[w] == b;
        assert(first[w] == second[w]);
        assert(ranks_before(dir, second[w] as int, second[k] as int));
    }
    if second.len() < first.len() {
        let a = first[k];
        assert(dir[a as int].is_archive_unit());
        assert(second.contains(a));
        let m = choose|m: int| 0 <= m < second.len() && second[m] == a;
        assert(first[m] == second[m]);
        assert(ranks_before(dir, first[m] as int, first[k] as int));
    }
    assert(first =~= second);
}

/// A retention order names as many positions as the listing has archive units.
pub proof fn lemma_retention_order_counts(dir: Seq<EntryView>, order: Seq<usize>)
    requires
        is_retention_order(dir, order),
    ensures
        archive_units(dir).finite(),
        order.len() == archive_units(dir).len(),
{
    lemma_retention_order_is_duplicate_free(dir, order);
    order.unique_seq_to_set();
    vstd::seq_lib::seq_to_set_is_finite(order);
    assert forall|i: usize| order.to_set().contains(i) <==> archive_units(dir).contains(i) by {
        if order.contains(i) {
            let k = choose|k: int| 0 <= k < order.len() && order[k] == i;
            assert(dir[order[k] as int].is_archive_unit());
        }
        if archive_units(dir).contains(i) {
            assert(dir[i as int].is_archive_unit());
        }
    }
    assert(order.to_set() =~= archive_units(dir));
}

/// The retention bound. Under a retention count of `n`, whatever the pruner
/// returns for a listing has these properties: at most `n` archive units stay;
/// only archive units are deleted; every archive unit either stays or is
/// deleted; no deleted unit is newer than a unit that stays; and nothing is
/// deleted unless more than `n` units exist. Once the deleted units are gone,
/// the archive units left in the directory are exactly the kept ones.
pub proof fn lemma_retention_bound(
    dir: Seq<EntryView>,
    keep: Seq<usize>,
    delete: Seq<usize>,
    n: nat,
)
    requires
        is_retention_order(dir, keep + delete),
        keep.len() == kept_count(keep.len() + delete.len(), n),
    ensures
        keep.len() <= n,
        archive_units(dir).finite(),
        keep.len() == kept_count(archive_units(dir).len(), n),
        delete.len() > 0 <==> archive_units(dir).len() > n,
        forall|l: int|
            0 <= l < delete.len() ==> (#[trigger] delete[l]) < dir.len()
                && dir[delete[l] as int].is_archive_unit(),
        forall|i: usize|
            i < dir.len() && (#[trigger] dir[i as int]).is_archive_unit() ==> (keep.contains(i)
                != delete.contains(i)),
        forall|k: int, l: int|
            0 <= k < keep.len() && 0 <= l < delete.len() ==> dir[(#[trigger] keep[k]) as int].created
                >= dir[(#[trigger] delete[l]) as int].created,
        remaining_units(dir, delete) == keep.to_set(),
        remaining_units(dir, delete).finite(),
        remaining_units(dir, delete).len() == keep.len(),
{
    let order = keep + delete;
    let cut = keep.len() as int;
    lemma_retention_order_counts(dir, order);
    lemma_retention_order_is_duplicate_free(dir, order);
    assert forall|k: int| 0 <= k < keep.len() implies keep[k] == order[k] by {}
    assert forall|l: int| 0 <= l < delete.len() implies delete[l] == order[cut + l] by {}
    assert forall|l: int| 0 <= l < delete.len() implies (#[trigger] delete[l]) < dir.len()
        && dir[delete[l] as int].is_archive_unit() by {
        assert(delete[l] == order[cut + l]);
    }
    assert forall|i: usize|
        i < dir.len() && (#[trigger] dir[i as int]).is_archive_unit() implies (keep.contains(i)
        != delete.contains(i)) by {
        assert(order.contains(i));
        let m = choose|m: int| 0 <= m < order.len() && order[m] == i;
        if m < cut {
            assert(keep[m] == i);
            if delete.contains(i) {
                let l = choose|l: int| 0 <= l < delete.len() && delete[l] == i;
                assert(order[cut + l] == order[m]);
            }
        } else {
            assert(delete[m - cut] == i);
            if keep.contains(i) {
                let k = choose|k: int| 0 <= k < keep.len() && keep[k] == i;
                assert(order[k] == order[m]);
            }
        }
    }
    assert forall|k: int, l: int| 0 <= k < keep.len() && 0 <= l < delete.len() implies dir[(
    #[trigger] keep[k]) as int].created >= dir[(#[trigger] delete[l]) as int].created by {
        assert(ranks_before(dir, order[k] as int, order[cut + l] as int));
    }
    assert forall|i: usize| remaining_units(dir, delete).contains(i) <==> keep.to_set().contains(
        i,
    ) by {
        if keep.contains(i) {
            let k = choose|k: int| 0 <= k < keep.len() && keep[k] == i;
            assert(order[k] == i);
            assert(dir[i as int].is_archive_unit());
        }
        if remaining_units(dir, delete).contains(i) {
            assert(dir[i as int].is_archive_unit());
        }
    }
    assert(remaining_units(dir, delete) =~= keep.to_set());
    assert(keep.no_duplicates()) by {
        assert forall|k: int, l: int|
            0 <= k < keep.len() && 0 <= l < keep.len() && k != l implies keep[k] != keep[l] by {
            assert(order[k] != order[l]);
        }
    }
    keep.unique_seq_to_set();
    vstd::seq_lib::seq_to_set_is_finite(keep);
}

} // verus!
