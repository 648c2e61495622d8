//! What holds of every pass, whatever the directory and the policies.

use vstd::prelude::*;
use crate::eligibility::{verdict, Decision};
use crate::entry::EntryView;
use crate::exclude::excluded_by;
use crate::gate::{gate_for, GateOutcome};
use crate::latest::{has_source_file, is_latest, lemma_latest_is_unique};
use crate::pass::{planned, task_for, ConfigView, Task};
use crate::retention::is_retention_order;

verus! {

/// The latest file is protected. In a listing with a latest file, that file
/// is at least as new as every other source file, and the pass leaves it as
/// it is: whether or not the exclude pattern matches it, and whether or not a
/// size gate is configured.
pub proof fn lemma_latest_is_protected(dir: Seq<EntryView>, config: ConfigView, latest: int)
    requires
        is_latest(dir, latest),
    ensures
        forall|j: int|
            0 <= j < dir.len() && (#[trigger] dir[j]).is_source_file() ==> dir[j].created
                <= dir[latest].created,
        planned(dir, config, latest)[latest] == Decision::SkipLatest,
        task_for(planned(dir, config, latest)[latest], config.min_size) == Task::Leave,
{
}

/// Excluded files are left alone. A file that the exclude pattern matches,
/// and that is no archive unit of an earlier pass, is left as it is, and the
/// pruner never counts it: no retention order of the listing names it.
pub proof fn lemma_excluded_is_untouched(
    dir: Seq<EntryView>,
    config: ConfigView,
    latest: int,
    i: usize,
    order: Seq<usize>,
)
    requires
        i < dir.len(),
        excluded_by(config.exclude, dir[i as int].path),
        !dir[i as int].is_archive_unit(),
        is_retention_order(dir, order),
    ensures
        planned(dir, config, latest)[i as int].is_skip(),
        task_for(planned(dir, config, latest)[i as int], config.min_size) == Task::Leave,
        !order.contains(i),
{
    if order.contains(i) {
        let k = choose|k: int| 0 <= k < order.len() && order[k] == i;
        assert(dir[order[k] as int].is_archive_unit());
    }
}

/// The size gate replaces the archiver. With a minimum size configured, no
/// entry of any listing is compressed: the eligible files are size-gated, and
/// all others are left as they are. A size gate deletes a file exactly if it is
/// smaller than the minimum.
pub proof fn lemma_size_gate_never_archives(dir: Seq<EntryView>, config: ConfigView, latest: int)
    requires
        config.min_size is Some,
    ensures
        forall|i: int|
            0 <= i < dir.len() ==> task_for(
                #[trigger] planned(dir, config, latest)[i],
                config.min_size,
            ) != Task::Compress,
        forall|i: int|
            0 <= i < dir.len() ==> (task_for(
                #[trigger] planned(dir, config, latest)[i],
                config.min_size,
            ) == Task::SizeGate(config.min_size->0) <==> planned(dir, config, latest)[i]
                == Decision::Archive),
        forall|size: u64|
            (#[trigger] gate_for(size, config.min_size->0)) == GateOutcome::Delete <==> size
                < config.min_size->0,
{
}

/// Whether carrying out a task takes the file away from its place: by
/// compressing it, or by deleting it at the size gate.
pub open spec fn removes(task: Task, size: u64) -> bool {
    match task {
        Task::Leave => false,
        Task::Compress => true,
        Task::SizeGate(min) => gate_for(size, min) == GateOutcome::Delete,
    }
}

/// Whether an entry is still in its place after a pass in which every task
/// succeeded. `sizes` gives the size of the file at each path.
pub open spec fn stays(
    entry: EntryView,
    latest: Seq<char>,
    config: ConfigView,
    sizes: spec_fn(Seq<char>) -> u64,
) -> bool {
    !removes(task_for(verdict(entry, latest, config.exclude), config.min_size), sizes(entry.path))
}

/// [`stays`] as a predicate on entries.
pub open spec fn staying(latest: Seq<char>, config: ConfigView, sizes: spec_fn(Seq<char>) -> u64)
    -> spec_fn(EntryView) -> bool {
    |entry: EntryView| stays(entry, latest, config, sizes)
}

/// The listing after a pass in which every task succeeded: the entries that
/// stay, in their order, followed by the archive units that the pass made.
pub open spec fn left_by_pass(
    dir: Seq<EntryView>,
    config: ConfigView,
    latest: int,
    sizes: spec_fn(Seq<char>) -> u64,
    made: Seq<EntryView>,
) -> Seq<EntryView> {
    dir.filter(staying(dir[latest].path, config, sizes)) + made
}

proof fn lemma_filter_step(s: Seq<EntryView>, e: EntryView, keep: spec_fn(EntryView) -> bool)
    ensures
        s.push(e).filter(keep) == if keep(e) {
            s.filter(keep).push(e)
        } else {
            s.filter(keep)
        },
{
    reveal(Seq::filter);
    assert(s.push(e).drop_last() =~= s);
}

proof fn lemma_latest_stays(
    dir: Seq<EntryView>,
    latest: int,
    keep: spec_fn(EntryView) -> bool,
    n: int,
)
    requires
        is_latest(dir, latest),
        keep(dir[latest]),
        0 <= n <= dir.len(),
    ensures
        forall|m: int|
            0 <= m < dir.take(n).filter(keep).len() ==> exists|j: int|
                0 <= j < n && dir[j] == #[trigger] dir.take(n).filter(keep)[m],
        n <= latest ==> forall|m: int|
            0 <= m < dir.take(n).filter(keep).len() && (#[trigger] dir.take(n).filter(
                keep,
            )[m]).is_source_file() ==> dir.take(n).filter(keep)[m].created < dir[latest].created,
        n > latest ==> exists|k: int|
            {
                &&& 0 <= k < dir.take(n).filter(keep).len()
                &&& dir.take(n).filter(keep)[k] == dir[latest]
                &&& forall|m: int|
                    0 <= m < k && (#[trigger] dir.take(n).filter(keep)[m]).is_source_file()
                        ==> dir.take(n).filter(keep)[m].created < dir[latest].created
            },
    decreases n,
{
    reveal(Seq::filter);
    if n > 0 {
        lemma_latest_stays(dir, latest, keep, n - 1);
        let before = dir.take(n - 1).filter(keep);
        let now = dir.take(n).filter(keep);
        assert(dir.take(n) =~= dir.take(n - 1).push(dir[n - 1]));
        lemma_filter_step(dir.take(n - 1), dir[n - 1], keep);
        assert forall|m: int| 0 <= m < now.len() implies exists|j: int|
            0 <= j < n && dir[j] == #[trigger] now[m] by {
            if m < before.len() {
                let j = choose|j: int| 0 <= j < n - 1 && dir[j] == before[m];
                assert(dir[j] == now[m]);
            } else {
                assert(dir[n - 1] == now[m]);
            }
        }
        if n <= latest {
            assert forall|m: int|
                0 <= m < now.len() && (#[trigger] now[m]).is_source_file() implies now[m].created
                < dir[latest].created by {
                if m < before.len() {
                    assert(before[m].is_source_file());
                } else {
                    assert(dir[n - 1].is_source_file());
                }
            }
        } else if n - 1 == latest {
            let k = before.len() as int;
            assert(now[k] == dir[latest]);
            assert forall|m: int|
                0 <= m < k && (#[trigger] now[m]).is_source_file() implies now[m].created
                < dir[latest].created by {
                assert(before[m].is_source_file());
            }
        } else {
            let k = choose|k: int|
                {
                    &&& 0 <= k < before.len()
                    &&& before[k] == dir[latest]
                    &&& forall|m: int|
                        0 <= m < k && (#[trigger] before[m]).is_source_file() ==> before[m].created
                            < dir[latest].created
                };
            assert(now[k] == dir[latest]);
            assert forall|m: int|
                0 <= m < k && (#[trigger] now[m]).is_source_file() implies now[m].created
                < dir[latest].created by {
                assert(before[m].is_source_file());
            }
        }
    } else {
        assert(dir.take(0).len() == 0);
    }
}

/// The latest file outlives the pass. After a pass in which every task
/// succeeded, the directory still holds a source file, and its latest file is
/// the one that the pass protected.
pub proof fn lemma_latest_outlives_pass(
    dir: Seq<EntryView>,
    config: ConfigView,
    latest: int,
    sizes: spec_fn(Seq<char>) -> u64,
    made: Seq<EntryView>,
)
    requires
        is_latest(dir, latest),
        forall|k: int| 0 <= k < made.len() ==> (#[trigger] made[k]).is_archive_unit(),
    ensures
        has_source_file(left_by_pass(dir, config, latest, sizes, made)),
        forall|again: int|
            is_latest(left_by_pass(dir, config, latest, sizes, made), again) ==> left_by_pass(
                dir,
                config,
                latest,
                sizes,
                made,
            )[again] == dir[latest],
{
    let keep = staying(dir[latest].path, config, sizes);
    let kept = dir.filter(keep);
    let after = left_by_pass(dir, config, latest, sizes, made);
    assert(keep(dir[latest]));
    lemma_latest_stays(dir, latest, keep, dir.len() as int);
    assert(dir.take(dir.len() as int) =~= dir);
    let k = choose|k: int|
        {
            &&& 0 <= k < kept.len()
            &&& kept[k] == dir[latest]
            &&& forall|m: int|
                0 <= m < k && (#[trigger] kept[m]).is_source_file() ==> kept[m].created
                    < dir[latest].created
        };
    assert(after[k] == dir[latest]);
    assert(has_source_file(after));
    assert forall|j: int|
        0 <= j < after.len() && (#[trigger] after[j]).is_source_file() implies after[j].created
        <= after[k].created by {
        if j < kept.len() {
            let o = choose|o: int| 0 <= o < dir.len() && dir[o] == kept[j];
            assert(dir[o].is_source_file());
        } else {
            assert(made[j - kept.len()].is_archive_unit());
        }
    }
    assert forall|j: int|
        0 <= j < k && (#[trigger] after[j]).is_source_file() implies after[j].created
        < after[k].created by {
        assert(kept[j].is_source_file());
    }
    assert(is_latest(after, k));
    assert forall|again: int| is_latest(after, again) implies after[again] == dir[latest] by {
        lemma_latest_is_unique(after, again, k);
    }
}

/// A second pass changes nothing. Take the listing that a pass leaves when
/// every task succeeded, with no new file and no change of size since. A pass
/// over that listing takes no entry from its place: it compresses nothing and
/// deletes nothing. Without a size gate it finds no eligible entry at all.
pub proof fn lemma_second_pass_changes_nothing(
    dir: Seq<EntryView>,
    config: ConfigView,
    latest: int,
    sizes: spec_fn(Seq<char>) -> u64,
    made: Seq<EntryView>,
    again: int,
)
    requires
        is_latest(dir, latest),
        forall|k: int| 0 <= k < made.len() ==> (#[trigger] made[k]).is_archive_unit(),
        is_latest(left_by_pass(dir, config, latest, sizes, made), again),
    ensures
        forall|j: int|
            0 <= j < left_by_pass(dir, config, latest, sizes, made).len() ==> stays(
                #[trigger] left_by_pass(dir, config, latest, sizes, made)[j],
                left_by_pass(dir, config, latest, sizes, made)[again].path,
                config,
                sizes,
            ),
        config.min_size is None ==> forall|j: int|
            0 <= j < left_by_pass(dir, config, latest, sizes, made).len() ==> (
            #[trigger] planned(
                left_by_pass(dir, config, latest, sizes, made),
                config,
                again,
            )[j]).is_skip(),
{
    let keep = staying(dir[latest].path, config, sizes);
    let kept = dir.filter(keep);
    let after = left_by_pass(dir, config, latest, sizes, made);
    lemma_latest_outlives_pass(dir, config, latest, sizes, made);
    assert(after[again] == dir[latest]);
    assert forall|j: int| 0 <= j < after.len() implies stays(
        #[trigger] after[j],
        after[again].path,
        config,
        sizes,
    ) by {
        if j < kept.len() {
            dir.lemma_filter_pred(keep, j);
            assert(keep(kept[j]));
        } else {
            assert(made[j - kept.len()].is_archive_unit());
        }
    }
    if config.min_size is None {
        assert forall|j: int| 0 <= j < after.len() implies (#[trigger] planned(
            after,
            config,
            again,
        )[j]).is_skip() by {
            assert(stays(after[j], after[again].path, config, sizes));
        }
    }
}

} // verus!
