//! What holds of every listing and of every retention sweep.

use crate::backup::{
    delete_course, restore_course, safety_path_of, sidecar_path_of, BackupMetadata,
};
use crate::listing::{cleanup_course, entry_position, newest_first, records_course, sweep_course};
use crate::effects::{Course, Reply, RequestView};
use crate::models::ErrorKind;
use vstd::prelude::*;

verus! {

/// No record stands before a newer one.
pub open spec fn is_newest_first(list: Seq<BackupMetadata>) -> bool {
    forall|i: int, j: int|
        0 <= i < j < list.len() ==> (#[trigger] list[i]).timestamp >= (
        #[trigger] list[j]).timestamp
}

/// Every record stands before the older ones only.
pub open spec fn is_strictly_newest_first(list: Seq<BackupMetadata>) -> bool {
    forall|i: int, j: int|
        0 <= i < j < list.len() ==> (#[trigger] list[i]).timestamp > (
        #[trigger] list[j]).timestamp
}

/// No two records were made at the same moment.
pub open spec fn distinct_moments(list: Seq<BackupMetadata>) -> bool {
    forall|i: int, j: int|
        0 <= i < j < list.len() ==> (#[trigger] list[i]).timestamp != (
        #[trigger] list[j]).timestamp
}

/// Where a record enters an ordered list: behind the records that are as
/// new or newer, before the first older one.
pub proof fn lemma_entry_position_place(sorted: Seq<BackupMetadata>, stamp: i64)
    ensures
        0 <= entry_position(sorted, stamp) <= sorted.len(),
        forall|j: int|
            0 <= j < entry_position(sorted, stamp) ==> (#[trigger] sorted[j]).timestamp >= stamp,
        entry_position(sorted, stamp) < sorted.len() ==> sorted[entry_position(
            sorted,
            stamp,
        )].timestamp < stamp,
    decreases sorted.len(),
{
    if sorted.len() > 0 && !(sorted[0].timestamp < stamp) {
        let rest = sorted.drop_first();
        lemma_entry_position_place(rest, stamp);
        let place = entry_position(rest, stamp);
        assert forall|j: int| 0 <= j < place + 1 implies (#[trigger] sorted[j]).timestamp
            >= stamp by {
            if j > 0 {
                assert(sorted[j] == rest[j - 1]);
            }
        }
        if place < rest.len() {
            assert(sorted[place + 1] == rest[place]);
        }
    }
}

/// Ordering keeps every record and adds none: the ordered list is as long
/// as the list, holds the same records as often, and holds each of them at
/// some place of the list.
pub proof fn law_listing_same_records(list: Seq<BackupMetadata>)
    ensures
        newest_first(list).len() == list.len(),
        newest_first(list).to_multiset() == list.to_multiset(),
        forall|k: int|
            0 <= k < list.len() ==> exists|m: int|
                0 <= m < list.len() && (#[trigger] newest_first(list)[k]) == list[m],
    decreases list.len(),
{
    if list.len() == 0 {
        assert(newest_first(list) =~= list);
    } else {
        let front = list.drop_last();
        let sorted = newest_first(front);
        let place = entry_position(sorted, list.last().timestamp);
        law_listing_same_records(front);
        lemma_entry_position_place(sorted, list.last().timestamp);
        vstd::seq_lib::to_multiset_insert(sorted, place, list.last());
        vstd::seq_lib::to_multiset_build(front, list.last());
        assert(front.push(list.last()) =~= list);
        let after = newest_first(list);
        assert forall|k: int| 0 <= k < list.len() implies exists|m: int|
            0 <= m < list.len() && (#[trigger] after[k]) == list[m] by {
            if k < place {
                assert(after[k] == sorted[k]);
                let m = choose|m: int| 0 <= m < front.len() && sorted[k] == front[m];
                assert(list[m] == front[m]);
            } else if k == place {
                assert(after[k] == list[list.len() - 1]);
            } else {
                assert(after[k] == sorted[k - 1]);
                let m = choose|m: int| 0 <= m < front.len() && sorted[k - 1] == front[m];
                assert(list[m] == front[m]);
            }
        }
    }
}

/// A listing is ordered by timestamp, newest first.
pub proof fn law_listing_ordered(list: Seq<BackupMetadata>)
    ensures
        is_newest_first(newest_first(list)),
    decreases list.len(),
{
    if list.len() > 0 {
        let sorted = newest_first(list.drop_last());
        let stamp = list.last().timestamp;
        let place = entry_position(sorted, stamp);
        law_listing_ordered(list.drop_last());
        law_listing_same_records(list.drop_last());
        lemma_entry_position_place(sorted, stamp);
        let after = newest_first(list);
        assert forall|i: int, j: int| 0 <= i < j < after.len() implies (
        #[trigger] after[i]).timestamp >= (#[trigger] after[j]).timestamp by {
            if j < place {
                assert(after[i] == sorted[i] && after[j] == sorted[j]);
            } else if j == place {
                assert(after[i] == sorted[i]);
            } else if i < place {
                assert(after[i] == sorted[i] && after[j] == sorted[j - 1]);
                if place < j - 1 {
                    assert(sorted[place].timestamp >= sorted[j - 1].timestamp);
                }
            } else if i == place {
                assert(after[j] == sorted[j - 1]);
                if place < j - 1 {
                    assert(sorted[place].timestamp >= sorted[j - 1].timestamp);
                }
            } else {
                assert(after[i] == sorted[i - 1] && after[j] == sorted[j - 1]);
            }
        }
    }
}

/// Where no two backups were made at the same moment, every backup of a
/// listing is strictly newer than those behind it.
pub proof fn law_listing_strictly_ordered(list: Seq<BackupMetadata>)
    requires
        distinct_moments(list),
    ensures
        is_strictly_newest_first(newest_first(list)),
    decreases list.len(),
{
    if list.len() > 0 {
        let front = list.drop_last();
        let sorted = newest_first(front);
        let stamp = list.last().timestamp;
        let place = entry_position(sorted, stamp);
        assert forall|i: int, j: int| 0 <= i < j < front.len() implies (
        #[trigger] front[i]).timestamp != (#[trigger] front[j]).timestamp by {
            assert(front[i] == list[i] && front[j] == list[j]);
        }
        law_listing_strictly_ordered(front);
        law_listing_same_records(front);
        lemma_entry_position_place(sorted, stamp);
        assert forall|k: int| 0 <= k < sorted.len() implies (#[trigger] sorted[k]).timestamp
            != stamp by {
            let m = choose|m: int| 0 <= m < front.len() && sorted[k] == front[m];
            assert(front[m] == list[m]);
            assert(list[m].timestamp != list[list.len() - 1].timestamp);
        }
        let after = newest_first(list);
        assert forall|i: int, j: int| 0 <= i < j < after.len() implies (
        #[trigger] after[i]).timestamp > (#[trigger] after[j]).timestamp by {
            if j < place {
                assert(after[i] == sorted[i] && after[j] == sorted[j]);
            } else if j == place {
                assert(after[i] == sorted[i]);
            } else if i < place {
                assert(after[i] == sorted[i] && after[j] == sorted[j - 1]);
                if place < j - 1 {
                    assert(sorted[place].timestamp > sorted[j - 1].timestamp);
                }
            } else if i == place {
                assert(after[j] == sorted[j - 1]);
                if place < j - 1 {
                    assert(sorted[place].timestamp > sorted[j - 1].timestamp);
                }
            } else {
                assert(after[i] == sorted[i - 1] && after[j] == sorted[j - 1]);
            }
        }
    }
}

/// A sweep over more backups than it keeps parts the listing in two: the
/// backups it keeps, exactly as many as asked, and the backups it deletes,
/// all the others. No backup that it keeps is older than one that it
/// deletes.
pub proof fn law_retention_keeps_newest(list: Seq<BackupMetadata>, keep: usize)
    requires
        list.len() > keep,
    ensures
        newest_first(list).take(keep as int).len() == keep,
        newest_first(list).skip(keep as int).len() == list.len() - keep,
        newest_first(list).take(keep as int) + newest_first(list).skip(keep as int)
            == newest_first(list),
        forall|i: int, j: int|
            0 <= i < keep && 0 <= j < list.len() - keep ==> (#[trigger] newest_first(list).take(
                keep as int,
            )[i]).timestamp >= (#[trigger] newest_first(list).skip(keep as int)[j]).timestamp,
{
    let listed = newest_first(list);
    law_listing_same_records(list);
    law_listing_ordered(list);
    assert(listed.take(keep as int) + listed.skip(keep as int) =~= listed);
    assert forall|i: int, j: int| 0 <= i < keep && 0 <= j < list.len() - keep implies (
    #[trigger] listed.take(keep as int)[i]).timestamp >= (#[trigger] listed.skip(
        keep as int,
    )[j]).timestamp by {
        assert(listed.take(keep as int)[i] == listed[i]);
        assert(listed.skip(keep as int)[j] == listed[keep + j]);
    }
}

/// Where no backup that a sweep keeps was made at the moment of one that
/// it deletes, every backup that it keeps is strictly newer than every
/// backup that it deletes.
pub proof fn law_retention_keeps_strictly_newest(list: Seq<BackupMetadata>, keep: usize)
    requires
        list.len() > keep,
        forall|i: int, j: int|
            0 <= i < keep && 0 <= j < list.len() - keep ==> (#[trigger] newest_first(list).take(
                keep as int,
            )[i]).timestamp != (#[trigger] newest_first(list).skip(keep as int)[j]).timestamp,
    ensures
        forall|i: int, j: int|
            0 <= i < keep && 0 <= j < list.len() - keep ==> (#[trigger] newest_first(list).take(
                keep as int,
            )[i]).timestamp > (#[trigger] newest_first(list).skip(keep as int)[j]).timestamp,
{
    law_retention_keeps_newest(list, keep);
}

/// The replies from `at` on answer the deletion of every record from place
/// `i` on with success: the backup exists and is removed.
pub open spec fn deletions_succeed(
    list: Seq<BackupMetadata>,
    i: int,
    replies: Seq<Reply>,
    at: int,
) -> bool
    decreases list.len() - i,
{
    if i < 0 || i >= list.len() {
        true
    } else {
        &&& 0 <= at
        &&& at + 2 < replies.len()
        &&& replies[at] == Reply::Flag(true)
        &&& replies[at + 1] matches Reply::Done(Ok(_))
        &&& replies[at + 2] is Done
        &&& deletions_succeed(list, i + 1, replies, at + 3)
    }
}

/// Where every deletion succeeds, a sweep from place `i` on deletes every
/// record from there on and counts each.
pub proof fn lemma_sweep_counts(
    list: Seq<BackupMetadata>,
    i: int,
    deleted: usize,
    replies: Seq<Reply>,
    at: int,
)
    requires
        0 <= i <= list.len(),
        deleted + (list.len() - i) <= usize::MAX,
        deletions_succeed(list, i, replies, at),
    ensures
        sweep_course(list, i, deleted, replies, at) == Course::Done(
            Ok::<usize, (ErrorKind, Seq<char>)>((deleted + (list.len() - i)) as usize),
            at + 3 * (list.len() - i),
        ),
    decreases list.len() - i,
{
    if i < list.len() {
        lemma_sweep_counts(list, i + 1, (deleted + 1) as usize, replies, at + 3);
    }
}

/// A retention sweep that keeps `keep` of `listed.len()` backups, more than
/// it keeps, and whose deletions all succeed returns the number of the
/// others.
pub proof fn law_retention_count(
    file_path: Seq<char>,
    keep: usize,
    replies: Seq<Reply>,
    at: int,
    listed: Seq<BackupMetadata>,
    next: int,
)
    requires
        records_course(file_path, replies, at) == Course::Done(
            Ok::<Seq<BackupMetadata>, (ErrorKind, Seq<char>)>(listed),
            next,
        ),
        keep < listed.len() <= usize::MAX,
        deletions_succeed(listed, keep as int, replies, next),
    ensures
        cleanup_course(file_path, keep, replies, at) == Course::Done(
            Ok::<usize, (ErrorKind, Seq<char>)>((listed.len() - keep) as usize),
            next + 3 * (listed.len() - keep),
        ),
{
    lemma_sweep_counts(listed, keep as int, 0, replies, next);
}

/// A sweep from place `i` on asks only after the backups from there on:
/// whether one exists, and for the removal of one or of its sidecar.
pub proof fn law_sweep_touches_only_the_old(
    list: Seq<BackupMetadata>,
    i: int,
    deleted: usize,
    replies: Seq<Reply>,
    at: int,
)
    requires
        0 <= i,
        sweep_course(list, i, deleted, replies, at) is Ask,
    ensures
        exists|j: int|
            i <= j < list.len() && ({
                let path = (#[trigger] list[j]).backup_path@;
                let asked = sweep_course(list, i, deleted, replies, at)->Ask_0;
                ||| asked == RequestView::Exists(path)
                ||| asked == RequestView::RemoveFile(path)
                ||| asked == RequestView::RemoveFile(sidecar_path_of(path))
            }),
    decreases list.len() - i,
{
    if i < list.len() {
        match delete_course(list[i].backup_path@, replies, at) {
            Course::Ask(request) => {
                let path = list[i].backup_path@;
                assert(request == RequestView::Exists(path) || request == RequestView::RemoveFile(
                    path,
                ) || request == RequestView::RemoveFile(sidecar_path_of(path)));
            },
            Course::Misfit => {},
            Course::Done(Ok(_), next) => {
                law_sweep_touches_only_the_old(
                    list,
                    i + 1,
                    (deleted + 1) as usize,
                    replies,
                    next,
                );
            },
            Course::Done(Err(_), next) => {
                law_sweep_touches_only_the_old(list, i + 1, deleted, replies, next);
            },
        }
    }
}

/// A restore copies in two ways only. It copies the present file to its
/// safety path, where that file exists. And it copies the backup onto the
/// file, which it does only where there was no file to save or where the
/// safety copy was made: no file is overwritten without recourse.
pub proof fn law_restore_saves_first(
    backup_path: Seq<char>,
    replies: Seq<Reply>,
    at: int,
    from: Seq<char>,
    to: Seq<char>,
)
    requires
        0 <= at,
        restore_course(backup_path, replies, at) == Course::<
            Result<Seq<char>, (ErrorKind, Seq<char>)>,
        >::Ask(RequestView::CopyFile(from, to)),
    ensures
        at + 3 < replies.len(),
        replies[at + 2] matches Reply::Record(Some(record)) && ({
            let restored = record.original_path@;
            ||| from == restored && to == safety_path_of(restored) && replies[at + 3]
                == Reply::Flag(true)
            ||| from == backup_path && to == restored && replies[at + 3] == Reply::Flag(false)
            ||| from == backup_path && to == restored && replies[at + 3] == Reply::Flag(true) && at
                + 4 < replies.len() && replies[at + 4] matches Reply::Done(Ok(_))
        }),
{
}

} // verus!
