//! The listing of a file's backups, the retention sweep over it, and what
//! the backups amount to.

use crate::backup::{
    delete_backup, delete_course, outcome_view, plain_failure, shown_pattern, sidecar_path,
    sidecar_path_of, BackupMetadata,
};
use crate::backup_laws::{is_newest_first, law_listing_ordered};
use crate::effects::{course_of, Course, DirEntry, Reply, Request, RequestView, Scan, Turn};
use crate::models::{ErrorKind, SyncError};
use crate::text::{contains, has_fragment, has_prefix, starts_with};
use vstd::prelude::*;

verus! {

/// Where a record made at `stamp` enters a list that is ordered newest
/// first: behind every record that is as new or newer.
pub open spec fn entry_position(sorted: Seq<BackupMetadata>, stamp: i64) -> int
    decreases sorted.len(),
{
    if sorted.len() == 0 {
        0
    } else if sorted[0].timestamp < stamp {
        0
    } else {
        1 + entry_position(sorted.drop_first(), stamp)
    }
}

/// The records ordered newest first. Records of the same moment keep the
/// order in which they came.
pub open spec fn newest_first(list: Seq<BackupMetadata>) -> Seq<BackupMetadata>
    decreases list.len(),
{
    if list.len() == 0 {
        Seq::empty()
    } else {
        let sorted = newest_first(list.drop_last());
        sorted.insert(entry_position(sorted, list.last().timestamp), list.last())
    }
}

/// Where a record enters: at the first place whose record is older.
pub proof fn lemma_entry_position(sorted: Seq<BackupMetadata>, stamp: i64, at: int)
    requires
        0 <= at <= sorted.len(),
        forall|j: int| 0 <= j < at ==> sorted[j].timestamp >= stamp,
        at < sorted.len() ==> sorted[at].timestamp < stamp,
    ensures
        entry_position(sorted, stamp) == at,
    decreases sorted.len(),
{
    if sorted.len() > 0 && at > 0 {
        let rest = sorted.drop_first();
        assert(sorted[0].timestamp >= stamp);
        assert forall|j: int| 0 <= j < at - 1 implies rest[j].timestamp >= stamp by {
            assert(rest[j] == sorted[j + 1]);
        }
        lemma_entry_position(rest, stamp, at - 1);
    }
}

/// Puts a record into a list that is ordered newest first.
pub fn insert_record(sorted: &mut Vec<BackupMetadata>, record: BackupMetadata)
    ensures
        final(sorted)@ == old(sorted)@.insert(
            entry_position(old(sorted)@, record.timestamp),
            record,
        ),
{
    let mut i: usize = 0;
    while i < sorted.len() && sorted[i].timestamp >= record.timestamp
        invariant
            i <= sorted.len(),
            forall|j: int| 0 <= j < i ==> sorted[j].timestamp >= record.timestamp,
        decreases sorted.len() - i,
    {
        i += 1;
    }
    proof {
        lemma_entry_position(sorted@, record.timestamp, i as int);
    }
    sorted.insert(i, record);
}

/// Whether a directory entry of this name is taken for a backup of the file
/// named `file_name`: the name begins with the file's name and holds the
/// backup marker.
pub open spec fn is_backup_name(name: Seq<char>, file_name: Seq<char>) -> bool {
    has_prefix(name, file_name) && has_fragment(name, ".backup."@)
}

/// The model of a result that is a list of records or a failure.
pub open spec fn records_view(outcome: Result<Vec<BackupMetadata>, SyncError>) -> Result<
    Seq<BackupMetadata>,
    (ErrorKind, Seq<char>),
> {
    match outcome {
        Ok(list) => Ok(list@),
        Err(error) => Err(error@),
    }
}

/// The course of reading the sidecars of the entries from `k` on, `found`
/// being the records read so far.
///
/// An entry that is no backup by its name is passed over. For each other
/// one the sidecar is read and decoded; where either fails, the entry is
/// passed over silently. At the end the records are ordered newest first.
pub open spec fn gather_course(
    entries: Seq<DirEntry>,
    file_name: Seq<char>,
    k: int,
    found: Seq<BackupMetadata>,
    replies: Seq<Reply>,
    at: int,
) -> Course<Result<Seq<BackupMetadata>, (ErrorKind, Seq<char>)>>
    decreases entries.len() - k,
{
    if k < 0 || k >= entries.len() {
        Course::Done(Ok(newest_first(found)), at)
    } else if !is_backup_name(entries[k].name@, file_name) {
        gather_course(entries, file_name, k + 1, found, replies, at)
    } else if at >= replies.len() {
        Course::Ask(RequestView::ReadText(sidecar_path_of(entries[k].path@)))
    } else {
        match replies[at] {
            Reply::Content(Err(_)) => gather_course(entries, file_name, k + 1, found, replies, at + 1),
            Reply::Content(Ok(text)) => if at + 1 >= replies.len() {
                Course::Ask(RequestView::Decode(text@))
            } else {
                match replies[at + 1] {
                    Reply::Record(None) => gather_course(
                        entries,
                        file_name,
                        k + 1,
                        found,
                        replies,
                        at + 2,
                    ),
                    Reply::Record(Some(record)) => gather_course(
                        entries,
                        file_name,
                        k + 1,
                        found.push(record),
                        replies,
                        at + 2,
                    ),
                    _ => Course::Misfit,
                }
            },
            _ => Course::Misfit,
        }
    }
}

/// The course of reading the records of a file's backups, from the reply
/// at `at` on.
///
/// It asks for the entries of the file's directory and fails with `IoError`
/// where the path has no parent or no file name. Else it gathers the
/// records of the entries that are backups of the file.
pub open spec fn records_course(file_path: Seq<char>, replies: Seq<Reply>, at: int) -> Course<
    Result<Seq<BackupMetadata>, (ErrorKind, Seq<char>)>,
> {
    if at >= replies.len() {
        Course::Ask(RequestView::Siblings(file_path))
    } else {
        match replies[at] {
            Reply::Listing(Scan::NoParent) => Course::Done(
                Err((ErrorKind::IoError, "无效的文件路径"@)),
                at + 1,
            ),
            Reply::Listing(Scan::NoFileName) => Course::Done(
                Err((ErrorKind::IoError, "无效的文件名"@)),
                at + 1,
            ),
            Reply::Listing(Scan::Entries(file_name, entries)) => gather_course(
                entries@,
                file_name@,
                0,
                Seq::empty(),
                replies,
                at + 1,
            ),
            _ => Course::Misfit,
        }
    }
}

/// Reads the records of the backups of the file at `file_path`, reading
/// the replies from position `at` on. No record of the result stands
/// before a newer one.
pub fn list_records(file_path: &str, replies: &Vec<Reply>, at: usize) -> (r: Turn<
    Result<Vec<BackupMetadata>, SyncError>,
>)
    ensures
        course_of(r, |o: Result<Vec<BackupMetadata>, SyncError>| records_view(o)) == records_course(
            file_path@,
            replies@,
            at as int,
        ),
        r matches Turn::Done(Ok(list), _) ==> is_newest_first(list@),
{
    if at >= replies.len() {
        return Turn::Ask(Request::Siblings(String::from_str(file_path)));
    }
    let (file_name, entries) = match &replies[at] {
        Reply::Listing(Scan::NoParent) => {
            return Turn::Done(Err(plain_failure(ErrorKind::IoError, "无效的文件路径")), at + 1);
        },
        Reply::Listing(Scan::NoFileName) => {
            return Turn::Done(Err(plain_failure(ErrorKind::IoError, "无效的文件名")), at + 1);
        },
        Reply::Listing(Scan::Entries(file_name, entries)) => (file_name, entries),
        _ => {
            return Turn::Misfit;
        },
    };
    let mut sorted: Vec<BackupMetadata> = Vec::new();
    let ghost mut found: Seq<BackupMetadata> = Seq::empty();
    let mut next: usize = at + 1;
    let mut k: usize = 0;
    while k < entries.len()
        invariant
            k <= entries.len(),
            next <= replies.len(),
            sorted@ == newest_first(found),
            gather_course(entries@, file_name@, k as int, found, replies@, next as int)
                == records_course(file_path@, replies@, at as int),
        decreases entries.len() - k,
    {
        let name = entries[k].name.as_str();
        if starts_with(name, file_name.as_str()) && contains(name, ".backup.") {
            if next >= replies.len() {
                return Turn::Ask(Request::ReadText(sidecar_path(entries[k].path.as_str())));
            }
            match &replies[next] {
                Reply::Content(Err(_)) => {
                    next = next + 1;
                },
                Reply::Content(Ok(text)) => {
                    if next + 1 >= replies.len() {
                        return Turn::Ask(Request::Decode(text.clone()));
                    }
                    match &replies[next + 1] {
                        Reply::Record(None) => {},
                        Reply::Record(Some(record)) => {
                            proof {
                                assert(found.push(*record).drop_last() =~= found);
                                found = found.push(*record);
                            }
                            insert_record(&mut sorted, record.duplicate());
                        },
                        _ => {
                            return Turn::Misfit;
                        },
                    }
                    next = next + 2;
                },
                _ => {
                    return Turn::Misfit;
                },
            }
        }
        k += 1;
    }
    proof {
        law_listing_ordered(found);
    }
    Turn::Done(Ok(sorted), next)
}

/// The course of deleting the records of `list` from position `i` on,
/// `deleted` of the earlier ones having been deleted.
///
/// Each record's backup is deleted in turn. A deletion that fails is passed
/// over: it is not counted and it stops nothing.
pub open spec fn sweep_course(
    list: Seq<BackupMetadata>,
    i: int,
    deleted: usize,
    replies: Seq<Reply>,
    at: int,
) -> Course<Result<usize, (ErrorKind, Seq<char>)>>
    decreases list.len() - i,
{
    if i < 0 || i >= list.len() {
        Course::Done(Ok(deleted), at)
    } else {
        match delete_course(list[i].backup_path@, replies, at) {
            Course::Ask(request) => Course::Ask(request),
            Course::Misfit => Course::Misfit,
            Course::Done(Ok(_), next) => sweep_course(
                list,
                i + 1,
                (deleted + 1) as usize,
                replies,
                next,
            ),
            Course::Done(Err(_), next) => sweep_course(list, i + 1, deleted, replies, next),
        }
    }
}

/// The course of the retention sweep, from the reply at `at` on.
///
/// It reads the records of the file's backups, newest first, and deletes
/// every backup behind the first `keep_count`. The result is the number of backups that
/// were deleted. A listing that fails ends the sweep with that failure.
pub open spec fn cleanup_course(
    file_path: Seq<char>,
    keep_count: usize,
    replies: Seq<Reply>,
    at: int,
) -> Course<Result<usize, (ErrorKind, Seq<char>)>> {
    match records_course(file_path, replies, at) {
        Course::Ask(request) => Course::Ask(request),
        Course::Misfit => Course::Misfit,
        Course::Done(Err(error), next) => Course::Done(Err(error), next),
        Course::Done(Ok(list), next) => sweep_course(list, keep_count as int, 0, replies, next),
    }
}

/// Deletes all but the `keep_count` newest backups of the file at
/// `file_path`, reading the replies from position `at` on. The result is
/// the number of backups that were deleted.
pub fn cleanup_old_backups(
    file_path: &str,
    keep_count: usize,
    replies: &Vec<Reply>,
    at: usize,
) -> (r: Turn<Result<usize, SyncError>>)
    ensures
        course_of(r, |o: Result<usize, SyncError>| outcome_view(o)) == cleanup_course(
            file_path@,
            keep_count,
            replies@,
            at as int,
        ),
{
    let (list, start) = match list_records(file_path, replies, at) {
        Turn::Ask(request) => {
            return Turn::Ask(request);
        },
        Turn::Misfit => {
            return Turn::Misfit;
        },
        Turn::Done(Err(error), next) => {
            return Turn::Done(Err(error), next);
        },
        Turn::Done(Ok(list), next) => (list, next),
    };
    let mut next: usize = start;
    let mut deleted: usize = 0;
    let mut i: usize = keep_count;
    while i < list.len()
        invariant
            keep_count <= i,
            deleted <= i - keep_count,
            sweep_course(list@, i as int, deleted, replies@, next as int) == cleanup_course(
                file_path@,
                keep_count,
                replies@,
                at as int,
            ),
        decreases list.len() - i,
    {
        match delete_backup(list[i].backup_path.as_str(), replies, next) {
            Turn::Ask(request) => {
                return Turn::Ask(request);
            },
            Turn::Misfit => {
                return Turn::Misfit;
            },
            Turn::Done(Ok(_), after) => {
                deleted = deleted + 1;
                next = after;
            },
            Turn::Done(Err(_), after) => {
                next = after;
            },
        }
        i += 1;
    }
    Turn::Done(Ok(deleted), next)
}

/// A backup as a listing shows it: its record, and its moment written for
/// a reader.
#[derive(Clone, Debug)]
pub struct BackupInfo {
    pub metadata: BackupMetadata,
    pub formatted_time: String,
}

/// The mathematical content of a [`BackupInfo`].
pub struct BackupInfoView {
    pub metadata: BackupMetadata,
    pub formatted_time: Seq<char>,
}

impl View for BackupInfo {
    type V = BackupInfoView;

    open spec fn view(&self) -> BackupInfoView {
        BackupInfoView { metadata: self.metadata, formatted_time: self.formatted_time@ }
    }
}

/// The models of a list of backups, one by one.
pub open spec fn infos_view(infos: Seq<BackupInfo>) -> Seq<BackupInfoView> {
    infos.map_values(|info: BackupInfo| info@)
}

/// The records of a list of backups, one by one.
pub open spec fn records_of(infos: Seq<BackupInfoView>) -> Seq<BackupMetadata> {
    infos.map_values(|info: BackupInfoView| info.metadata)
}

/// The model of a listing: the backups, or a failure.
pub open spec fn listing_view(outcome: Result<Vec<BackupInfo>, SyncError>) -> Result<
    Seq<BackupInfoView>,
    (ErrorKind, Seq<char>),
> {
    match outcome {
        Ok(infos) => Ok(infos_view(infos@)),
        Err(error) => Err(error@),
    }
}

/// The course of writing the moments of the records from place `i` on for
/// a reader, `infos` being the backups described so far.
///
/// For each record it asks for the local time of its moment. Where that
/// moment cannot be written, the epoch is written in its place; where not
/// even that can be, the text stays empty.
pub open spec fn describe_course(
    records: Seq<BackupMetadata>,
    i: int,
    infos: Seq<BackupInfoView>,
    replies: Seq<Reply>,
    at: int,
) -> Course<Result<Seq<BackupInfoView>, (ErrorKind, Seq<char>)>>
    decreases records.len() - i,
{
    if i < 0 || i >= records.len() {
        Course::Done(Ok(infos), at)
    } else if at >= replies.len() {
        Course::Ask(RequestView::LocalTime(records[i].timestamp, shown_pattern()))
    } else {
        match replies[at] {
            Reply::Text(Ok(text)) => describe_course(
                records,
                i + 1,
                infos.push(BackupInfoView { metadata: records[i], formatted_time: text@ }),
                replies,
                at + 1,
            ),
            Reply::Text(Err(_)) => if at + 1 >= replies.len() {
                Course::Ask(RequestView::LocalTime(0, shown_pattern()))
            } else {
                match replies[at + 1] {
                    Reply::Text(Ok(text)) => describe_course(
                        records,
                        i + 1,
                        infos.push(BackupInfoView { metadata: records[i], formatted_time: text@ }),
                        replies,
                        at + 2,
                    ),
                    Reply::Text(Err(_)) => describe_course(
                        records,
                        i + 1,
                        infos.push(
                            BackupInfoView { metadata: records[i], formatted_time: Seq::empty() },
                        ),
                        replies,
                        at + 2,
                    ),
                    _ => Course::Misfit,
                }
            },
            _ => Course::Misfit,
        }
    }
}

/// The course of listing the backups of a file, from the reply at `at` on:
/// their records are read and ordered newest first, and then the moment of
/// each is written for a reader.
pub open spec fn list_course(file_path: Seq<char>, replies: Seq<Reply>, at: int) -> Course<
    Result<Seq<BackupInfoView>, (ErrorKind, Seq<char>)>,
> {
    match records_course(file_path, replies, at) {
        Course::Ask(request) => Course::Ask(request),
        Course::Misfit => Course::Misfit,
        Course::Done(Err(error), next) => Course::Done(Err(error), next),
        Course::Done(Ok(records), next) => describe_course(records, 0, Seq::empty(), replies, next),
    }
}

/// Lists the backups of the file at `file_path`, reading the replies from
/// position `at` on. No backup of the result stands before a newer one.
pub fn list_backups(file_path: &str, replies: &Vec<Reply>, at: usize) -> (r: Turn<
    Result<Vec<BackupInfo>, SyncError>,
>)
    ensures
        course_of(r, |o: Result<Vec<BackupInfo>, SyncError>| listing_view(o)) == list_course(
            file_path@,
            replies@,
            at as int,
        ),
        r matches Turn::Done(Ok(list), _) ==> is_newest_first(records_of(infos_view(list@))),
{
    let (records, start) = match list_records(file_path, replies, at) {
        Turn::Ask(request) => {
            return Turn::Ask(request);
        },
        Turn::Misfit => {
            return Turn::Misfit;
        },
        Turn::Done(Err(error), next) => {
            return Turn::Done(Err(error), next);
        },
        Turn::Done(Ok(records), next) => (records, next),
    };
    let mut infos: Vec<BackupInfo> = Vec::new();
    let mut next: usize = start;
    let mut i: usize = 0;
    assert(infos_view(infos@) =~= Seq::<BackupInfoView>::empty());
    assert(records_of(infos_view(infos@)) =~= records@.take(0));
    while i < records.len()
        invariant
            i <= records.len(),
            is_newest_first(records@),
            infos.len() == i,
            records_of(infos_view(infos@)) == records@.take(i as int),
            describe_course(records@, i as int, infos_view(infos@), replies@, next as int)
                == list_course(file_path@, replies@, at as int),
        decreases records.len() - i,
    {
        if next >= replies.len() {
            return Turn::Ask(
                Request::LocalTime(records[i].timestamp, String::from_str("%Y-%m-%d %H:%M:%S")),
            );
        }
        let formatted_time = match &replies[next] {
            Reply::Text(Ok(text)) => {
                next = next + 1;
                text.clone()
            },
            Reply::Text(Err(_)) => {
                if next + 1 >= replies.len() {
                    return Turn::Ask(
                        Request::LocalTime(0, String::from_str("%Y-%m-%d %H:%M:%S")),
                    );
                }
                match &replies[next + 1] {
                    Reply::Text(Ok(text)) => {
                        next = next + 2;
                        text.clone()
                    },
                    Reply::Text(Err(_)) => {
                        next = next + 2;
                        String::new()
                    },
                    _ => {
                        return Turn::Misfit;
                    },
                }
            },
            _ => {
                return Turn::Misfit;
            },
        };
        let info = BackupInfo { metadata: records[i].duplicate(), formatted_time };
        assert(infos_view(infos@.push(info)) =~= infos_view(infos@).push(info@));
        assert(records_of(infos_view(infos@).push(info@)) =~= records@.take(i + 1)) by {
            let models = infos_view(infos@);
            let before = records_of(models);
            let after = records_of(models.push(info@));
            assert(models.len() == i);
            assert(after.len() == i + 1);
            assert forall|j: int| 0 <= j < i + 1 implies after[j] == records@.take(i + 1)[j] by {
                if j < i {
                    assert(models.push(info@)[j] == models[j]);
                    assert(before[j] == models[j].metadata);
                    assert(before[j] == records@.take(i as int)[j]);
                } else {
                    assert(models.push(info@)[j] == info@);
                }
            }
        }
        infos.push(info);
        i += 1;
    }
    assert(records@.take(records.len() as int) =~= records@);
    Turn::Done(Ok(infos), next)
}

/// What a file's backups amount to: how many there are, how many bytes
/// they hold together, and when the oldest and the newest were made.
#[derive(Clone, Debug)]
pub struct BackupStats {
    pub total_count: usize,
    pub total_size: u128,
    pub oldest_backup: Option<String>,
    pub newest_backup: Option<String>,
}

/// The mathematical content of a [`BackupStats`].
pub struct BackupStatsView {
    pub total_count: usize,
    pub total_size: u128,
    pub oldest_backup: Option<Seq<char>>,
    pub newest_backup: Option<Seq<char>>,
}

impl View for BackupStats {
    type V = BackupStatsView;

    open spec fn view(&self) -> BackupStatsView {
        BackupStatsView {
            total_count: self.total_count,
            total_size: self.total_size,
            oldest_backup: match self.oldest_backup {
                Some(text) => Some(text@),
                None => None,
            },
            newest_backup: match self.newest_backup {
                Some(text) => Some(text@),
                None => None,
            },
        }
    }
}

/// The bytes that the backups of a list hold together.
pub open spec fn total_size_of(list: Seq<BackupInfoView>) -> nat
    decreases list.len(),
{
    if list.len() == 0 {
        0
    } else {
        total_size_of(list.drop_last()) + list.last().metadata.file_size as nat
    }
}

/// What the backups of a listing amount to. The listing is ordered newest
/// first: its first backup is the newest, its last the oldest.
pub open spec fn stats_of(list: Seq<BackupInfoView>) -> BackupStatsView {
    BackupStatsView {
        total_count: list.len() as usize,
        total_size: total_size_of(list) as u128,
        oldest_backup: if list.len() > 0 {
            Some(list.last().formatted_time)
        } else {
            None
        },
        newest_backup: if list.len() > 0 {
            Some(list[0].formatted_time)
        } else {
            None
        },
    }
}

/// The backups of a list hold no more bytes than so many times the largest
/// size that a record can state.
pub proof fn lemma_total_size_bound(list: Seq<BackupInfoView>)
    ensures
        total_size_of(list) <= list.len() * 0xffff_ffff_ffff_ffff,
    decreases list.len(),
{
    if list.len() > 0 {
        lemma_total_size_bound(list.drop_last());
        assert((list.len() - 1) * 0xffff_ffff_ffff_ffff + 0xffff_ffff_ffff_ffff == list.len()
            * 0xffff_ffff_ffff_ffff) by (nonlinear_arith);
    }
}

/// What the backups of a listing amount to.
pub fn summarize(list: &Vec<BackupInfo>) -> (r: BackupStats)
    ensures
        r@ == stats_of(infos_view(list@)),
{
    let ghost models = infos_view(list@);
    let mut total: u128 = 0;
    let mut i: usize = 0;
    while i < list.len()
        invariant
            i <= list.len(),
            models == infos_view(list@),
            total == total_size_of(models.take(i as int)),
        decreases list.len() - i,
    {
        proof {
            let longer = models.take(i + 1);
            assert(longer.drop_last() =~= models.take(i as int));
            assert(longer.last() == list[i as int]@);
            lemma_total_size_bound(longer);
            assert(longer.len() * 0xffff_ffff_ffff_ffff <= 0xffff_ffff_ffff_ffff
                * 0xffff_ffff_ffff_ffff) by (nonlinear_arith)
                requires
                    longer.len() <= 0xffff_ffff_ffff_ffff,
            ;
        }
        total = total + list[i].metadata.file_size as u128;
        i += 1;
    }
    proof {
        assert(models.take(list.len() as int) =~= models);
    }
    BackupStats {
        total_count: list.len(),
        total_size: total,
        oldest_backup: if list.len() > 0 {
            Some(list[list.len() - 1].formatted_time.clone())
        } else {
            None
        },
        newest_backup: if list.len() > 0 {
            Some(list[0].formatted_time.clone())
        } else {
            None
        },
    }
}

/// The course of taking stock of a file's backups, from the reply at `at`
/// on: the listing, and then what it amounts to.
pub open spec fn stats_course(file_path: Seq<char>, replies: Seq<Reply>, at: int) -> Course<
    Result<BackupStatsView, (ErrorKind, Seq<char>)>,
> {
    match list_course(file_path, replies, at) {
        Course::Ask(request) => Course::Ask(request),
        Course::Misfit => Course::Misfit,
        Course::Done(Err(error), next) => Course::Done(Err(error), next),
        Course::Done(Ok(list), next) => Course::Done(Ok(stats_of(list)), next),
    }
}

/// Takes stock of the backups of the file at `file_path`, reading the
/// replies from position `at` on.
pub fn get_backup_stats(file_path: &str, replies: &Vec<Reply>, at: usize) -> (r: Turn<
    Result<BackupStats, SyncError>,
>)
    ensures
        course_of(r, |o: Result<BackupStats, SyncError>| outcome_view(o)) == stats_course(
            file_path@,
            replies@,
            at as int,
        ),
{
    match list_backups(file_path, replies, at) {
        Turn::Ask(request) => Turn::Ask(request),
        Turn::Misfit => Turn::Misfit,
        Turn::Done(Err(error), next) => Turn::Done(Err(error), next),
        Turn::Done(Ok(list), next) => Turn::Done(Ok(summarize(&list)), next),
    }
}

} // verus!
