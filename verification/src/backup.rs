//! The backup manager: timestamped backups with a sidecar each, their
//! restoring and deleting. Their listing and the retention sweep are at
//! hand here too.

use crate::effects::{course_of, Course, Reply, Request, RequestView, Turn};
use crate::models::{ErrorKind, SyncError};
use crate::text::{join2, join3};
use vstd::prelude::*;

pub use crate::listing::{
    cleanup_old_backups, get_backup_stats, list_backups, BackupInfo, BackupStats,
};

verus! {

/// What belongs to one backup: where it lies, what it is a backup of, when
/// it was made, between which installations, of which category, how large.
#[derive(Clone, Debug)]
pub struct BackupMetadata {
    pub backup_path: String,
    pub original_path: String,
    pub timestamp: i64,
    pub source_ide: String,
    pub target_ide: String,
    pub file_type: String,
    pub file_size: u64,
}

/// The mathematical content of a [`BackupMetadata`].
pub struct BackupMetadataView {
    pub backup_path: Seq<char>,
    pub original_path: Seq<char>,
    pub timestamp: i64,
    pub source_ide: Seq<char>,
    pub target_ide: Seq<char>,
    pub file_type: Seq<char>,
    pub file_size: u64,
}

impl View for BackupMetadata {
    type V = BackupMetadataView;

    open spec fn view(&self) -> BackupMetadataView {
        BackupMetadataView {
            backup_path: self.backup_path@,
            original_path: self.original_path@,
            timestamp: self.timestamp,
            source_ide: self.source_ide@,
            target_ide: self.target_ide@,
            file_type: self.file_type@,
            file_size: self.file_size,
        }
    }
}

impl BackupMetadata {
    /// A copy of this record.
    pub fn duplicate(&self) -> (r: BackupMetadata)
        ensures
            r == *self,
    {
        BackupMetadata {
            backup_path: self.backup_path.clone(),
            original_path: self.original_path.clone(),
            timestamp: self.timestamp,
            source_ide: self.source_ide.clone(),
            target_ide: self.target_ide.clone(),
            file_type: self.file_type.clone(),
            file_size: self.file_size,
        }
    }
}

/// The model of a result that is a value or a failure.
pub open spec fn outcome_view<T: View>(outcome: Result<T, SyncError>) -> Result<
    T::V,
    (ErrorKind, Seq<char>),
> {
    match outcome {
        Ok(value) => Ok(value@),
        Err(error) => Err(error@),
    }
}

/// A failure of the given kind whose message is `lead` and then `detail`.
pub fn failure(kind: ErrorKind, lead: &str, detail: &str) -> (r: SyncError)
    ensures
        r@ == (kind, lead@ + detail@),
{
    SyncError { kind, message: join2(lead, detail) }
}

/// A failure of the given kind with the given message.
pub fn plain_failure(kind: ErrorKind, message: &str) -> (r: SyncError)
    ensures
        r@ == (kind, message@),
{
    SyncError { kind, message: String::from_str(message) }
}

/// The pattern after which the moment of a backup is written into its
/// name: year, month, day, a hyphen, hour, minute and second, in digits.
/// Such names sort by their moment.
pub open spec fn stamp_pattern() -> Seq<char> {
    "%Y%m%d-%H%M%S"@
}

/// The pattern after which a moment is written for a reader.
pub open spec fn shown_pattern() -> Seq<char> {
    "%Y-%m-%d %H:%M:%S"@
}

/// The path of the backup that is made of `file_path` at the moment
/// `stamp`.
pub open spec fn backup_path_of(file_path: Seq<char>, stamp: Seq<char>) -> Seq<char> {
    file_path + ".backup."@ + stamp
}

/// The path of the sidecar of the backup at `backup_path`.
pub open spec fn sidecar_path_of(backup_path: Seq<char>) -> Seq<char> {
    backup_path + ".meta.json"@
}

/// The path of the sidecar of the backup at `backup_path`.
pub fn sidecar_path(backup_path: &str) -> (r: String)
    ensures
        r@ == sidecar_path_of(backup_path@),
{
    join2(backup_path, ".meta.json")
}

/// The course of making a backup, from the reply at `at` on.
///
/// It asks whether the file exists and fails with `NotFound` where it does
/// not. Else it asks for the moment, written after the pattern of backup
/// names, copies the file to the backup's path,
/// asks for the copy's size (zero where it cannot be had), has the record
/// encoded and writes the sidecar. A copy, an encoding or a write that
/// fails ends it with `IoError`.
pub open spec fn backup_course(
    file_path: Seq<char>,
    source_ide: Seq<char>,
    target_ide: Seq<char>,
    file_type: Seq<char>,
    replies: Seq<Reply>,
    at: int,
) -> Course<Result<BackupMetadataView, (ErrorKind, Seq<char>)>> {
    if at >= replies.len() {
        Course::Ask(RequestView::Exists(file_path))
    } else {
        match replies[at] {
            Reply::Flag(false) => Course::Done(
                Err((ErrorKind::NotFound, "文件不存在: "@ + file_path)),
                at + 1,
            ),
            Reply::Flag(true) => if at + 1 >= replies.len() {
                Course::Ask(RequestView::Clock(stamp_pattern()))
            } else {
                match replies[at + 1] {
                    Reply::Time(epoch, stamp) => backup_copy_course(
                        BackupMetadataView {
                            backup_path: backup_path_of(file_path, stamp@),
                            original_path: file_path,
                            timestamp: epoch,
                            source_ide,
                            target_ide,
                            file_type,
                            file_size: 0,
                        },
                        replies,
                        at + 2,
                    ),
                    _ => Course::Misfit,
                }
            },
            _ => Course::Misfit,
        }
    }
}

/// The course of a backup once its path is known: the copy, the size, the
/// encoding and the sidecar.
pub open spec fn backup_copy_course(
    draft: BackupMetadataView,
    replies: Seq<Reply>,
    at: int,
) -> Course<Result<BackupMetadataView, (ErrorKind, Seq<char>)>> {
    if at >= replies.len() {
        Course::Ask(RequestView::CopyFile(draft.original_path, draft.backup_path))
    } else {
        match replies[at] {
            Reply::Done(Err(why)) => Course::Done(
                Err((ErrorKind::IoError, "备份失败: "@ + why@)),
                at + 1,
            ),
            Reply::Done(Ok(_)) => if at + 1 >= replies.len() {
                Course::Ask(RequestView::FileSize(draft.backup_path))
            } else {
                match replies[at + 1] {
                    Reply::Size(size) => backup_sidecar_course(
                        BackupMetadataView {
                            file_size: match size {
                                Some(bytes) => bytes,
                                None => 0,
                            },
                            ..draft
                        },
                        replies,
                        at + 2,
                    ),
                    _ => Course::Misfit,
                }
            },
            _ => Course::Misfit,
        }
    }
}

/// The course of a backup once its record is complete: the encoding and
/// the sidecar.
pub open spec fn backup_sidecar_course(
    record: BackupMetadataView,
    replies: Seq<Reply>,
    at: int,
) -> Course<Result<BackupMetadataView, (ErrorKind, Seq<char>)>> {
    if at >= replies.len() {
        Course::Ask(RequestView::Encode(record))
    } else {
        match replies[at] {
            Reply::Text(Err(why)) => Course::Done(
                Err((ErrorKind::IoError, "序列化元数据失败: "@ + why@)),
                at + 1,
            ),
            Reply::Text(Ok(text)) => if at + 1 >= replies.len() {
                Course::Ask(RequestView::WriteText(sidecar_path_of(record.backup_path), text@))
            } else {
                match replies[at + 1] {
                    Reply::Done(Err(why)) => Course::Done(
                        Err((ErrorKind::IoError, "保存元数据失败: "@ + why@)),
                        at + 2,
                    ),
                    Reply::Done(Ok(_)) => Course::Done(Ok(record), at + 2),
                    _ => Course::Misfit,
                }
            },
            _ => Course::Misfit,
        }
    }
}

/// Makes a backup of the file at `file_path`, with its sidecar, reading the
/// replies from position `at` on.
pub fn create_timestamped_backup(
    file_path: &str,
    source_ide: &str,
    target_ide: &str,
    file_type: &str,
    replies: &Vec<Reply>,
    at: usize,
) -> (r: Turn<Result<BackupMetadata, SyncError>>)
    ensures
        course_of(r, |o: Result<BackupMetadata, SyncError>| outcome_view(o)) == backup_course(
            file_path@,
            source_ide@,
            target_ide@,
            file_type@,
            replies@,
            at as int,
        ),
{
    if at >= replies.len() {
        return Turn::Ask(Request::Exists(String::from_str(file_path)));
    }
    match &replies[at] {
        Reply::Flag(found) => {
            if !*found {
                return Turn::Done(
                    Err(failure(ErrorKind::NotFound, "文件不存在: ", file_path)),
                    at + 1,
                );
            }
        },
        _ => {
            return Turn::Misfit;
        },
    }
    if at + 1 >= replies.len() {
        return Turn::Ask(Request::Clock(String::from_str("%Y%m%d-%H%M%S")));
    }
    let mut record = match &replies[at + 1] {
        Reply::Time(epoch, stamp) => BackupMetadata {
            backup_path: join3(file_path, ".backup.", stamp.as_str()),
            original_path: String::from_str(file_path),
            timestamp: *epoch,
            source_ide: String::from_str(source_ide),
            target_ide: String::from_str(target_ide),
            file_type: String::from_str(file_type),
            file_size: 0,
        },
        _ => {
            return Turn::Misfit;
        },
    };
    if at + 2 >= replies.len() {
        return Turn::Ask(Request::CopyFile(record.original_path, record.backup_path));
    }
    match &replies[at + 2] {
        Reply::Done(Err(why)) => {
            return Turn::Done(Err(failure(ErrorKind::IoError, "备份失败: ", why.as_str())), at + 3);
        },
        Reply::Done(Ok(_)) => {},
        _ => {
            return Turn::Misfit;
        },
    }
    if at + 3 >= replies.len() {
        return Turn::Ask(Request::FileSize(record.backup_path));
    }
    match &replies[at + 3] {
        Reply::Size(Some(bytes)) => {
            record.file_size = *bytes;
        },
        Reply::Size(None) => {},
        _ => {
            return Turn::Misfit;
        },
    }
    if at + 4 >= replies.len() {
        return Turn::Ask(Request::Encode(record));
    }
    let text = match &replies[at + 4] {
        Reply::Text(Err(why)) => {
            return Turn::Done(
                Err(failure(ErrorKind::IoError, "序列化元数据失败: ", why.as_str())),
                at + 5,
            );
        },
        Reply::Text(Ok(text)) => text,
        _ => {
            return Turn::Misfit;
        },
    };
    if at + 5 >= replies.len() {
        return Turn::Ask(
            Request::WriteText(sidecar_path(record.backup_path.as_str()), text.clone()),
        );
    }
    match &replies[at + 5] {
        Reply::Done(Err(why)) => Turn::Done(
            Err(failure(ErrorKind::IoError, "保存元数据失败: ", why.as_str())),
            at + 6,
        ),
        Reply::Done(Ok(_)) => Turn::Done(Ok(record), at + 6),
        _ => Turn::Misfit,
    }
}

/// The course of deleting a backup, from the reply at `at` on.
///
/// It asks whether the backup exists and fails with `NotFound` where it
/// does not. Else it removes the backup, failing with `IoError` where that
/// fails, and then the sidecar, whose removal may fail.
pub open spec fn delete_course(backup_path: Seq<char>, replies: Seq<Reply>, at: int) -> Course<
    Result<(), (ErrorKind, Seq<char>)>,
> {
    if at >= replies.len() {
        Course::Ask(RequestView::Exists(backup_path))
    } else {
        match replies[at] {
            Reply::Flag(false) => Course::Done(
                Err((ErrorKind::NotFound, "备份文件不存在"@)),
                at + 1,
            ),
            Reply::Flag(true) => if at + 1 >= replies.len() {
                Course::Ask(RequestView::RemoveFile(backup_path))
            } else {
                match replies[at + 1] {
                    Reply::Done(Err(why)) => Course::Done(
                        Err((ErrorKind::IoError, "删除备份文件失败: "@ + why@)),
                        at + 2,
                    ),
                    Reply::Done(Ok(_)) => if at + 2 >= replies.len() {
                        Course::Ask(RequestView::RemoveFile(sidecar_path_of(backup_path)))
                    } else {
                        match replies[at + 2] {
                            Reply::Done(_) => Course::Done(Ok(()), at + 3),
                            _ => Course::Misfit,
                        }
                    },
                    _ => Course::Misfit,
                }
            },
            _ => Course::Misfit,
        }
    }
}

/// Deletes the backup at `backup_path` and its sidecar, reading the replies
/// from position `at` on.
pub fn delete_backup(backup_path: &str, replies: &Vec<Reply>, at: usize) -> (r: Turn<
    Result<(), SyncError>,
>)
    ensures
        course_of(r, |o: Result<(), SyncError>| outcome_view(o)) == delete_course(
            backup_path@,
            replies@,
            at as int,
        ),
{
    if at >= replies.len() {
        return Turn::Ask(Request::Exists(String::from_str(backup_path)));
    }
    match &replies[at] {
        Reply::Flag(found) => {
            if !*found {
                return Turn::Done(Err(plain_failure(ErrorKind::NotFound, "备份文件不存在")), at + 1);
            }
        },
        _ => {
            return Turn::Misfit;
        },
    }
    if at + 1 >= replies.len() {
        return Turn::Ask(Request::RemoveFile(String::from_str(backup_path)));
    }
    match &replies[at + 1] {
        Reply::Done(Err(why)) => {
            return Turn::Done(
                Err(failure(ErrorKind::IoError, "删除备份文件失败: ", why.as_str())),
                at + 2,
            );
        },
        Reply::Done(Ok(_)) => {},
        _ => {
            return Turn::Misfit;
        },
    }
    if at + 2 >= replies.len() {
        return Turn::Ask(Request::RemoveFile(sidecar_path(backup_path)));
    }
    match &replies[at + 2] {
        Reply::Done(_) => Turn::Done(Ok(()), at + 3),
        _ => Turn::Misfit,
    }
}

/// The path of the safety copy that a restore makes of the file at
/// `original_path`.
pub open spec fn safety_path_of(original_path: Seq<char>) -> Seq<char> {
    original_path + ".before-restore"@
}

/// The course of restoring a backup, from the reply at `at` on.
///
/// It fails with `NotFound` where the backup or its sidecar is missing and
/// with `ParseError` where the sidecar holds no record. Where the file that
/// the backup was made of exists, it is copied to its safety path first,
/// and a failure of that copy ends the restore with `IoError`. Then the
/// backup is copied onto that file's path; the result is that path.
pub open spec fn restore_course(backup_path: Seq<char>, replies: Seq<Reply>, at: int) -> Course<
    Result<Seq<char>, (ErrorKind, Seq<char>)>,
> {
    if at >= replies.len() {
        Course::Ask(RequestView::Exists(backup_path))
    } else {
        match replies[at] {
            Reply::Flag(false) => Course::Done(
                Err((ErrorKind::NotFound, "备份文件不存在"@)),
                at + 1,
            ),
            Reply::Flag(true) => if at + 1 >= replies.len() {
                Course::Ask(RequestView::ReadText(sidecar_path_of(backup_path)))
            } else {
                match replies[at + 1] {
                    Reply::Content(Err(_)) => Course::Done(
                        Err((ErrorKind::NotFound, "无法读取备份元数据"@)),
                        at + 2,
                    ),
                    Reply::Content(Ok(text)) => if at + 2 >= replies.len() {
                        Course::Ask(RequestView::Decode(text@))
                    } else {
                        match replies[at + 2] {
                            Reply::Record(None) => Course::Done(
                                Err((ErrorKind::ParseError, "元数据格式错误"@)),
                                at + 3,
                            ),
                            Reply::Record(Some(record)) => restore_copy_course(
                                backup_path,
                                record.original_path@,
                                replies,
                                at + 3,
                            ),
                            _ => Course::Misfit,
                        }
                    },
                    _ => Course::Misfit,
                }
            },
            _ => Course::Misfit,
        }
    }
}

/// The course of a restore once the path to restore is known: the safety
/// copy, where there is something to save, and the copy of the backup.
pub open spec fn restore_copy_course(
    backup_path: Seq<char>,
    original_path: Seq<char>,
    replies: Seq<Reply>,
    at: int,
) -> Course<Result<Seq<char>, (ErrorKind, Seq<char>)>> {
    if at >= replies.len() {
        Course::Ask(RequestView::Exists(original_path))
    } else {
        match replies[at] {
            Reply::Flag(false) => restore_final_course(
                backup_path,
                original_path,
                replies,
                at + 1,
            ),
            Reply::Flag(true) => if at + 1 >= replies.len() {
                Course::Ask(RequestView::CopyFile(original_path, safety_path_of(original_path)))
            } else {
                match replies[at + 1] {
                    Reply::Done(Err(why)) => Course::Done(
                        Err((ErrorKind::IoError, "创建临时备份失败: "@ + why@)),
                        at + 2,
                    ),
                    Reply::Done(Ok(_)) => restore_final_course(
                        backup_path,
                        original_path,
                        replies,
                        at + 2,
                    ),
                    _ => Course::Misfit,
                }
            },
            _ => Course::Misfit,
        }
    }
}

/// The last step of a restore: the copy of the backup onto the file.
pub open spec fn restore_final_course(
    backup_path: Seq<char>,
    original_path: Seq<char>,
    replies: Seq<Reply>,
    at: int,
) -> Course<Result<Seq<char>, (ErrorKind, Seq<char>)>> {
    if at >= replies.len() {
        Course::Ask(RequestView::CopyFile(backup_path, original_path))
    } else {
        match replies[at] {
            Reply::Done(Err(why)) => Course::Done(
                Err((ErrorKind::IoError, "恢复失败: "@ + why@)),
                at + 1,
            ),
            Reply::Done(Ok(_)) => Course::Done(Ok(original_path), at + 1),
            _ => Course::Misfit,
        }
    }
}

/// Restores the backup at `backup_path` onto the file that it was made of,
/// reading the replies from position `at` on. The result is the path of
/// that file.
pub fn restore_backup(backup_path: &str, replies: &Vec<Reply>, at: usize) -> (r: Turn<
    Result<String, SyncError>,
>)
    ensures
        course_of(r, |o: Result<String, SyncError>| outcome_view(o)) == restore_course(
            backup_path@,
            replies@,
            at as int,
        ),
{
    if at >= replies.len() {
        return Turn::Ask(Request::Exists(String::from_str(backup_path)));
    }
    match &replies[at] {
        Reply::Flag(found) => {
            if !*found {
                return Turn::Done(Err(plain_failure(ErrorKind::NotFound, "备份文件不存在")), at + 1);
            }
        },
        _ => {
            return Turn::Misfit;
        },
    }
    if at + 1 >= replies.len() {
        return Turn::Ask(Request::ReadText(sidecar_path(backup_path)));
    }
    let text = match &replies[at + 1] {
        Reply::Content(Err(_)) => {
            return Turn::Done(
                Err(plain_failure(ErrorKind::NotFound, "无法读取备份元数据")),
                at + 2,
            );
        },
        Reply::Content(Ok(text)) => text,
        _ => {
            return Turn::Misfit;
        },
    };
    if at + 2 >= replies.len() {
        return Turn::Ask(Request::Decode(text.clone()));
    }
    let restored = match &replies[at + 2] {
        Reply::Record(None) => {
            return Turn::Done(Err(plain_failure(ErrorKind::ParseError, "元数据格式错误")), at + 3);
        },
        Reply::Record(Some(record)) => &record.original_path,
        _ => {
            return Turn::Misfit;
        },
    };
    if at + 3 >= replies.len() {
        return Turn::Ask(Request::Exists(restored.clone()));
    }
    let mut next: usize = at + 4;
    match &replies[at + 3] {
        Reply::Flag(found) => {
            if *found {
                if at + 4 >= replies.len() {
                    return Turn::Ask(
                        Request::CopyFile(
                            restored.clone(),
                            join2(restored.as_str(), ".before-restore"),
                        ),
                    );
                }
                match &replies[at + 4] {
                    Reply::Done(Err(why)) => {
                        return Turn::Done(
                            Err(failure(ErrorKind::IoError, "创建临时备份失败: ", why.as_str())),
                            at + 5,
                        );
                    },
                    Reply::Done(Ok(_)) => {},
                    _ => {
                        return Turn::Misfit;
                    },
                }
                next = at + 5;
            }
        },
        _ => {
            return Turn::Misfit;
        },
    }
    if next >= replies.len() {
        return Turn::Ask(Request::CopyFile(String::from_str(backup_path), restored.clone()));
    }
    match &replies[next] {
        Reply::Done(Err(why)) => Turn::Done(
            Err(failure(ErrorKind::IoError, "恢复失败: ", why.as_str())),
            next + 1,
        ),
        Reply::Done(Ok(_)) => Turn::Done(Ok(restored.clone()), next + 1),
        _ => Turn::Misfit,
    }
}

} // verus!
