//! The history of runs: what a run leaves in it, and the cap on its length.

use crate::models::{Platform, SyncRecord, SyncResult};
use crate::paths::{join_path, joined};
use crate::text::{decimal, decimal_text, join3, signed_decimal, signed_text};
use vstd::prelude::*;

verus! {

/// How many runs the history keeps.
pub const HISTORY_LIMIT: usize = 50;

/// The mathematical content of a [`SyncRecord`].
pub struct SyncRecordView {
    pub id: Seq<char>,
    pub timestamp: i64,
    pub source_name: Seq<char>,
    pub target_name: Seq<char>,
    pub status: Seq<char>,
    pub details: Seq<char>,
}

impl View for SyncRecord {
    type V = SyncRecordView;

    open spec fn view(&self) -> SyncRecordView {
        SyncRecordView {
            id: self.id@,
            timestamp: self.timestamp,
            source_name: self.source_name@,
            target_name: self.target_name@,
            status: self.status@,
            details: self.details@,
        }
    }
}

/// What a run leaves in the history: its moment, which also names it, the
/// two installations, and how it ended. A run that failed tells how many
/// lines its log holds.
pub open spec fn record_of(
    success: bool,
    log_len: nat,
    timestamp: i64,
    source_name: Seq<char>,
    target_name: Seq<char>,
) -> SyncRecordView {
    SyncRecordView {
        id: signed_text(timestamp as int),
        timestamp,
        source_name,
        target_name,
        status: if success {
            "Success"@
        } else {
            "Failed"@
        },
        details: if success {
            "同步成功"@
        } else {
            "同步失败，共 "@ + decimal_text(log_len) + " 条日志"@
        },
    }
}

/// The history record of a run that ended with `result` at the moment
/// `timestamp`.
pub fn sync_record(result: &SyncResult, timestamp: i64, source_name: &str, target_name: &str) -> (r:
    SyncRecord)
    ensures
        r@ == record_of(
            result.success,
            result.log@.len(),
            timestamp,
            source_name@,
            target_name@,
        ),
{
    SyncRecord {
        id: signed_decimal(timestamp),
        timestamp,
        source_name: String::from_str(source_name),
        target_name: String::from_str(target_name),
        status: if result.success {
            String::from_str("Success")
        } else {
            String::from_str("Failed")
        },
        details: if result.success {
            String::from_str("同步成功")
        } else {
            join3("同步失败，共 ", decimal(result.log.len() as u64).as_str(), " 条日志")
        },
    }
}

/// The history after a run: the new record first, and of the whole no more
/// than the limit, the oldest records leaving.
pub open spec fn history_with(history: Seq<SyncRecord>, record: SyncRecord) -> Seq<SyncRecord> {
    let longer = seq![record] + history;
    if longer.len() > HISTORY_LIMIT {
        longer.take(HISTORY_LIMIT as int)
    } else {
        longer
    }
}

/// Puts a record at the head of the history and cuts the history to its
/// limit.
pub fn append_history(history: Vec<SyncRecord>, record: SyncRecord) -> (r: Vec<SyncRecord>)
    ensures
        r@ == history_with(history@, record),
{
    let mut out = history;
    out.insert(0, record);
    assert(out@ =~= seq![record] + history@);
    if out.len() > HISTORY_LIMIT {
        out.truncate(HISTORY_LIMIT);
    }
    assert(out@ =~= history_with(history@, record));
    out
}

/// The directory, below the user's home, that holds the history.
pub open spec fn history_dir_of(platform: Platform, home: Seq<char>) -> Seq<char> {
    joined(platform, home, ".ide-sync-pro"@)
}

/// The path of the file that holds the history.
pub open spec fn history_path_of(platform: Platform, home: Seq<char>) -> Seq<char> {
    joined(platform, history_dir_of(platform, home), "history.json"@)
}

/// The directory, below the user's home, that holds the history.
pub fn get_history_dir(home: &str, platform: Platform) -> (r: String)
    ensures
        r@ == history_dir_of(platform, home@),
{
    join_path(platform, home, ".ide-sync-pro")
}

/// The path of the file that holds the history.
pub fn get_history_file_path(home: &str, platform: Platform) -> (r: String)
    ensures
        r@ == history_path_of(platform, home@),
{
    join_path(platform, get_history_dir(home, platform).as_str(), "history.json")
}

} // verus!
