//! The file phases of a synchronisation: what the target file is to hold,
//! the backup before it is overwritten, and the write.

use crate::backup::{backup_course, create_timestamped_backup, failure, plain_failure};
use crate::listing::{cleanup_course, cleanup_old_backups};
use crate::effects::{course_of, Course, ReadFailure, Reply, Request, RequestView, Turn};
use crate::json::Json;
use crate::jsonc::{jsonc_document, parse_config, pretty_text, print_pretty};
use crate::merge::{merged, merged_value};
use crate::extensions::{extensions_course, log_line, sync_extensions_cli};
use crate::models::{
    ErrorKind, IdeProfile, IdeProfileView, Platform, SyncError, SyncOptions, SyncResult,
    SyncResultView, SyncStrategy,
};
use crate::paths::{get_keybindings_path, keybindings_path_of};
use crate::sync_laws::{
    law_dry_file_phase_only_reads, law_dry_run_changes_nothing, law_overwrite_writes_source_text,
};
use crate::text::{join2, texts_view};
use vstd::prelude::*;

verus! {

/// How many backups of a target file a synchronisation keeps.
pub const KEPT_BACKUPS: usize = 10;

/// The name of a strategy, as the log shows it.
pub open spec fn strategy_text(strategy: SyncStrategy) -> Seq<char> {
    match strategy {
        SyncStrategy::Overwrite => "Overwrite"@,
        SyncStrategy::Merge => "Merge"@,
    }
}

/// The name of a strategy, as the log shows it.
pub fn strategy_name(strategy: SyncStrategy) -> (r: &'static str)
    ensures
        r@ == strategy_text(strategy),
{
    match strategy {
        SyncStrategy::Overwrite => "Overwrite",
        SyncStrategy::Merge => "Merge",
    }
}

/// What a dry run logs in place of writing the target.
pub open spec fn dry_run_text(target_path: Seq<char>, strategy: SyncStrategy) -> Seq<char> {
    "[Dry Run] Would write to "@ + target_path + " (Strategy: "@ + strategy_text(strategy) + ")"@
}

/// What a file phase logs when the target was written.
pub open spec fn synced_text(target_path: Seq<char>, strategy: SyncStrategy) -> Seq<char> {
    "Successfully synced "@ + target_path + " (Strategy: "@ + strategy_text(strategy)
        + ", auto-backup created)"@
}

/// The model of a file phase's result: its log lines, or its failure.
pub open spec fn lines_view(outcome: Result<Vec<String>, SyncError>) -> Result<
    Seq<Seq<char>>,
    (ErrorKind, Seq<char>),
> {
    match outcome {
        Ok(lines) => Ok(texts_view(lines@)),
        Err(error) => Err(error@),
    }
}

/// The kind of a failure to read a file: `NotFound` where the file is
/// missing, `IoError` else.
pub open spec fn read_failure_kind(missing: bool) -> ErrorKind {
    if missing {
        ErrorKind::NotFound
    } else {
        ErrorKind::IoError
    }
}

/// The kind of a failure to read a file.
pub fn kind_of_read_failure(failure: &ReadFailure) -> (r: ErrorKind)
    ensures
        r == read_failure_kind(failure.missing),
{
    if failure.missing {
        ErrorKind::NotFound
    } else {
        ErrorKind::IoError
    }
}

/// The tree of a document: null where the document holds no value.
pub open spec fn tree_or_null(document: Option<Json>) -> Json {
    match document {
        Some(tree) => tree,
        None => Json::Null,
    }
}

/// The last step of a file phase: the write of the content to the target.
/// A write that fails ends the phase with `IoError`; else the phase ends
/// with the warnings it gathered and the line that reports the write.
pub open spec fn file_final_course(
    content: Seq<char>,
    target_path: Seq<char>,
    strategy: SyncStrategy,
    warnings: Seq<Seq<char>>,
    replies: Seq<Reply>,
    at: int,
) -> Course<Result<Seq<Seq<char>>, (ErrorKind, Seq<char>)>> {
    if at >= replies.len() {
        Course::Ask(RequestView::WriteText(target_path, content))
    } else {
        match replies[at] {
            Reply::Done(Err(why)) => Course::Done(Err((ErrorKind::IoError, why@)), at + 1),
            Reply::Done(Ok(_)) => Course::Done(
                Ok(warnings.push(synced_text(target_path, strategy))),
                at + 1,
            ),
            _ => Course::Misfit,
        }
    }
}

/// The course of a file phase once the content is decided.
///
/// A dry run asks nothing and logs where it would write. Else, where the
/// target exists, a backup is made of it first and, where that succeeds,
/// all but the newest backups are swept away. Neither a backup nor a sweep
/// that fails stops the phase: each leaves a warning. Then the content is
/// written.
pub open spec fn file_write_course(
    content: Seq<char>,
    target_path: Seq<char>,
    dry_run: bool,
    strategy: SyncStrategy,
    source_ide: Seq<char>,
    target_ide: Seq<char>,
    file_type: Seq<char>,
    replies: Seq<Reply>,
    at: int,
) -> Course<Result<Seq<Seq<char>>, (ErrorKind, Seq<char>)>> {
    if dry_run {
        Course::Done(Ok(seq![dry_run_text(target_path, strategy)]), at)
    } else if at >= replies.len() {
        Course::Ask(RequestView::Exists(target_path))
    } else {
        match replies[at] {
            Reply::Flag(false) => file_final_course(
                content,
                target_path,
                strategy,
                Seq::empty(),
                replies,
                at + 1,
            ),
            Reply::Flag(true) => match backup_course(
                target_path,
                source_ide,
                target_ide,
                file_type,
                replies,
                at + 1,
            ) {
                Course::Ask(request) => Course::Ask(request),
                Course::Misfit => Course::Misfit,
                Course::Done(Err(error), next) => file_final_course(
                    content,
                    target_path,
                    strategy,
                    seq!["Warning: Backup failed: "@ + error.1],
                    replies,
                    next,
                ),
                Course::Done(Ok(_), next) => match cleanup_course(
                    target_path,
                    KEPT_BACKUPS,
                    replies,
                    next,
                ) {
                    Course::Ask(request) => Course::Ask(request),
                    Course::Misfit => Course::Misfit,
                    Course::Done(Err(error), after) => file_final_course(
                        content,
                        target_path,
                        strategy,
                        seq!["Warning: Backup cleanup failed: "@ + error.1],
                        replies,
                        after,
                    ),
                    Course::Done(Ok(_), after) => file_final_course(
                        content,
                        target_path,
                        strategy,
                        Seq::empty(),
                        replies,
                        after,
                    ),
                },
            },
            _ => Course::Misfit,
        }
    }
}

/// Writes the final step of a file phase.
fn write_final(
    content: &str,
    target_path: &str,
    strategy: SyncStrategy,
    warnings: Vec<String>,
    replies: &Vec<Reply>,
    at: usize,
) -> (r: Turn<Result<Vec<String>, SyncError>>)
    ensures
        course_of(r, |o: Result<Vec<String>, SyncError>| lines_view(o)) == file_final_course(
            content@,
            target_path@,
            strategy,
            texts_view(warnings@),
            replies@,
            at as int,
        ),
{
    if at >= replies.len() {
        return Turn::Ask(
            Request::WriteText(String::from_str(target_path), String::from_str(content)),
        );
    }
    match &replies[at] {
        Reply::Done(Err(why)) => Turn::Done(
            Err(plain_failure(ErrorKind::IoError, why.as_str())),
            at + 1,
        ),
        Reply::Done(Ok(_)) => {
            let mut line = String::from_str("Successfully synced ");
            line.append(target_path);
            line.append(" (Strategy: ");
            line.append(strategy_name(strategy));
            line.append(", auto-backup created)");
            let mut lines = warnings;
            proof {
                assert(texts_view(lines@.push(line)) =~= texts_view(lines@).push(line@));
            }
            lines.push(line);
            Turn::Done(Ok(lines), at + 1)
        },
        _ => Turn::Misfit,
    }
}

/// A list that holds one text.
fn single(text: String) -> (r: Vec<String>)
    ensures
        texts_view(r@) == seq![text@],
{
    let mut lines: Vec<String> = Vec::new();
    lines.push(text);
    assert(texts_view(lines@) =~= seq![text@]);
    lines
}

/// Brings the decided content to the target file, reading the replies from
/// position `at` on: the backup and the sweep where the target exists, and
/// the write; in a dry run only the line that says so.
pub fn write_content(
    content: &str,
    target_path: &str,
    dry_run: bool,
    strategy: SyncStrategy,
    source_ide: &str,
    target_ide: &str,
    file_type: &str,
    replies: &Vec<Reply>,
    at: usize,
) -> (r: Turn<Result<Vec<String>, SyncError>>)
    ensures
        course_of(r, |o: Result<Vec<String>, SyncError>| lines_view(o)) == file_write_course(
            content@,
            target_path@,
            dry_run,
            strategy,
            source_ide@,
            target_ide@,
            file_type@,
            replies@,
            at as int,
        ),
{
    if dry_run {
        let mut line = String::from_str("[Dry Run] Would write to ");
        line.append(target_path);
        line.append(" (Strategy: ");
        line.append(strategy_name(strategy));
        line.append(")");
        return Turn::Done(Ok(single(line)), at);
    }
    if at >= replies.len() {
        return Turn::Ask(Request::Exists(String::from_str(target_path)));
    }
    let found = match &replies[at] {
        Reply::Flag(found) => *found,
        _ => {
            return Turn::Misfit;
        },
    };
    if !found {
        let none: Vec<String> = Vec::new();
        assert(texts_view(none@) =~= Seq::<Seq<char>>::empty());
        return write_final(content, target_path, strategy, none, replies, at + 1);
    }
    match create_timestamped_backup(target_path, source_ide, target_ide, file_type, replies, at + 1) {
        Turn::Ask(request) => Turn::Ask(request),
        Turn::Misfit => Turn::Misfit,
        Turn::Done(Err(error), next) => {
            let warning = join2("Warning: Backup failed: ", error.message.as_str());
            write_final(content, target_path, strategy, single(warning), replies, next)
        },
        Turn::Done(Ok(_), next) => match cleanup_old_backups(target_path, KEPT_BACKUPS, replies, next) {
            Turn::Ask(request) => Turn::Ask(request),
            Turn::Misfit => Turn::Misfit,
            Turn::Done(Err(error), after) => {
                let warning = join2("Warning: Backup cleanup failed: ", error.message.as_str());
                write_final(content, target_path, strategy, single(warning), replies, after)
            },
            Turn::Done(Ok(_), after) => {
                let none: Vec<String> = Vec::new();
                assert(texts_view(none@) =~= Seq::<Seq<char>>::empty());
                write_final(content, target_path, strategy, none, replies, after)
            },
        },
    }
}

/// The course of a file phase under the merge strategy once the source is
/// read as `source_tree`.
///
/// Where the target does not exist, the content is the source's text as it
/// is. Else the target is read and parsed, the source's tree is merged into
/// its tree, and the content is the pretty text of the result. A target
/// that cannot be read ends the phase as a source does that cannot be
/// read, one that cannot be parsed with `ParseError`.
pub open spec fn file_merge_course(
    source_text: Seq<char>,
    source_tree: Json,
    target_path: Seq<char>,
    dry_run: bool,
    source_ide: Seq<char>,
    target_ide: Seq<char>,
    file_type: Seq<char>,
    replies: Seq<Reply>,
    at: int,
) -> Course<Result<Seq<Seq<char>>, (ErrorKind, Seq<char>)>> {
    if at >= replies.len() {
        Course::Ask(RequestView::Exists(target_path))
    } else {
        match replies[at] {
            Reply::Flag(false) => file_write_course(
                source_text,
                target_path,
                dry_run,
                SyncStrategy::Merge,
                source_ide,
                target_ide,
                file_type,
                replies,
                at + 1,
            ),
            Reply::Flag(true) => if at + 1 >= replies.len() {
                Course::Ask(RequestView::ReadText(target_path))
            } else {
                match replies[at + 1] {
                    Reply::Content(Err(failure)) => Course::Done(
                        Err(
                            (
                                read_failure_kind(failure.missing),
                                "Failed to read target: "@ + failure.message@,
                            ),
                        ),
                        at + 2,
                    ),
                    Reply::Content(Ok(target_text)) => match jsonc_document(target_text@) {
                        None => Course::Done(
                            Err(
                                (
                                    ErrorKind::ParseError,
                                    "Target file is invalid JSONC, cannot merge."@,
                                ),
                            ),
                            at + 2,
                        ),
                        Some(document) => file_write_course(
                            pretty_text(merged(tree_or_null(document), source_tree)),
                            target_path,
                            dry_run,
                            SyncStrategy::Merge,
                            source_ide,
                            target_ide,
                            file_type,
                            replies,
                            at + 2,
                        ),
                    },
                    _ => Course::Misfit,
                }
            },
            _ => Course::Misfit,
        }
    }
}

/// The course of a file phase, from the reply at `at` on.
///
/// The source is read and parsed. One that is missing ends the phase with
/// `NotFound`, one that cannot be read for another reason with `IoError`,
/// one that cannot be parsed with `ParseError`, whatever the strategy. Under the overwrite strategy the content is the source's
/// text as it is, with its comments and its layout.
pub open spec fn file_course(
    source_path: Seq<char>,
    target_path: Seq<char>,
    dry_run: bool,
    strategy: SyncStrategy,
    source_ide: Seq<char>,
    target_ide: Seq<char>,
    file_type: Seq<char>,
    replies: Seq<Reply>,
    at: int,
) -> Course<Result<Seq<Seq<char>>, (ErrorKind, Seq<char>)>> {
    if at >= replies.len() {
        Course::Ask(RequestView::ReadText(source_path))
    } else {
        match replies[at] {
            Reply::Content(Err(failure)) => Course::Done(
                Err(
                    (
                        read_failure_kind(failure.missing),
                        "Failed to read source: "@ + failure.message@,
                    ),
                ),
                at + 1,
            ),
            Reply::Content(Ok(source_text)) => match jsonc_document(source_text@) {
                None => Course::Done(
                    Err((ErrorKind::ParseError, "Source file is invalid JSONC"@)),
                    at + 1,
                ),
                Some(document) => match strategy {
                    SyncStrategy::Merge => file_merge_course(
                        source_text@,
                        tree_or_null(document),
                        target_path,
                        dry_run,
                        source_ide,
                        target_ide,
                        file_type,
                        replies,
                        at + 1,
                    ),
                    SyncStrategy::Overwrite => file_write_course(
                        source_text@,
                        target_path,
                        dry_run,
                        SyncStrategy::Overwrite,
                        source_ide,
                        target_ide,
                        file_type,
                        replies,
                        at + 1,
                    ),
                },
            },
            _ => Course::Misfit,
        }
    }
}

/// Synchronises one file from the source to the target, reading the
/// replies from position `at` on. The result holds the lines for the log.
///
/// In a dry run it asks only for the text of a file and whether a file
/// exists. Under the overwrite strategy, the text that it writes to the
/// target's path is the text that it read from the source.
pub fn sync_file(
    source_path: &str,
    target_path: &str,
    dry_run: bool,
    strategy: SyncStrategy,
    source_ide: &str,
    target_ide: &str,
    file_type: &str,
    replies: &Vec<Reply>,
    at: usize,
) -> (r: Turn<Result<Vec<String>, SyncError>>)
    ensures
        course_of(r, |o: Result<Vec<String>, SyncError>| lines_view(o)) == file_course(
            source_path@,
            target_path@,
            dry_run,
            strategy,
            source_ide@,
            target_ide@,
            file_type@,
            replies@,
            at as int,
        ),
        dry_run ==> (r matches Turn::Ask(request) ==> request is ReadText || request is Exists),
        strategy == SyncStrategy::Overwrite ==> (r matches Turn::Ask(
            Request::WriteText(path, text),
        ) ==> path@ == target_path@ ==> at < replies.len() && (replies[at as int] matches Reply::Content(
            Ok(source_text),
        ) && text@ == source_text@)),
{
    proof {
        let course = file_course(
            source_path@,
            target_path@,
            dry_run,
            strategy,
            source_ide@,
            target_ide@,
            file_type@,
            replies@,
            at as int,
        );
        if dry_run && course is Ask {
            law_dry_file_phase_only_reads(
                source_path@,
                target_path@,
                strategy,
                source_ide@,
                target_ide@,
                file_type@,
                replies@,
                at as int,
            );
        }
        if strategy == SyncStrategy::Overwrite {
            match course {
                Course::Ask(RequestView::WriteText(written_path, written)) => {
                    if written_path == target_path@ {
                        law_overwrite_writes_source_text(
                            source_path@,
                            target_path@,
                            dry_run,
                            source_ide@,
                            target_ide@,
                            file_type@,
                            replies@,
                            at as int,
                            written,
                        );
                    }
                },
                _ => {},
            }
        }
    }
    if at >= replies.len() {
        return Turn::Ask(Request::ReadText(String::from_str(source_path)));
    }
    let source_text = match &replies[at] {
        Reply::Content(Err(trouble)) => {
            return Turn::Done(
                Err(
                    failure(
                        kind_of_read_failure(trouble),
                        "Failed to read source: ",
                        trouble.message.as_str(),
                    ),
                ),
                at + 1,
            );
        },
        Reply::Content(Ok(text)) => text,
        _ => {
            return Turn::Misfit;
        },
    };
    let source_tree = match parse_config(source_text.as_str()) {
        None => {
            return Turn::Done(
                Err(plain_failure(ErrorKind::ParseError, "Source file is invalid JSONC")),
                at + 1,
            );
        },
        Some(tree) => tree,
    };
    match strategy {
        SyncStrategy::Overwrite => {
            return write_content(
                source_text.as_str(),
                target_path,
                dry_run,
                strategy,
                source_ide,
                target_ide,
                file_type,
                replies,
                at + 1,
            );
        },
        SyncStrategy::Merge => {},
    }
    if at + 1 >= replies.len() {
        return Turn::Ask(Request::Exists(String::from_str(target_path)));
    }
    let found = match &replies[at + 1] {
        Reply::Flag(found) => *found,
        _ => {
            return Turn::Misfit;
        },
    };
    if !found {
        return write_content(
            source_text.as_str(),
            target_path,
            dry_run,
            strategy,
            source_ide,
            target_ide,
            file_type,
            replies,
            at + 2,
        );
    }
    if at + 2 >= replies.len() {
        return Turn::Ask(Request::ReadText(String::from_str(target_path)));
    }
    let target_text = match &replies[at + 2] {
        Reply::Content(Err(trouble)) => {
            return Turn::Done(
                Err(
                    failure(
                        kind_of_read_failure(trouble),
                        "Failed to read target: ",
                        trouble.message.as_str(),
                    ),
                ),
                at + 3,
            );
        },
        Reply::Content(Ok(text)) => text,
        _ => {
            return Turn::Misfit;
        },
    };
    let target_tree = match parse_config(target_text.as_str()) {
        None => {
            return Turn::Done(
                Err(
                    plain_failure(
                        ErrorKind::ParseError,
                        "Target file is invalid JSONC, cannot merge.",
                    ),
                ),
                at + 3,
            );
        },
        Some(tree) => tree,
    };
    let result = merged_value(&target_tree, &source_tree);
    match print_pretty(&result) {
        // The printer does not fail on a tree.
        Err(why) => Turn::Done(Err(plain_failure(ErrorKind::IoError, why.as_str())), at + 3),
        Ok(content) => write_content(
            content.as_str(),
            target_path,
            dry_run,
            strategy,
            source_ide,
            target_ide,
            file_type,
            replies,
            at + 3,
        ),
    }
}

/// The two lines that open the log of a run.
pub open spec fn opening_log(
    source_name: Seq<char>,
    target_name: Seq<char>,
    strategy: SyncStrategy,
) -> Seq<Seq<char>> {
    seq![
        "Starting sync from "@ + source_name + " to "@ + target_name + "..."@,
        "Strategy: "@ + strategy_text(strategy),
    ]
}

/// The log after a file phase that ended with `outcome`: its heading, and
/// then its lines or the line of its failure.
pub open spec fn log_after_phase(
    log: Seq<Seq<char>>,
    heading: Seq<char>,
    trouble: Seq<char>,
    outcome: Result<Seq<Seq<char>>, (ErrorKind, Seq<char>)>,
) -> Seq<Seq<char>> {
    match outcome {
        Ok(lines) => log.push(heading) + lines,
        Err(error) => log.push(heading).push(trouble + error.1),
    }
}

/// The course of the extensions phase of a run and of its end.
///
/// The phase runs where the options ask for it. In a dry run it only logs
/// its intent. A failure of the phase is logged and clears the success
/// flag.
pub open spec fn last_phase_course(
    source: IdeProfileView,
    target: IdeProfileView,
    options: SyncOptions,
    platform: Platform,
    log: Seq<Seq<char>>,
    success: bool,
    replies: Seq<Reply>,
    at: int,
) -> Course<SyncResultView> {
    let heading = "--- Syncing Extensions (CLI Method) ---"@;
    if !options.sync_extensions {
        Course::Done(SyncResultView { success, log }, at)
    } else if options.dry_run {
        Course::Done(
            SyncResultView {
                success,
                log: log.push(heading).push("[Dry Run] Would run extension install commands."@),
            },
            at,
        )
    } else {
        match extensions_course(
            source.executable,
            source.name,
            target.executable,
            target.name,
            platform,
            replies,
            at,
        ) {
            Course::Ask(request) => Course::Ask(request),
            Course::Misfit => Course::Misfit,
            Course::Done(Ok(lines), next) => Course::Done(
                SyncResultView {
                    success,
                    log: (log.push(heading) + lines).push("Extensions sync completed."@),
                },
                next,
            ),
            Course::Done(Err(error), next) => Course::Done(
                SyncResultView {
                    success: false,
                    log: log.push(heading).push("Error syncing extensions: "@ + error.1),
                },
                next,
            ),
        }
    }
}

/// The course of the keybindings phase of a run and of what follows it.
///
/// The phase runs where the options ask for it. The keybindings files lie
/// beside the settings files. Where the source has none, the phase logs so
/// and is passed over, which is no failure. A failure of the phase is
/// logged and clears the success flag; the extensions phase follows in
/// every case.
pub open spec fn middle_phase_course(
    source: IdeProfileView,
    target: IdeProfileView,
    options: SyncOptions,
    platform: Platform,
    log: Seq<Seq<char>>,
    success: bool,
    replies: Seq<Reply>,
    at: int,
) -> Course<SyncResultView> {
    let heading = "--- Syncing Keybindings ---"@;
    if !options.sync_keybindings {
        last_phase_course(source, target, options, platform, log, success, replies, at)
    } else if at >= replies.len() {
        Course::Ask(RequestView::Exists(keybindings_path_of(platform, source.config_path)))
    } else {
        match replies[at] {
            Reply::Flag(false) => last_phase_course(
                source,
                target,
                options,
                platform,
                log.push(heading).push("Source keybindings.json not found, skipping."@),
                success,
                replies,
                at + 1,
            ),
            Reply::Flag(true) => match file_course(
                keybindings_path_of(platform, source.config_path),
                keybindings_path_of(platform, target.config_path),
                options.dry_run,
                options.strategy,
                source.name,
                target.name,
                "keybindings"@,
                replies,
                at + 1,
            ) {
                Course::Ask(request) => Course::Ask(request),
                Course::Misfit => Course::Misfit,
                Course::Done(outcome, next) => last_phase_course(
                    source,
                    target,
                    options,
                    platform,
                    log_after_phase(log, heading, "Error syncing keybindings: "@, outcome),
                    success && outcome is Ok,
                    replies,
                    next,
                ),
            },
            _ => Course::Misfit,
        }
    }
}

/// The course of a run, from the reply at `at` on.
///
/// The log opens with the two installations and the strategy. The settings
/// phase runs where the options ask for it; a failure of it is logged and
/// clears the success flag. The keybindings phase and the extensions phase
/// follow in every case.
pub open spec fn sync_course(
    source: IdeProfileView,
    target: IdeProfileView,
    options: SyncOptions,
    platform: Platform,
    replies: Seq<Reply>,
    at: int,
) -> Course<SyncResultView> {
    let log = opening_log(source.name, target.name, options.strategy);
    if !options.sync_settings {
        middle_phase_course(source, target, options, platform, log, true, replies, at)
    } else {
        match file_course(
            source.config_path,
            target.config_path,
            options.dry_run,
            options.strategy,
            source.name,
            target.name,
            "settings"@,
            replies,
            at,
        ) {
            Course::Ask(request) => Course::Ask(request),
            Course::Misfit => Course::Misfit,
            Course::Done(outcome, next) => middle_phase_course(
                source,
                target,
                options,
                platform,
                log_after_phase(log, "--- Syncing Settings ---"@, "Error syncing settings: "@, outcome),
                outcome is Ok,
                replies,
                next,
            ),
        }
    }
}

/// Adds to a log what a file phase leaves: its heading, and then its lines
/// or the line of its failure. The result tells whether the phase went
/// through.
fn log_phase(
    log: &mut Vec<String>,
    heading: &str,
    trouble: &str,
    outcome: Result<Vec<String>, SyncError>,
) -> (r: bool)
    ensures
        texts_view(final(log)@) == log_after_phase(
            texts_view(old(log)@),
            heading@,
            trouble@,
            lines_view(outcome),
        ),
        r == outcome is Ok,
{
    log_line(log, String::from_str(heading));
    match outcome {
        Ok(lines) => {
            let mut lines = lines;
            let ghost before = log@;
            let ghost added = lines@;
            log.append(&mut lines);
            assert(texts_view(before + added) =~= texts_view(before) + texts_view(added));
            true
        },
        Err(error) => {
            log_line(log, join2(trouble, error.message.as_str()));
            false
        },
    }
}

/// Runs one synchronisation from the source to the target, reading the
/// replies from position `at` on: the settings phase, the keybindings
/// phase and the extensions phase, in this order, each where the options
/// ask for it. In a dry run it asks only for the text of a file and whether
/// a file exists.
pub fn perform_sync(
    source: &IdeProfile,
    target: &IdeProfile,
    options: SyncOptions,
    platform: Platform,
    replies: &Vec<Reply>,
    at: usize,
) -> (r: Turn<SyncResult>)
    ensures
        course_of(r, |result: SyncResult| result@) == sync_course(
            source@,
            target@,
            options,
            platform,
            replies@,
            at as int,
        ),
        options.dry_run ==> (r matches Turn::Ask(request) ==> request is ReadText
            || request is Exists),
{
    proof {
        if options.dry_run && sync_course(source@, target@, options, platform, replies@, at as int)
            is Ask {
            law_dry_run_changes_nothing(source@, target@, options, platform, replies@, at as int);
        }
    }
    let mut log: Vec<String> = Vec::new();
    let mut success = true;
    let mut next: usize = at;
    let mut first = String::from_str("Starting sync from ");
    first.append(source.name.as_str());
    first.append(" to ");
    first.append(target.name.as_str());
    first.append("...");
    assert(texts_view(log@) =~= Seq::<Seq<char>>::empty());
    log_line(&mut log, first);
    log_line(&mut log, join2("Strategy: ", strategy_name(options.strategy)));
    assert(texts_view(log@) =~= opening_log(source.name@, target.name@, options.strategy));
    if options.sync_settings {
        match sync_file(
            source.config_path.as_str(),
            target.config_path.as_str(),
            options.dry_run,
            options.strategy,
            source.name.as_str(),
            target.name.as_str(),
            "settings",
            replies,
            next,
        ) {
            Turn::Ask(request) => {
                return Turn::Ask(request);
            },
            Turn::Misfit => {
                return Turn::Misfit;
            },
            Turn::Done(outcome, after) => {
                success = log_phase(
                    &mut log,
                    "--- Syncing Settings ---",
                    "Error syncing settings: ",
                    outcome,
                );
                next = after;
            },
        }
    }
    if options.sync_keybindings {
        let source_keys = get_keybindings_path(source.config_path.as_str(), platform);
        if next >= replies.len() {
            return Turn::Ask(Request::Exists(source_keys));
        }
        let found = match &replies[next] {
            Reply::Flag(found) => *found,
            _ => {
                return Turn::Misfit;
            },
        };
        if found {
            let target_keys = get_keybindings_path(target.config_path.as_str(), platform);
            match sync_file(
                source_keys.as_str(),
                target_keys.as_str(),
                options.dry_run,
                options.strategy,
                source.name.as_str(),
                target.name.as_str(),
                "keybindings",
                replies,
                next + 1,
            ) {
                Turn::Ask(request) => {
                    return Turn::Ask(request);
                },
                Turn::Misfit => {
                    return Turn::Misfit;
                },
                Turn::Done(outcome, after) => {
                    let went = log_phase(
                        &mut log,
                        "--- Syncing Keybindings ---",
                        "Error syncing keybindings: ",
                        outcome,
                    );
                    success = success && went;
                    next = after;
                },
            }
        } else {
            log_line(&mut log, String::from_str("--- Syncing Keybindings ---"));
            log_line(&mut log, String::from_str("Source keybindings.json not found, skipping."));
            next = next + 1;
        }
    }
    if options.sync_extensions {
        if options.dry_run {
            log_line(&mut log, String::from_str("--- Syncing Extensions (CLI Method) ---"));
            log_line(
                &mut log,
                String::from_str("[Dry Run] Would run extension install commands."),
            );
        } else {
            match sync_extensions_cli(source, target, platform, replies, next) {
                Turn::Ask(request) => {
                    return Turn::Ask(request);
                },
                Turn::Misfit => {
                    return Turn::Misfit;
                },
                Turn::Done(outcome, after) => {
                    let went = log_phase(
                        &mut log,
                        "--- Syncing Extensions (CLI Method) ---",
                        "Error syncing extensions: ",
                        outcome,
                    );
                    if went {
                        log_line(&mut log, String::from_str("Extensions sync completed."));
                    } else {
                        success = false;
                    }
                    next = after;
                },
            }
        }
    }
    Turn::Done(SyncResult { success, log }, next)
}

} // verus!
