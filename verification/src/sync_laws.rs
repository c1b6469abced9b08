//! What holds of every file phase and of every run: which text a target is
//! written with, and that a dry run changes nothing.

use crate::backup::{backup_course, delete_course, BackupMetadata};
use crate::listing::{cleanup_course, gather_course, records_course, sweep_course};
use crate::effects::{Course, DirEntry, Reply, RequestView};
use crate::extensions::{
    cli_course, extensions_course, failed_install_text, install_course, installing_text,
};
use crate::jsonc::jsonc_document;
use crate::models::{
    ErrorKind, IdeProfileView, Platform, SyncOptions, SyncResultView, SyncStrategy,
};
use crate::paths::keybindings_path_of;
use crate::sync::{
    dry_run_text, file_course, file_write_course, last_phase_course, middle_phase_course,
    opening_log, sync_course, KEPT_BACKUPS,
};
use vstd::prelude::*;

verus! {

/// The requests that change something in the world.
pub open spec fn changes_the_world(request: RequestView) -> bool {
    ||| request is WriteText
    ||| request is CopyFile
    ||| request is RemoveFile
    ||| request is Run
}

/// Where the course asks for something, it is the text of a file or whether
/// a file exists.
pub open spec fn reads_only<V>(course: Course<V>) -> bool {
    course matches Course::Ask(asked) ==> asked is ReadText || asked is Exists
}

/// Gathering the records of a directory asks only for the text of a
/// sidecar and for its decoding.
pub proof fn lemma_gather_asks(
    entries: Seq<DirEntry>,
    file_name: Seq<char>,
    k: int,
    found: Seq<BackupMetadata>,
    replies: Seq<Reply>,
    at: int,
)
    requires
        gather_course(entries, file_name, k, found, replies, at) is Ask,
    ensures
        ({
            let asked = gather_course(entries, file_name, k, found, replies, at)->Ask_0;
            asked is ReadText || asked is Decode
        }),
    decreases entries.len() - k,
{
    if !(k < 0 || k >= entries.len()) {
        if !crate::listing::is_backup_name(entries[k].name@, file_name) {
            lemma_gather_asks(entries, file_name, k + 1, found, replies, at);
        } else if at < replies.len() {
            match replies[at] {
                Reply::Content(Err(_)) => {
                    lemma_gather_asks(entries, file_name, k + 1, found, replies, at + 1);
                },
                Reply::Content(Ok(text)) => {
                    if at + 1 < replies.len() {
                        match replies[at + 1] {
                            Reply::Record(None) => {
                                lemma_gather_asks(
                                    entries,
                                    file_name,
                                    k + 1,
                                    found,
                                    replies,
                                    at + 2,
                                );
                            },
                            Reply::Record(Some(record)) => {
                                lemma_gather_asks(
                                    entries,
                                    file_name,
                                    k + 1,
                                    found.push(record),
                                    replies,
                                    at + 2,
                                );
                            },
                            _ => {},
                        }
                    }
                },
                _ => {},
            }
        }
    }
}

/// A sweep asks only whether a backup exists and for removals.
pub proof fn lemma_sweep_asks(
    list: Seq<BackupMetadata>,
    i: int,
    deleted: usize,
    replies: Seq<Reply>,
    at: int,
)
    requires
        sweep_course(list, i, deleted, replies, at) is Ask,
    ensures
        ({
            let asked = sweep_course(list, i, deleted, replies, at)->Ask_0;
            asked is Exists || asked is RemoveFile
        }),
    decreases list.len() - i,
{
    if !(i < 0 || i >= list.len()) {
        match delete_course(list[i].backup_path@, replies, at) {
            Course::Done(Ok(_), next) => {
                lemma_sweep_asks(list, i + 1, (deleted + 1) as usize, replies, next);
            },
            Course::Done(Err(_), next) => {
                lemma_sweep_asks(list, i + 1, deleted, replies, next);
            },
            _ => {},
        }
    }
}

/// A retention sweep writes no file and copies none.
pub proof fn lemma_cleanup_asks(file_path: Seq<char>, keep: usize, replies: Seq<Reply>, at: int)
    requires
        cleanup_course(file_path, keep, replies, at) is Ask,
    ensures
        ({
            let asked = cleanup_course(file_path, keep, replies, at)->Ask_0;
            !(asked is WriteText) && !(asked is CopyFile) && !(asked is Run)
        }),
{
    match records_course(file_path, replies, at) {
        Course::Ask(request) => {
            if at < replies.len() {
                match replies[at] {
                    Reply::Listing(crate::effects::Scan::Entries(file_name, entries)) => {
                        lemma_gather_asks(entries@, file_name@, 0, Seq::empty(), replies, at + 1);
                    },
                    _ => {},
                }
            }
        },
        Course::Done(Ok(list), next) => {
            lemma_sweep_asks(list, keep as int, 0, replies, next);
        },
        _ => {},
    }
}

/// Making a backup of a file writes only the backup's sidecar, whose path
/// is longer than the file's.
pub proof fn lemma_backup_writes_elsewhere(
    file_path: Seq<char>,
    source_ide: Seq<char>,
    target_ide: Seq<char>,
    file_type: Seq<char>,
    replies: Seq<Reply>,
    at: int,
)
    requires
        backup_course(file_path, source_ide, target_ide, file_type, replies, at) is Ask,
    ensures
        ({
            let asked = backup_course(
                file_path,
                source_ide,
                target_ide,
                file_type,
                replies,
                at,
            )->Ask_0;
            &&& asked matches RequestView::WriteText(path, _) ==> path.len() > file_path.len()
            &&& !(asked is RemoveFile)
            &&& !(asked is Run)
        }),
{
    reveal_strlit(".meta.json");
}

/// Whatever a file phase writes to the target's path is the content that
/// was decided.
pub proof fn law_target_takes_content(
    content: Seq<char>,
    target_path: Seq<char>,
    dry_run: bool,
    strategy: SyncStrategy,
    source_ide: Seq<char>,
    target_ide: Seq<char>,
    file_type: Seq<char>,
    replies: Seq<Reply>,
    at: int,
    written: Seq<char>,
)
    requires
        file_write_course(
            content,
            target_path,
            dry_run,
            strategy,
            source_ide,
            target_ide,
            file_type,
            replies,
            at,
        ) == Course::<Result<Seq<Seq<char>>, (crate::models::ErrorKind, Seq<char>)>>::Ask(
            RequestView::WriteText(target_path, written),
        ),
    ensures
        written == content,
{
    if !dry_run && at < replies.len() {
        match replies[at] {
            Reply::Flag(true) => {
                match backup_course(target_path, source_ide, target_ide, file_type, replies, at + 1) {
                    Course::Ask(_) => {
                        lemma_backup_writes_elsewhere(
                            target_path,
                            source_ide,
                            target_ide,
                            file_type,
                            replies,
                            at + 1,
                        );
                    },
                    Course::Done(Ok(_), next) => {
                        match cleanup_course(target_path, KEPT_BACKUPS, replies, next) {
                            Course::Ask(_) => {
                                lemma_cleanup_asks(target_path, KEPT_BACKUPS, replies, next);
                            },
                            _ => {},
                        }
                    },
                    _ => {},
                }
            },
            _ => {},
        }
    }
}

/// A file phase writes to the target's path only after it found no file
/// there, or after it made a backup of the file or tried to; and where the
/// backup was made, only after the sweep of the older backups has ended.
pub proof fn law_write_follows_backup(
    content: Seq<char>,
    target_path: Seq<char>,
    dry_run: bool,
    strategy: SyncStrategy,
    source_ide: Seq<char>,
    target_ide: Seq<char>,
    file_type: Seq<char>,
    replies: Seq<Reply>,
    at: int,
    written: Seq<char>,
)
    requires
        0 <= at,
        file_write_course(
            content,
            target_path,
            dry_run,
            strategy,
            source_ide,
            target_ide,
            file_type,
            replies,
            at,
        ) == Course::<Result<Seq<Seq<char>>, (crate::models::ErrorKind, Seq<char>)>>::Ask(
            RequestView::WriteText(target_path, written),
        ),
    ensures
        !dry_run,
        at < replies.len(),
        replies[at] == Reply::Flag(false) || (replies[at] == Reply::Flag(true) && (match backup_course(
            target_path,
            source_ide,
            target_ide,
            file_type,
            replies,
            at + 1,
        ) {
            Course::Done(Ok(_), next) => cleanup_course(target_path, KEPT_BACKUPS, replies, next)
                is Done,
            Course::Done(Err(_), _) => true,
            _ => false,
        })),
{
    if !dry_run && at < replies.len() {
        match replies[at] {
            Reply::Flag(true) => {
                match backup_course(target_path, source_ide, target_ide, file_type, replies, at + 1) {
                    Course::Ask(_) => {
                        lemma_backup_writes_elsewhere(
                            target_path,
                            source_ide,
                            target_ide,
                            file_type,
                            replies,
                            at + 1,
                        );
                    },
                    Course::Done(Ok(_), next) => {
                        match cleanup_course(target_path, KEPT_BACKUPS, replies, next) {
                            Course::Ask(_) => {
                                lemma_cleanup_asks(target_path, KEPT_BACKUPS, replies, next);
                            },
                            _ => {},
                        }
                    },
                    _ => {},
                }
            },
            _ => {},
        }
    }
}

/// Under the overwrite strategy, whatever a file phase writes to the
/// target's path is the text that was read from the source, whatever the
/// target held before.
pub proof fn law_overwrite_writes_source_text(
    source_path: Seq<char>,
    target_path: Seq<char>,
    dry_run: bool,
    source_ide: Seq<char>,
    target_ide: Seq<char>,
    file_type: Seq<char>,
    replies: Seq<Reply>,
    at: int,
    written: Seq<char>,
)
    requires
        0 <= at,
        file_course(
            source_path,
            target_path,
            dry_run,
            SyncStrategy::Overwrite,
            source_ide,
            target_ide,
            file_type,
            replies,
            at,
        ) == Course::<Result<Seq<Seq<char>>, (crate::models::ErrorKind, Seq<char>)>>::Ask(
            RequestView::WriteText(target_path, written),
        ),
    ensures
        at < replies.len(),
        replies[at] matches Reply::Content(Ok(source_text)) && written == source_text@,
{
    match replies[at] {
        Reply::Content(Ok(source_text)) => {
            law_target_takes_content(
                source_text@,
                target_path,
                dry_run,
                SyncStrategy::Overwrite,
                source_ide,
                target_ide,
                file_type,
                replies,
                at + 1,
                written,
            );
        },
        _ => {},
    }
}

/// Under the merge strategy a file phase whose target does not exist goes
/// on as under the overwrite strategy: with the source's text as the
/// content.
pub proof fn law_merge_without_target(
    source_path: Seq<char>,
    target_path: Seq<char>,
    dry_run: bool,
    source_ide: Seq<char>,
    target_ide: Seq<char>,
    file_type: Seq<char>,
    replies: Seq<Reply>,
    at: int,
)
    requires
        0 <= at,
        at + 1 < replies.len(),
        replies[at] matches Reply::Content(Ok(source_text)) && jsonc_document(source_text@) is Some,
        replies[at + 1] == Reply::Flag(false),
    ensures
        file_course(
            source_path,
            target_path,
            dry_run,
            SyncStrategy::Merge,
            source_ide,
            target_ide,
            file_type,
            replies,
            at,
        ) == file_write_course(
            replies[at]->Content_0->Ok_0@,
            target_path,
            dry_run,
            SyncStrategy::Merge,
            source_ide,
            target_ide,
            file_type,
            replies,
            at + 2,
        ),
{
}

/// A file phase of a dry run asks only for the text of a file and whether
/// a file exists.
pub proof fn law_dry_file_phase_only_reads(
    source_path: Seq<char>,
    target_path: Seq<char>,
    strategy: SyncStrategy,
    source_ide: Seq<char>,
    target_ide: Seq<char>,
    file_type: Seq<char>,
    replies: Seq<Reply>,
    at: int,
)
    requires
        file_course(
            source_path,
            target_path,
            true,
            strategy,
            source_ide,
            target_ide,
            file_type,
            replies,
            at,
        ) is Ask,
    ensures
        ({
            let asked = file_course(
                source_path,
                target_path,
                true,
                strategy,
                source_ide,
                target_ide,
                file_type,
                replies,
                at,
            )->Ask_0;
            asked is ReadText || asked is Exists
        }),
{
}

/// A dry run changes nothing: it writes, copies and removes no file and
/// runs no command. All it asks is the text of a file and whether a file
/// exists.
pub proof fn law_dry_run_changes_nothing(
    source: IdeProfileView,
    target: IdeProfileView,
    options: SyncOptions,
    platform: Platform,
    replies: Seq<Reply>,
    at: int,
)
    requires
        options.dry_run,
        sync_course(source, target, options, platform, replies, at) is Ask,
    ensures
        ({
            let asked = sync_course(source, target, options, platform, replies, at)->Ask_0;
            (asked is ReadText || asked is Exists) && !changes_the_world(asked)
        }),
{
    let keys_source = crate::paths::keybindings_path_of(platform, source.config_path);
    let keys_target = crate::paths::keybindings_path_of(platform, target.config_path);
    if options.sync_settings {
        match file_course(
            source.config_path,
            target.config_path,
            true,
            options.strategy,
            source.name,
            target.name,
            "settings"@,
            replies,
            at,
        ) {
            Course::Ask(_) => {
                law_dry_file_phase_only_reads(
                    source.config_path,
                    target.config_path,
                    options.strategy,
                    source.name,
                    target.name,
                    "settings"@,
                    replies,
                    at,
                );
            },
            Course::Done(_, next) => {
                lemma_dry_middle_phase(source, target, options, platform, replies, next);
            },
            _ => {},
        }
    } else {
        lemma_dry_middle_phase(source, target, options, platform, replies, at);
    }
}

/// In a dry run, the keybindings phase and what follows it ask only for
/// the text of a file and whether a file exists, whatever the log and the
/// success flag are.
pub proof fn lemma_dry_middle_phase(
    source: IdeProfileView,
    target: IdeProfileView,
    options: SyncOptions,
    platform: Platform,
    replies: Seq<Reply>,
    at: int,
)
    requires
        options.dry_run,
    ensures
        forall|log: Seq<Seq<char>>, success: bool|
            reads_only(
                #[trigger] middle_phase_course(
                    source,
                    target,
                    options,
                    platform,
                    log,
                    success,
                    replies,
                    at,
                ),
            ),
{
    let keys_source = crate::paths::keybindings_path_of(platform, source.config_path);
    let keys_target = crate::paths::keybindings_path_of(platform, target.config_path);
    assert forall|log: Seq<Seq<char>>, success: bool|
        reads_only(
            #[trigger] middle_phase_course(
                source,
                target,
                options,
                platform,
                log,
                success,
                replies,
                at,
            ),
        ) by {
        if options.sync_keybindings && at < replies.len() {
            match replies[at] {
                Reply::Flag(true) => {
                    match file_course(
                        keys_source,
                        keys_target,
                        true,
                        options.strategy,
                        source.name,
                        target.name,
                        "keybindings"@,
                        replies,
                        at + 1,
                    ) {
                        Course::Ask(_) => {
                            law_dry_file_phase_only_reads(
                                keys_source,
                                keys_target,
                                options.strategy,
                                source.name,
                                target.name,
                                "keybindings"@,
                                replies,
                                at + 1,
                            );
                        },
                        _ => {},
                    }
                },
                _ => {},
            }
        }
    }
}

/// Installing extensions never fails: whatever the installations answer,
/// the installing ends with the log.
pub proof fn law_installs_never_fail(
    ids: Seq<Seq<char>>,
    k: int,
    command: Seq<char>,
    target_name: Seq<char>,
    log: Seq<Seq<char>>,
    replies: Seq<Reply>,
    at: int,
)
    ensures
        install_course(ids, k, command, target_name, log, replies, at) matches Course::Done(
            outcome,
            _,
        ) ==> outcome is Ok,
    decreases ids.len() - k,
{
    if !(k < 0 || k >= ids.len()) && at < replies.len() {
        let announced = log.push(installing_text(ids[k], target_name));
        match replies[at] {
            Reply::Process(Ok(output)) => {
                law_installs_never_fail(
                    ids,
                    k + 1,
                    command,
                    target_name,
                    if output.success {
                        announced
                    } else {
                        announced.push(failed_install_text(ids[k], output.stderr@))
                    },
                    replies,
                    at + 1,
                );
            },
            Reply::Process(Err(why)) => {
                law_installs_never_fail(
                    ids,
                    k + 1,
                    command,
                    target_name,
                    announced.push(failed_install_text(ids[k], why@)),
                    replies,
                    at + 1,
                );
            },
            _ => {},
        }
    }
}

/// Installing extensions keeps the lines that the log held before: the log
/// that it ends with begins with them.
pub proof fn lemma_installs_keep_the_log(
    ids: Seq<Seq<char>>,
    k: int,
    command: Seq<char>,
    target_name: Seq<char>,
    log: Seq<Seq<char>>,
    replies: Seq<Reply>,
    at: int,
)
    ensures
        install_course(ids, k, command, target_name, log, replies, at) matches Course::Done(
            Ok(lines),
            _,
        ) ==> log.is_prefix_of(lines),
    decreases ids.len() - k,
{
    if !(k < 0 || k >= ids.len()) && at < replies.len() {
        let announced = log.push(installing_text(ids[k], target_name));
        let next_log = match replies[at] {
            Reply::Process(Ok(output)) => if output.success {
                announced
            } else {
                announced.push(failed_install_text(ids[k], output.stderr@))
            },
            Reply::Process(Err(why)) => announced.push(failed_install_text(ids[k], why@)),
            _ => log,
        };
        if replies[at] is Process {
            lemma_installs_keep_the_log(ids, k + 1, command, target_name, next_log, replies, at + 1);
            match install_course(ids, k + 1, command, target_name, next_log, replies, at + 1) {
                Course::Done(Ok(lines), _) => {
                    assert(log.is_prefix_of(next_log));
                    assert forall|i: int| 0 <= i < log.len() implies log[i] == lines[i] by {
                        assert(next_log[i] == lines[i]);
                        assert(log[i] == next_log[i]);
                    }
                },
                _ => {},
            }
        }
    }
}

/// Every installation that fails leaves a line that names its extension:
/// where the installation of the extension at place `j` ends with a failure
/// or cannot be started, the log holds the line that says so of it.
pub proof fn law_failed_install_is_named(
    ids: Seq<Seq<char>>,
    k: int,
    command: Seq<char>,
    target_name: Seq<char>,
    log: Seq<Seq<char>>,
    replies: Seq<Reply>,
    at: int,
    j: int,
)
    requires
        0 <= k <= j < ids.len(),
        0 <= at,
        install_course(ids, k, command, target_name, log, replies, at) is Done,
    ensures
        at + (j - k) < replies.len(),
        install_course(ids, k, command, target_name, log, replies, at) matches Course::Done(
            Ok(lines),
            _,
        ) && (match replies[at + (j - k)] {
            Reply::Process(Ok(output)) => !output.success ==> lines.contains(
                failed_install_text(ids[j], output.stderr@),
            ),
            Reply::Process(Err(why)) => lines.contains(failed_install_text(ids[j], why@)),
            _ => false,
        }),
    decreases ids.len() - k,
{
    law_installs_never_fail(ids, k, command, target_name, log, replies, at);
    let announced = log.push(installing_text(ids[k], target_name));
    let next_log = match replies[at] {
        Reply::Process(Ok(output)) => if output.success {
            announced
        } else {
            announced.push(failed_install_text(ids[k], output.stderr@))
        },
        Reply::Process(Err(why)) => announced.push(failed_install_text(ids[k], why@)),
        _ => log,
    };
    if k == j {
        lemma_installs_keep_the_log(ids, k + 1, command, target_name, next_log, replies, at + 1);
        let lines = install_course(ids, k, command, target_name, log, replies, at)->Done_0->Ok_0;
        assert(next_log.is_prefix_of(lines));
        if next_log.len() > announced.len() {
            assert(lines[next_log.len() - 1] == next_log[next_log.len() - 1]);
        }
    } else {
        law_failed_install_is_named(
            ids,
            k + 1,
            command,
            target_name,
            next_log,
            replies,
            at + 1,
            j,
        );
    }
}

/// The extensions phase fails only at the listing: where it ends with a
/// failure, the source's command could not be started or ended with a
/// failure, and the failure is a `ProcessError`. No installation fails it.
pub proof fn law_extensions_fail_only_at_listing(
    source_executable: Seq<char>,
    source_name: Seq<char>,
    target_executable: Seq<char>,
    target_name: Seq<char>,
    platform: Platform,
    replies: Seq<Reply>,
    at: int,
)
    ensures
        extensions_course(
            source_executable,
            source_name,
            target_executable,
            target_name,
            platform,
            replies,
            at,
        ) matches Course::Done(Err(error), next) ==> error.0 == ErrorKind::ProcessError && (
        cli_course(platform, source_executable, replies, at) matches Course::Done(_, listed)
            && next == listed + 1 && listed < replies.len() && (match replies[listed] {
            Reply::Process(Ok(output)) => !output.success,
            Reply::Process(Err(_)) => true,
            _ => false,
        })),
{
    match cli_course(platform, source_executable, replies, at) {
        Course::Done(source_command, listed) => {
            if listed < replies.len() {
                match replies[listed] {
                    Reply::Process(Ok(output)) => {
                        if output.success {
                            match cli_course(platform, target_executable, replies, listed + 1) {
                                Course::Done(target_command, start) => {
                                    law_installs_never_fail(
                                        crate::text::text_lines(output.stdout@),
                                        0,
                                        target_command,
                                        target_name,
                                        seq![
                                            crate::extensions::found_text(
                                                crate::text::text_lines(output.stdout@).len(),
                                                source_name,
                                            ),
                                        ],
                                        replies,
                                        start,
                                    );
                                },
                                _ => {},
                            }
                        }
                    },
                    _ => {},
                }
            }
        },
        _ => {},
    }
}

/// Whether a phase went through: it ended, and without a failure.
pub open spec fn went_through<V>(course: Course<Result<V, (ErrorKind, Seq<char>)>>) -> bool {
    course matches Course::Done(Ok(_), _)
}

/// The place behind the replies that a phase read, where it ended.
pub open spec fn end_of<V>(course: Course<V>, otherwise: int) -> int {
    match course {
        Course::Done(_, next) => next,
        _ => otherwise,
    }
}

/// The course of the settings phase of a run.
pub open spec fn settings_phase(
    source: IdeProfileView,
    target: IdeProfileView,
    options: SyncOptions,
    replies: Seq<Reply>,
    at: int,
) -> Course<Result<Seq<Seq<char>>, (ErrorKind, Seq<char>)>> {
    file_course(
        source.config_path,
        target.config_path,
        options.dry_run,
        options.strategy,
        source.name,
        target.name,
        "settings"@,
        replies,
        at,
    )
}

/// The course of the keybindings phase of a run, once the source's
/// keybindings were found to exist.
pub open spec fn keybindings_phase(
    source: IdeProfileView,
    target: IdeProfileView,
    options: SyncOptions,
    platform: Platform,
    replies: Seq<Reply>,
    at: int,
) -> Course<Result<Seq<Seq<char>>, (ErrorKind, Seq<char>)>> {
    file_course(
        keybindings_path_of(platform, source.config_path),
        keybindings_path_of(platform, target.config_path),
        options.dry_run,
        options.strategy,
        source.name,
        target.name,
        "keybindings"@,
        replies,
        at,
    )
}

/// The course of the extensions phase of a run.
pub open spec fn extensions_phase(
    source: IdeProfileView,
    target: IdeProfileView,
    platform: Platform,
    replies: Seq<Reply>,
    at: int,
) -> Course<Result<Seq<Seq<char>>, (ErrorKind, Seq<char>)>> {
    extensions_course(
        source.executable,
        source.name,
        target.executable,
        target.name,
        platform,
        replies,
        at,
    )
}

/// Whether the extensions phase of a run, from the reply at `at` on, leaves
/// the success flag as it is: it does unless it runs and fails.
pub open spec fn extensions_keep_success(
    source: IdeProfileView,
    target: IdeProfileView,
    options: SyncOptions,
    platform: Platform,
    replies: Seq<Reply>,
    at: int,
) -> bool {
    options.sync_extensions && !options.dry_run ==> went_through(
        extensions_phase(source, target, platform, replies, at),
    )
}

/// Whether the keybindings phase of a run, from the reply at `at` on, leaves
/// the success flag as it is: it does unless it runs, finds the source's
/// keybindings and fails.
pub open spec fn keybindings_keep_success(
    source: IdeProfileView,
    target: IdeProfileView,
    options: SyncOptions,
    platform: Platform,
    replies: Seq<Reply>,
    at: int,
) -> bool {
    options.sync_keybindings && at < replies.len() && replies[at] == Reply::Flag(true)
        ==> went_through(keybindings_phase(source, target, options, platform, replies, at + 1))
}

/// The place behind the replies that the keybindings phase read.
pub open spec fn end_of_keybindings(
    source: IdeProfileView,
    target: IdeProfileView,
    options: SyncOptions,
    platform: Platform,
    replies: Seq<Reply>,
    at: int,
) -> int {
    if !options.sync_keybindings {
        at
    } else if at < replies.len() && replies[at] == Reply::Flag(true) {
        end_of(keybindings_phase(source, target, options, platform, replies, at + 1), at + 1)
    } else {
        at + 1
    }
}

/// The extensions phase clears the success flag only where its listing
/// fails: a run that ends has the flag it came with, unless the phase ran
/// and failed.
pub proof fn lemma_last_phase_success(
    source: IdeProfileView,
    target: IdeProfileView,
    options: SyncOptions,
    platform: Platform,
    log: Seq<Seq<char>>,
    success: bool,
    replies: Seq<Reply>,
    at: int,
)
    ensures
        last_phase_course(source, target, options, platform, log, success, replies, at)
            matches Course::Done(result, _) ==> result.success == (success
            && extensions_keep_success(source, target, options, platform, replies, at)),
{
}

/// The keybindings phase and the extensions phase clear the success flag
/// only where they run and fail.
pub proof fn lemma_middle_phase_success(
    source: IdeProfileView,
    target: IdeProfileView,
    options: SyncOptions,
    platform: Platform,
    log: Seq<Seq<char>>,
    success: bool,
    replies: Seq<Reply>,
    at: int,
)
    ensures
        middle_phase_course(source, target, options, platform, log, success, replies, at)
            matches Course::Done(result, _) ==> result.success == (success
            && keybindings_keep_success(source, target, options, platform, replies, at)
            && extensions_keep_success(
            source,
            target,
            options,
            platform,
            replies,
            end_of_keybindings(source, target, options, platform, replies, at),
        )),
{
    let heading = "--- Syncing Keybindings ---"@;
    if !options.sync_keybindings {
        lemma_last_phase_success(source, target, options, platform, log, success, replies, at);
    } else if at < replies.len() {
        match replies[at] {
            Reply::Flag(false) => {
                lemma_last_phase_success(
                    source,
                    target,
                    options,
                    platform,
                    log.push(heading).push("Source keybindings.json not found, skipping."@),
                    success,
                    replies,
                    at + 1,
                );
            },
            Reply::Flag(true) => {
                match keybindings_phase(source, target, options, platform, replies, at + 1) {
                    Course::Done(outcome, next) => {
                        lemma_last_phase_success(
                            source,
                            target,
                            options,
                            platform,
                            crate::sync::log_after_phase(
                                log,
                                heading,
                                "Error syncing keybindings: "@,
                                outcome,
                            ),
                            success && outcome is Ok,
                            replies,
                            next,
                        );
                    },
                    _ => {},
                }
            },
            _ => {},
        }
    }
}

/// A run that ends succeeds exactly where no phase failed. The settings
/// phase fails it where it runs and ends with a failure; the keybindings
/// phase where it runs, finds the source's keybindings and ends with a
/// failure; the extensions phase where it runs, outside a dry run, and
/// ends with a failure. Nothing else clears the flag: no dry run, no
/// keybindings that are missing, no backup, sweep or installation that
/// fails.
pub proof fn law_run_succeeds_unless_a_phase_fails(
    source: IdeProfileView,
    target: IdeProfileView,
    options: SyncOptions,
    platform: Platform,
    replies: Seq<Reply>,
    at: int,
)
    requires
        sync_course(source, target, options, platform, replies, at) is Done,
    ensures
        ({
            let result = sync_course(source, target, options, platform, replies, at)->Done_0;
            let settings = settings_phase(source, target, options, replies, at);
            let after_settings = if options.sync_settings {
                end_of(settings, at)
            } else {
                at
            };
            let after_keybindings = end_of_keybindings(
                source,
                target,
                options,
                platform,
                replies,
                after_settings,
            );
            result.success == ((options.sync_settings ==> went_through(settings))
                && keybindings_keep_success(
                source,
                target,
                options,
                platform,
                replies,
                after_settings,
            ) && extensions_keep_success(
                source,
                target,
                options,
                platform,
                replies,
                after_keybindings,
            ))
        }),
{
    let log = opening_log(source.name, target.name, options.strategy);
    if !options.sync_settings {
        lemma_middle_phase_success(source, target, options, platform, log, true, replies, at);
    } else {
        match settings_phase(source, target, options, replies, at) {
            Course::Done(outcome, next) => {
                lemma_middle_phase_success(
                    source,
                    target,
                    options,
                    platform,
                    crate::sync::log_after_phase(
                        log,
                        "--- Syncing Settings ---"@,
                        "Error syncing settings: "@,
                        outcome,
                    ),
                    outcome is Ok,
                    replies,
                    next,
                );
            },
            _ => {},
        }
    }
}

/// The replies from `at` on let a file phase decide its content: the source
/// is read and is a document, and under the merge strategy the target is
/// missing, or is read and is a document too.
pub open spec fn files_are_documents(strategy: SyncStrategy, replies: Seq<Reply>, at: int) -> bool {
    &&& 0 <= at < replies.len()
    &&& replies[at] matches Reply::Content(Ok(source_text))
    &&& jsonc_document(source_text@) is Some
    &&& strategy == SyncStrategy::Merge ==> {
        &&& at + 1 < replies.len()
        &&& replies[at + 1] is Flag
        &&& replies[at + 1] == Reply::Flag(true) ==> {
            &&& at + 2 < replies.len()
            &&& replies[at + 2] matches Reply::Content(Ok(target_text))
            &&& jsonc_document(target_text@) is Some
        }
    }
}

/// A file phase of a dry run whose files are documents goes through, and
/// the one line that it logs tells where it would write, and by which
/// strategy.
pub proof fn law_dry_file_phase_goes_through(
    source_path: Seq<char>,
    target_path: Seq<char>,
    strategy: SyncStrategy,
    source_ide: Seq<char>,
    target_ide: Seq<char>,
    file_type: Seq<char>,
    replies: Seq<Reply>,
    at: int,
)
    requires
        files_are_documents(strategy, replies, at),
    ensures
        file_course(
            source_path,
            target_path,
            true,
            strategy,
            source_ide,
            target_ide,
            file_type,
            replies,
            at,
        ) matches Course::Done(Ok(lines), _) && lines == seq![dry_run_text(target_path, strategy)],
{
}

/// A dry run of the settings phase alone, whose files are documents,
/// succeeds. Its log opens as every log does and then holds the heading of
/// the phase and the line that tells where the phase would write, and by
/// which strategy.
pub proof fn law_dry_run_of_settings_succeeds(
    source: IdeProfileView,
    target: IdeProfileView,
    options: SyncOptions,
    platform: Platform,
    replies: Seq<Reply>,
    at: int,
)
    requires
        options.dry_run,
        options.sync_settings,
        !options.sync_keybindings,
        !options.sync_extensions,
        files_are_documents(options.strategy, replies, at),
    ensures
        sync_course(source, target, options, platform, replies, at) matches Course::Done(
            result,
            _,
        ) && result == (SyncResultView {
            success: true,
            log: opening_log(source.name, target.name, options.strategy).push(
                "--- Syncing Settings ---"@,
            ).push(dry_run_text(target.config_path, options.strategy)),
        }),
{
    law_dry_file_phase_goes_through(
        source.config_path,
        target.config_path,
        options.strategy,
        source.name,
        target.name,
        "settings"@,
        replies,
        at,
    );
    let log = opening_log(source.name, target.name, options.strategy);
    let line = dry_run_text(target.config_path, options.strategy);
    assert(log.push("--- Syncing Settings ---"@) + seq![line] =~= log.push(
        "--- Syncing Settings ---"@,
    ).push(line));
}

} // verus!
