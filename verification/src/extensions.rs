//! The extension reconciler: where an installation's command lies, which
//! extensions the source has, and their installation on the target.

use crate::backup::{failure, plain_failure};
use crate::effects::{course_of, Course, Reply, Request, RequestView, Turn};
use crate::models::{ErrorKind, IdeProfile, Platform, SyncError};
use crate::paths::{join_path, joined};
use crate::sync::lines_view;
use crate::text::{decimal, decimal_text, lines, text_lines, texts_view};
use vstd::prelude::*;

verus! {

/// Whether the two texts are the same.
pub fn same_text(a: &str, b: &str) -> (r: bool)
    ensures
        r == (a@ == b@),
{
    String::from_str(a) == String::from_str(b)
}

/// Where the command of a known editor lies inside its application bundle
/// on macOS.
pub open spec fn bundle_path_of(executable: Seq<char>) -> Option<Seq<char>> {
    if executable == "code"@ {
        Some("/Applications/Visual Studio Code.app/Contents/Resources/app/bin/code"@)
    } else if executable == "code-insiders"@ {
        Some(
            "/Applications/Visual Studio Code - Insiders.app/Contents/Resources/app/bin/code-insiders"@,
        )
    } else if executable == "codium"@ {
        Some("/Applications/VSCodium.app/Contents/Resources/app/bin/codium"@)
    } else if executable == "cursor"@ {
        Some("/Applications/Cursor.app/Contents/Resources/app/bin/cursor"@)
    } else if executable == "cursor-nightly"@ {
        Some("/Applications/Cursor Nightly.app/Contents/Resources/app/bin/cursor-nightly"@)
    } else if executable == "windsurf"@ {
        Some("/Applications/Windsurf.app/Contents/Resources/app/bin/windsurf"@)
    } else if executable == "antigravity"@ {
        Some("/Applications/Antigravity.app/Contents/Resources/app/bin/antigravity"@)
    } else if executable == "kiro"@ {
        Some("/Applications/Kiro.app/Contents/Resources/app/bin/kiro"@)
    } else if executable == "lingma"@ {
        Some("/Applications/Lingma.app/Contents/Resources/app/bin/lingma"@)
    } else if executable == "trae"@ {
        Some("/Applications/Trae.app/Contents/Resources/app/bin/trae"@)
    } else if executable == "positron"@ {
        Some("/Applications/Positron.app/Contents/Resources/app/bin/positron"@)
    } else if executable == "codeium"@ {
        Some("/Applications/Codeium.app/Contents/Resources/app/bin/codeium"@)
    } else if executable == "code-oss"@ {
        Some("/Applications/Code - OSS.app/Contents/Resources/app/bin/code-oss"@)
    } else {
        None
    }
}

/// Where the command of a known editor may lie on Windows, in the order in
/// which the places are tried, given the directory of the user's local
/// application data.
pub open spec fn windows_paths_of(executable: Seq<char>, local_data: Seq<char>) -> Seq<Seq<char>> {
    if executable == "code"@ {
        seq![
            joined(Platform::Windows, local_data, "Programs/Microsoft VS Code/bin/code.cmd"@),
            "C:/Program Files/Microsoft VS Code/bin/code.cmd"@,
        ]
    } else if executable == "cursor"@ {
        seq![
            joined(Platform::Windows, local_data, "Programs/cursor/resources/app/bin/cursor.cmd"@),
            joined(Platform::Windows, local_data, "cursor/Cursor.exe"@),
        ]
    } else if executable == "windsurf"@ {
        seq![joined(Platform::Windows, local_data, "Programs/Windsurf/bin/windsurf.cmd"@)]
    } else {
        Seq::empty()
    }
}

/// The well-known places of an editor's command on a platform, in the order
/// in which they are tried.
pub open spec fn cli_candidates(
    platform: Platform,
    executable: Seq<char>,
    local_data: Option<Seq<char>>,
) -> Seq<Seq<char>> {
    match platform {
        Platform::MacOs => match bundle_path_of(executable) {
            Some(path) => seq![path],
            None => Seq::empty(),
        },
        Platform::Windows => match local_data {
            Some(directory) => windows_paths_of(executable, directory),
            None => Seq::empty(),
        },
        Platform::Linux => Seq::empty(),
    }
}

/// The well-known places of an editor's command on a platform.
pub fn known_cli_paths(platform: Platform, executable: &str, local_data: Option<&str>) -> (r: Vec<
    String,
>)
    ensures
        texts_view(r@) == cli_candidates(
            platform,
            executable@,
            match local_data {
                Some(directory) => Some(directory@),
                None => None,
            },
        ),
{
    let mut out: Vec<String> = Vec::new();
    match platform {
        Platform::MacOs => {
            let found: Option<&'static str> = if same_text(executable, "code") {
                Some("/Applications/Visual Studio Code.app/Contents/Resources/app/bin/code")
            } else if same_text(executable, "code-insiders") {
                Some(
                    "/Applications/Visual Studio Code - Insiders.app/Contents/Resources/app/bin/code-insiders",
                )
            } else if same_text(executable, "codium") {
                Some("/Applications/VSCodium.app/Contents/Resources/app/bin/codium")
            } else if same_text(executable, "cursor") {
                Some("/Applications/Cursor.app/Contents/Resources/app/bin/cursor")
            } else if same_text(executable, "cursor-nightly") {
                Some("/Applications/Cursor Nightly.app/Contents/Resources/app/bin/cursor-nightly")
            } else if same_text(executable, "windsurf") {
                Some("/Applications/Windsurf.app/Contents/Resources/app/bin/windsurf")
            } else if same_text(executable, "antigravity") {
                Some("/Applications/Antigravity.app/Contents/Resources/app/bin/antigravity")
            } else if same_text(executable, "kiro") {
                Some("/Applications/Kiro.app/Contents/Resources/app/bin/kiro")
            } else if same_text(executable, "lingma") {
                Some("/Applications/Lingma.app/Contents/Resources/app/bin/lingma")
            } else if same_text(executable, "trae") {
                Some("/Applications/Trae.app/Contents/Resources/app/bin/trae")
            } else if same_text(executable, "positron") {
                Some("/Applications/Positron.app/Contents/Resources/app/bin/positron")
            } else if same_text(executable, "codeium") {
                Some("/Applications/Codeium.app/Contents/Resources/app/bin/codeium")
            } else if same_text(executable, "code-oss") {
                Some("/Applications/Code - OSS.app/Contents/Resources/app/bin/code-oss")
            } else {
                None
            };
            match found {
                Some(path) => {
                    out.push(String::from_str(path));
                },
                None => {},
            }
        },
        Platform::Windows => match local_data {
            Some(directory) => {
                if same_text(executable, "code") {
                    out.push(
                        join_path(platform, directory, "Programs/Microsoft VS Code/bin/code.cmd"),
                    );
                    out.push(String::from_str("C:/Program Files/Microsoft VS Code/bin/code.cmd"));
                } else if same_text(executable, "cursor") {
                    out.push(
                        join_path(
                            platform,
                            directory,
                            "Programs/cursor/resources/app/bin/cursor.cmd",
                        ),
                    );
                    out.push(join_path(platform, directory, "cursor/Cursor.exe"));
                } else if same_text(executable, "windsurf") {
                    out.push(join_path(platform, directory, "Programs/Windsurf/bin/windsurf.cmd"));
                }
            },
            None => {},
        },
        Platform::Linux => {},
    }
    assert(texts_view(out@) =~= cli_candidates(
        platform,
        executable@,
        match local_data {
            Some(directory) => Some(directory@),
            None => None,
        },
    ));
    out
}

/// The course of trying the places from `k` on: the first that exists is
/// the command's path; where none does, it is the bare command name.
pub open spec fn probe_course(
    candidates: Seq<Seq<char>>,
    k: int,
    fallback: Seq<char>,
    replies: Seq<Reply>,
    at: int,
) -> Course<Seq<char>>
    decreases candidates.len() - k,
{
    if k < 0 || k >= candidates.len() {
        Course::Done(fallback, at)
    } else if at >= replies.len() {
        Course::Ask(RequestView::Exists(candidates[k]))
    } else {
        match replies[at] {
            Reply::Flag(true) => Course::Done(candidates[k], at + 1),
            Reply::Flag(false) => probe_course(candidates, k + 1, fallback, replies, at + 1),
            _ => Course::Misfit,
        }
    }
}

/// The course of finding an editor's command, from the reply at `at` on.
/// On Windows it first asks for the directory of the user's local
/// application data; without one there is no place to try.
pub open spec fn cli_course(
    platform: Platform,
    executable: Seq<char>,
    replies: Seq<Reply>,
    at: int,
) -> Course<Seq<char>> {
    match platform {
        Platform::Windows => if at >= replies.len() {
            Course::Ask(RequestView::LocalDataDir)
        } else {
            match replies[at] {
                Reply::Dir(Some(directory)) => probe_course(
                    cli_candidates(platform, executable, Some(directory@)),
                    0,
                    executable,
                    replies,
                    at + 1,
                ),
                Reply::Dir(None) => Course::Done(executable, at + 1),
                _ => Course::Misfit,
            }
        },
        _ => probe_course(cli_candidates(platform, executable, None), 0, executable, replies, at),
    }
}

/// Finds the command of an editor: its well-known path where that exists,
/// else its bare name. The replies are read from position `at` on.
pub fn get_cli_path(executable: &str, platform: Platform, replies: &Vec<Reply>, at: usize) -> (r:
    Turn<String>)
    ensures
        course_of(r, |path: String| path@) == cli_course(
            platform,
            executable@,
            replies@,
            at as int,
        ),
{
    let mut next: usize = at;
    let candidates = match platform {
        Platform::Windows => {
            if at >= replies.len() {
                return Turn::Ask(Request::LocalDataDir);
            }
            next = at + 1;
            match &replies[at] {
                Reply::Dir(Some(directory)) => known_cli_paths(
                    platform,
                    executable,
                    Some(directory.as_str()),
                ),
                Reply::Dir(None) => {
                    return Turn::Done(String::from_str(executable), at + 1);
                },
                _ => {
                    return Turn::Misfit;
                },
            }
        },
        _ => known_cli_paths(platform, executable, None),
    };
    let mut k: usize = 0;
    while k < candidates.len()
        invariant
            k <= candidates.len(),
            probe_course(texts_view(candidates@), k as int, executable@, replies@, next as int)
                == cli_course(platform, executable@, replies@, at as int),
        decreases candidates.len() - k,
    {
        assert(texts_view(candidates@)[k as int] == candidates[k as int]@);
        if next >= replies.len() {
            return Turn::Ask(Request::Exists(candidates[k].clone()));
        }
        match &replies[next] {
            Reply::Flag(found) => {
                if *found {
                    return Turn::Done(candidates[k].clone(), next + 1);
                }
            },
            _ => {
                return Turn::Misfit;
            },
        }
        next = next + 1;
        k += 1;
    }
    Turn::Done(String::from_str(executable), next)
}

/// The line that reports how many extensions the source has.
pub open spec fn found_text(count: nat, source_name: Seq<char>) -> Seq<char> {
    "Found "@ + decimal_text(count) + " extensions in "@ + source_name
}

/// The line that announces the installation of an extension.
pub open spec fn installing_text(id: Seq<char>, target_name: Seq<char>) -> Seq<char> {
    "Installing "@ + id + " on "@ + target_name + "..."@
}

/// The line that reports an installation that failed: it names the
/// extension and tells why.
pub open spec fn failed_install_text(id: Seq<char>, why: Seq<char>) -> Seq<char> {
    "Failed to install "@ + id + ": "@ + why
}

/// The arguments that make a command list its extensions.
pub open spec fn list_arguments() -> Seq<Seq<char>> {
    seq!["--list-extensions"@]
}

/// The arguments that make a command install an extension.
pub open spec fn install_arguments(id: Seq<char>) -> Seq<Seq<char>> {
    seq!["--install-extension"@, id]
}

/// The course of installing the extensions from `k` on with the target's
/// command, `log` being the lines so far.
///
/// Each installation is announced and run. One that ends with a failure, or
/// that cannot be started, leaves a line that names the extension and tells
/// why: what the command wrote as its error, or why it did not start. The
/// next one follows all the same.
pub open spec fn install_course(
    ids: Seq<Seq<char>>,
    k: int,
    command: Seq<char>,
    target_name: Seq<char>,
    log: Seq<Seq<char>>,
    replies: Seq<Reply>,
    at: int,
) -> Course<Result<Seq<Seq<char>>, (ErrorKind, Seq<char>)>>
    decreases ids.len() - k,
{
    if k < 0 || k >= ids.len() {
        Course::Done(Ok(log), at)
    } else if at >= replies.len() {
        Course::Ask(RequestView::Run(command, install_arguments(ids[k])))
    } else {
        let announced = log.push(installing_text(ids[k], target_name));
        match replies[at] {
            Reply::Process(Ok(output)) => install_course(
                ids,
                k + 1,
                command,
                target_name,
                if output.success {
                    announced
                } else {
                    announced.push(failed_install_text(ids[k], output.stderr@))
                },
                replies,
                at + 1,
            ),
            Reply::Process(Err(why)) => install_course(
                ids,
                k + 1,
                command,
                target_name,
                announced.push(failed_install_text(ids[k], why@)),
                replies,
                at + 1,
            ),
            _ => Course::Misfit,
        }
    }
}

/// The course of the extensions phase once the source's command is known.
///
/// The command is run to list the extensions. Where it cannot be started
/// or ends with a failure, the phase fails with `ProcessError`. Else every
/// line of its output is an extension; their number is logged, the
/// target's command is found, and the extensions are installed in order.
pub open spec fn listing_course(
    source_command: Seq<char>,
    source_executable: Seq<char>,
    source_name: Seq<char>,
    target_executable: Seq<char>,
    target_name: Seq<char>,
    platform: Platform,
    replies: Seq<Reply>,
    at: int,
) -> Course<Result<Seq<Seq<char>>, (ErrorKind, Seq<char>)>> {
    if at >= replies.len() {
        Course::Ask(RequestView::Run(source_command, list_arguments()))
    } else {
        match replies[at] {
            Reply::Process(Err(_)) => Course::Done(
                Err(
                    (
                        ErrorKind::ProcessError,
                        "Failed to run '"@ + source_executable
                            + "'. CLI not found or not installed."@,
                    ),
                ),
                at + 1,
            ),
            Reply::Process(Ok(output)) => if !output.success {
                Course::Done(Err((ErrorKind::ProcessError, output.stderr@)), at + 1)
            } else {
                match cli_course(platform, target_executable, replies, at + 1) {
                    Course::Ask(request) => Course::Ask(request),
                    Course::Misfit => Course::Misfit,
                    Course::Done(target_command, next) => install_course(
                        text_lines(output.stdout@),
                        0,
                        target_command,
                        target_name,
                        seq![found_text(text_lines(output.stdout@).len(), source_name)],
                        replies,
                        next,
                    ),
                }
            },
            _ => Course::Misfit,
        }
    }
}

/// The course of the extensions phase, from the reply at `at` on: the
/// source's command is found, then the listing and the installations
/// follow.
pub open spec fn extensions_course(
    source_executable: Seq<char>,
    source_name: Seq<char>,
    target_executable: Seq<char>,
    target_name: Seq<char>,
    platform: Platform,
    replies: Seq<Reply>,
    at: int,
) -> Course<Result<Seq<Seq<char>>, (ErrorKind, Seq<char>)>> {
    match cli_course(platform, source_executable, replies, at) {
        Course::Ask(request) => Course::Ask(request),
        Course::Misfit => Course::Misfit,
        Course::Done(source_command, next) => listing_course(
            source_command,
            source_executable,
            source_name,
            target_executable,
            target_name,
            platform,
            replies,
            next,
        ),
    }
}

/// A list that holds the given texts.
fn arguments(first: &str, second: Option<&str>) -> (r: Vec<String>)
    ensures
        texts_view(r@) == match second {
            Some(text) => seq![first@, text@],
            None => seq![first@],
        },
{
    let mut out: Vec<String> = Vec::new();
    out.push(String::from_str(first));
    match second {
        Some(text) => {
            out.push(String::from_str(text));
        },
        None => {},
    }
    assert(texts_view(out@) =~= match second {
        Some(text) => seq![first@, text@],
        None => seq![first@],
    });
    out
}

/// Adds a line to a log.
pub fn log_line(log: &mut Vec<String>, line: String)
    ensures
        texts_view(final(log)@) == texts_view(old(log)@).push(line@),
{
    assert(texts_view(log@.push(line)) =~= texts_view(log@).push(line@));
    log.push(line);
}

/// Brings the source's extensions to the target, reading the replies from
/// position `at` on. The result holds the lines for the log. It fails only
/// where the listing of the source's extensions fails; an installation
/// that fails leaves its line and no more.
pub fn sync_extensions_cli(
    source: &IdeProfile,
    target: &IdeProfile,
    platform: Platform,
    replies: &Vec<Reply>,
    at: usize,
) -> (r: Turn<Result<Vec<String>, SyncError>>)
    ensures
        course_of(r, |o: Result<Vec<String>, SyncError>| lines_view(o)) == extensions_course(
            source.executable@,
            source.name@,
            target.executable@,
            target.name@,
            platform,
            replies@,
            at as int,
        ),
        r matches Turn::Done(Err(error), _) ==> error.kind == ErrorKind::ProcessError,
{
    proof {
        crate::sync_laws::law_extensions_fail_only_at_listing(
            source.executable@,
            source.name@,
            target.executable@,
            target.name@,
            platform,
            replies@,
            at as int,
        );
    }
    let source_executable = source.executable.as_str();
    let source_name = source.name.as_str();
    let target_executable = target.executable.as_str();
    let target_name = target.name.as_str();
    let (source_command, listed) = match get_cli_path(source_executable, platform, replies, at) {
        Turn::Ask(request) => {
            return Turn::Ask(request);
        },
        Turn::Misfit => {
            return Turn::Misfit;
        },
        Turn::Done(command, next) => (command, next),
    };
    if listed >= replies.len() {
        return Turn::Ask(Request::Run(source_command, arguments("--list-extensions", None)));
    }
    let output = match &replies[listed] {
        Reply::Process(Err(_)) => {
            let mut message = String::from_str("Failed to run '");
            message.append(source_executable);
            message.append("'. CLI not found or not installed.");
            return Turn::Done(
                Err(SyncError { kind: ErrorKind::ProcessError, message }),
                listed + 1,
            );
        },
        Reply::Process(Ok(output)) => output,
        _ => {
            return Turn::Misfit;
        },
    };
    if !output.success {
        return Turn::Done(
            Err(plain_failure(ErrorKind::ProcessError, output.stderr.as_str())),
            listed + 1,
        );
    }
    let ids = lines(output.stdout.as_str());
    let (target_command, start) = match get_cli_path(
        target_executable,
        platform,
        replies,
        listed + 1,
    ) {
        Turn::Ask(request) => {
            return Turn::Ask(request);
        },
        Turn::Misfit => {
            return Turn::Misfit;
        },
        Turn::Done(command, next) => (command, next),
    };
    let mut log: Vec<String> = Vec::new();
    let mut found = String::from_str("Found ");
    found.append(decimal(ids.len() as u64).as_str());
    found.append(" extensions in ");
    found.append(source_name);
    assert(texts_view(log@) =~= Seq::<Seq<char>>::empty());
    log_line(&mut log, found);
    assert(texts_view(log@) =~= seq![found_text(ids@.len(), source_name@)]);
    let mut next: usize = start;
    let mut k: usize = 0;
    while k < ids.len()
        invariant
            k <= ids.len(),
            source_executable@ == source.executable@,
            source_name@ == source.name@,
            target_executable@ == target.executable@,
            target_name@ == target.name@,
            install_course(
                texts_view(ids@),
                k as int,
                target_command@,
                target_name@,
                texts_view(log@),
                replies@,
                next as int,
            ) == extensions_course(
                source_executable@,
                source_name@,
                target_executable@,
                target_name@,
                platform,
                replies@,
                at as int,
            ),
        decreases ids.len() - k,
    {
        let id = ids[k].as_str();
        assert(texts_view(ids@)[k as int] == id@);
        if next >= replies.len() {
            return Turn::Ask(
                Request::Run(target_command, arguments("--install-extension", Some(id))),
            );
        }
        let mut announce = String::from_str("Installing ");
        announce.append(id);
        announce.append(" on ");
        announce.append(target_name);
        announce.append("...");
        let why = match &replies[next] {
            Reply::Process(Ok(output)) => {
                if output.success {
                    None
                } else {
                    Some(output.stderr.as_str())
                }
            },
            Reply::Process(Err(why)) => Some(why.as_str()),
            _ => {
                return Turn::Misfit;
            },
        };
        log_line(&mut log, announce);
        match why {
            Some(why) => {
                let mut failed = String::from_str("Failed to install ");
                failed.append(id);
                failed.append(": ");
                failed.append(why);
                log_line(&mut log, failed);
            },
            None => {},
        }
        next = next + 1;
        k += 1;
    }
    Turn::Done(Ok(log), next)
}

} // verus!
