//! The editors that the program knows, and the discovery of those that are
//! installed.

use crate::backup::plain_failure;
use crate::effects::{course_of, Course, Reply, Request, RequestView, Turn};
use crate::models::{ErrorKind, IdeProfile, IdeProfileView, IdeType, Platform, SyncError};
use crate::paths::{join_path, joined};
use vstd::prelude::*;

pub use crate::paths::get_keybindings_path;

verus! {

/// How many editors the program knows.
pub const KNOWN_IDES: usize = 13;

/// What the program knows of an editor: its identifier, its name, its
/// kind, the directory of its configuration below the user's application
/// data, the directory of its extensions below the user's home, and its
/// command.
pub struct KnownIde {
    pub id: &'static str,
    pub name: &'static str,
    pub ide_type: IdeType,
    pub config_dir: &'static str,
    pub extensions_dir: &'static str,
    pub executable: &'static str,
}

/// The mathematical content of a [`KnownIde`].
pub struct KnownIdeView {
    pub id: Seq<char>,
    pub name: Seq<char>,
    pub ide_type: IdeType,
    pub config_dir: Seq<char>,
    pub extensions_dir: Seq<char>,
    pub executable: Seq<char>,
}

impl View for KnownIde {
    type V = KnownIdeView;

    open spec fn view(&self) -> KnownIdeView {
        KnownIdeView {
            id: self.id@,
            name: self.name@,
            ide_type: self.ide_type,
            config_dir: self.config_dir@,
            extensions_dir: self.extensions_dir@,
            executable: self.executable@,
        }
    }
}

/// The editors that the program knows, in the order in which it looks for
/// them.
pub open spec fn known_ide_at(index: int) -> KnownIdeView {
    if index == 0 {
        KnownIdeView {
            id: "vscode"@,
            name: "Visual Studio Code"@,
            ide_type: IdeType::VSCode,
            config_dir: "Code/User/settings.json"@,
            extensions_dir: ".vscode/extensions"@,
            executable: "code"@,
        }
    } else if index == 1 {
        KnownIdeView {
            id: "vscode-insiders"@,
            name: "VS Code Insiders"@,
            ide_type: IdeType::VSCodeInsiders,
            config_dir: "Code - Insiders/User/settings.json"@,
            extensions_dir: ".vscode-insiders/extensions"@,
            executable: "code-insiders"@,
        }
    } else if index == 2 {
        KnownIdeView {
            id: "vscodium"@,
            name: "VSCodium"@,
            ide_type: IdeType::VSCodium,
            config_dir: "VSCodium/User/settings.json"@,
            extensions_dir: ".vscode-oss/extensions"@,
            executable: "codium"@,
        }
    } else if index == 3 {
        KnownIdeView {
            id: "cursor"@,
            name: "Cursor"@,
            ide_type: IdeType::Cursor,
            config_dir: "Cursor/User/settings.json"@,
            extensions_dir: ".cursor/extensions"@,
            executable: "cursor"@,
        }
    } else if index == 4 {
        KnownIdeView {
            id: "cursor-nightly"@,
            name: "Cursor Nightly"@,
            ide_type: IdeType::CursorNightly,
            config_dir: "Cursor Nightly/User/settings.json"@,
            extensions_dir: ".cursor-nightly/extensions"@,
            executable: "cursor-nightly"@,
        }
    } else if index == 5 {
        KnownIdeView {
            id: "windsurf"@,
            name: "Windsurf"@,
            ide_type: IdeType::Windsurf,
            config_dir: "Windsurf/User/settings.json"@,
            extensions_dir: ".windsurf/extensions"@,
            executable: "windsurf"@,
        }
    } else if index == 6 {
        KnownIdeView {
            id: "antigravity"@,
            name: "Antigravity"@,
            ide_type: IdeType::Antigravity,
            config_dir: "Antigravity/User/settings.json"@,
            extensions_dir: ".antigravity/extensions"@,
            executable: "antigravity"@,
        }
    } else if index == 7 {
        KnownIdeView {
            id: "kiro"@,
            name: "Kiro"@,
            ide_type: IdeType::Kiro,
            config_dir: "Kiro/User/settings.json"@,
            extensions_dir: ".kiro/extensions"@,
            executable: "kiro"@,
        }
    } else if index == 8 {
        KnownIdeView {
            id: "lingma"@,
            name: "Lingma (灵码)"@,
            ide_type: IdeType::Lingma,
            config_dir: "Lingma/User/settings.json"@,
            extensions_dir: ".lingma/extensions"@,
            executable: "lingma"@,
        }
    } else if index == 9 {
        KnownIdeView {
            id: "trae"@,
            name: "Trae"@,
            ide_type: IdeType::Trae,
            config_dir: "Trae/User/settings.json"@,
            extensions_dir: ".trae/extensions"@,
            executable: "trae"@,
        }
    } else if index == 10 {
        KnownIdeView {
            id: "positron"@,
            name: "Positron"@,
            ide_type: IdeType::Positron,
            config_dir: "Positron/User/settings.json"@,
            extensions_dir: ".positron/extensions"@,
            executable: "positron"@,
        }
    } else if index == 11 {
        KnownIdeView {
            id: "codeium"@,
            name: "Codeium"@,
            ide_type: IdeType::Codeium,
            config_dir: "Codeium/User/settings.json"@,
            extensions_dir: ".codeium/extensions"@,
            executable: "codeium"@,
        }
    } else {
        KnownIdeView {
            id: "code-oss"@,
            name: "Code - OSS"@,
            ide_type: IdeType::CodeOSS,
            config_dir: "Code - OSS/User/settings.json"@,
            extensions_dir: ".vscode-oss/extensions"@,
            executable: "code-oss"@,
        }
    }
}

/// The editor that the program looks for at the given place of its order.
pub fn known_ide(index: usize) -> (r: KnownIde)
    ensures
        r@ == known_ide_at(index as int),
{
    if index == 0 {
        KnownIde {
            id: "vscode",
            name: "Visual Studio Code",
            ide_type: IdeType::VSCode,
            config_dir: "Code/User/settings.json",
            extensions_dir: ".vscode/extensions",
            executable: "code",
        }
    } else if index == 1 {
        KnownIde {
            id: "vscode-insiders",
            name: "VS Code Insiders",
            ide_type: IdeType::VSCodeInsiders,
            config_dir: "Code - Insiders/User/settings.json",
            extensions_dir: ".vscode-insiders/extensions",
            executable: "code-insiders",
        }
    } else if index == 2 {
        KnownIde {
            id: "vscodium",
            name: "VSCodium",
            ide_type: IdeType::VSCodium,
            config_dir: "VSCodium/User/settings.json",
            extensions_dir: ".vscode-oss/extensions",
            executable: "codium",
        }
    } else if index == 3 {
        KnownIde {
            id: "cursor",
            name: "Cursor",
            ide_type: IdeType::Cursor,
            config_dir: "Cursor/User/settings.json",
            extensions_dir: ".cursor/extensions",
            executable: "cursor",
        }
    } else if index == 4 {
        KnownIde {
            id: "cursor-nightly",
            name: "Cursor Nightly",
            ide_type: IdeType::CursorNightly,
            config_dir: "Cursor Nightly/User/settings.json",
            extensions_dir: ".cursor-nightly/extensions",
            executable: "cursor-nightly",
        }
    } else if index == 5 {
        KnownIde {
            id: "windsurf",
            name: "Windsurf",
            ide_type: IdeType::Windsurf,
            config_dir: "Windsurf/User/settings.json",
            extensions_dir: ".windsurf/extensions",
            executable: "windsurf",
        }
    } else if index == 6 {
        KnownIde {
            id: "antigravity",
            name: "Antigravity",
            ide_type: IdeType::Antigravity,
            config_dir: "Antigravity/User/settings.json",
            extensions_dir: ".antigravity/extensions",
            executable: "antigravity",
        }
    } else if index == 7 {
        KnownIde {
            id: "kiro",
            name: "Kiro",
            ide_type: IdeType::Kiro,
            config_dir: "Kiro/User/settings.json",
            extensions_dir: ".kiro/extensions",
            executable: "kiro",
        }
    } else if index == 8 {
        KnownIde {
            id: "lingma",
            name: "Lingma (灵码)",
            ide_type: IdeType::Lingma,
            config_dir: "Lingma/User/settings.json",
            extensions_dir: ".lingma/extensions",
            executable: "lingma",
        }
    } else if index == 9 {
        KnownIde {
            id: "trae",
            name: "Trae",
            ide_type: IdeType::Trae,
            config_dir: "Trae/User/settings.json",
            extensions_dir: ".trae/extensions",
            executable: "trae",
        }
    } else if index == 10 {
        KnownIde {
            id: "positron",
            name: "Positron",
            ide_type: IdeType::Positron,
            config_dir: "Positron/User/settings.json",
            extensions_dir: ".positron/extensions",
            executable: "positron",
        }
    } else if index == 11 {
        KnownIde {
            id: "codeium",
            name: "Codeium",
            ide_type: IdeType::Codeium,
            config_dir: "Codeium/User/settings.json",
            extensions_dir: ".codeium/extensions",
            executable: "codeium",
        }
    } else {
        KnownIde {
            id: "code-oss",
            name: "Code - OSS",
            ide_type: IdeType::CodeOSS,
            config_dir: "Code - OSS/User/settings.json",
            extensions_dir: ".vscode-oss/extensions",
            executable: "code-oss",
        }
    }
}

/// The profile of a known editor on a machine whose home directory and
/// whose directory of application data are given.
pub open spec fn profile_of(
    platform: Platform,
    home: Seq<char>,
    library: Seq<char>,
    index: int,
) -> IdeProfileView {
    let known = known_ide_at(index);
    IdeProfileView {
        id: known.id,
        name: known.name,
        ide_type: known.ide_type,
        config_path: joined(platform, library, known.config_dir),
        extensions_path: joined(platform, home, known.extensions_dir),
        executable: known.executable,
        is_detected: true,
    }
}

/// The profile of a known editor on a machine whose home directory and
/// whose directory of application data are given.
pub fn known_profile(platform: Platform, home: &str, library: &str, index: usize) -> (r:
    IdeProfile)
    ensures
        r@ == profile_of(platform, home@, library@, index as int),
{
    let known = known_ide(index);
    IdeProfile {
        id: String::from_str(known.id),
        name: String::from_str(known.name),
        ide_type: known.ide_type,
        config_path: join_path(platform, library, known.config_dir),
        extensions_path: join_path(platform, home, known.extensions_dir),
        executable: String::from_str(known.executable),
        is_detected: true,
    }
}

/// The models of a list of profiles, one by one.
pub open spec fn profiles_view(profiles: Seq<IdeProfile>) -> Seq<IdeProfileView> {
    profiles.map_values(|p: IdeProfile| p@)
}

/// The model of a discovery's result: the profiles, or its failure.
pub open spec fn discovery_view(outcome: Result<Vec<IdeProfile>, SyncError>) -> Result<
    Seq<IdeProfileView>,
    (ErrorKind, Seq<char>),
> {
    match outcome {
        Ok(profiles) => Ok(profiles_view(profiles@)),
        Err(error) => Err(error@),
    }
}

/// The course of looking for the known editors from place `k` on, `found`
/// being the profiles of those that were found so far: an editor is
/// installed where its settings file exists.
pub open spec fn probing_course(
    platform: Platform,
    home: Seq<char>,
    library: Seq<char>,
    k: int,
    found: Seq<IdeProfileView>,
    replies: Seq<Reply>,
    at: int,
) -> Course<Result<Seq<IdeProfileView>, (ErrorKind, Seq<char>)>>
    decreases KNOWN_IDES - k,
{
    if k < 0 || k >= KNOWN_IDES {
        Course::Done(Ok(found), at)
    } else if at >= replies.len() {
        Course::Ask(RequestView::Exists(profile_of(platform, home, library, k).config_path))
    } else {
        match replies[at] {
            Reply::Flag(true) => probing_course(
                platform,
                home,
                library,
                k + 1,
                found.push(profile_of(platform, home, library, k)),
                replies,
                at + 1,
            ),
            Reply::Flag(false) => probing_course(
                platform,
                home,
                library,
                k + 1,
                found,
                replies,
                at + 1,
            ),
            _ => Course::Misfit,
        }
    }
}

/// The course of discovering the installed editors, from the reply at `at`
/// on.
///
/// It asks for the user's home directory and fails with `NotFound` where
/// there is none. The directory of application data lies below the home
/// directory; on Windows it is asked for, and lies below the home directory
/// only where the answer is none.
pub open spec fn discovery_course(platform: Platform, replies: Seq<Reply>, at: int) -> Course<
    Result<Seq<IdeProfileView>, (ErrorKind, Seq<char>)>,
> {
    if at >= replies.len() {
        Course::Ask(RequestView::HomeDir)
    } else {
        match replies[at] {
            Reply::Dir(None) => Course::Done(
                Err((ErrorKind::NotFound, "Could not find home directory"@)),
                at + 1,
            ),
            Reply::Dir(Some(home)) => match platform {
                Platform::MacOs => probing_course(
                    platform,
                    home@,
                    joined(platform, home@, "Library/Application Support"@),
                    0,
                    Seq::empty(),
                    replies,
                    at + 1,
                ),
                Platform::Linux => probing_course(
                    platform,
                    home@,
                    joined(platform, home@, ".config"@),
                    0,
                    Seq::empty(),
                    replies,
                    at + 1,
                ),
                Platform::Windows => if at + 1 >= replies.len() {
                    Course::Ask(RequestView::DataDir)
                } else {
                    match replies[at + 1] {
                        Reply::Dir(Some(data)) => probing_course(
                            platform,
                            home@,
                            data@,
                            0,
                            Seq::empty(),
                            replies,
                            at + 2,
                        ),
                        Reply::Dir(None) => probing_course(
                            platform,
                            home@,
                            joined(platform, home@, "AppData/Roaming"@),
                            0,
                            Seq::empty(),
                            replies,
                            at + 2,
                        ),
                        _ => Course::Misfit,
                    }
                },
            },
            _ => Course::Misfit,
        }
    }
}

/// Discovers the installed editors, reading the replies from position `at`
/// on. The result holds their profiles in the order of the known editors.
pub fn get_default_ides(platform: Platform, replies: &Vec<Reply>, at: usize) -> (r: Turn<
    Result<Vec<IdeProfile>, SyncError>,
>)
    ensures
        course_of(r, |o: Result<Vec<IdeProfile>, SyncError>| discovery_view(o))
            == discovery_course(platform, replies@, at as int),
{
    if at >= replies.len() {
        return Turn::Ask(Request::HomeDir);
    }
    let home = match &replies[at] {
        Reply::Dir(None) => {
            return Turn::Done(
                Err(plain_failure(ErrorKind::NotFound, "Could not find home directory")),
                at + 1,
            );
        },
        Reply::Dir(Some(home)) => home.as_str(),
        _ => {
            return Turn::Misfit;
        },
    };
    let mut next: usize = at + 1;
    let library = match platform {
        Platform::MacOs => join_path(platform, home, "Library/Application Support"),
        Platform::Linux => join_path(platform, home, ".config"),
        Platform::Windows => {
            if at + 1 >= replies.len() {
                return Turn::Ask(Request::DataDir);
            }
            next = at + 2;
            match &replies[at + 1] {
                Reply::Dir(Some(data)) => data.clone(),
                Reply::Dir(None) => join_path(platform, home, "AppData/Roaming"),
                _ => {
                    return Turn::Misfit;
                },
            }
        },
    };
    let mut found: Vec<IdeProfile> = Vec::new();
    let mut k: usize = 0;
    assert(profiles_view(found@) =~= Seq::<IdeProfileView>::empty());
    while k < KNOWN_IDES
        invariant
            k <= KNOWN_IDES,
            probing_course(
                platform,
                home@,
                library@,
                k as int,
                profiles_view(found@),
                replies@,
                next as int,
            ) == discovery_course(platform, replies@, at as int),
        decreases KNOWN_IDES - k,
    {
        let profile = known_profile(platform, home, library.as_str(), k);
        if next >= replies.len() {
            return Turn::Ask(Request::Exists(profile.config_path));
        }
        match &replies[next] {
            Reply::Flag(present) => {
                if *present {
                    assert(profiles_view(found@.push(profile)) =~= profiles_view(found@).push(
                        profile@,
                    ));
                    found.push(profile);
                }
            },
            _ => {
                return Turn::Misfit;
            },
        }
        next = next + 1;
        k += 1;
    }
    Turn::Done(Ok(found), next)
}

/// The place of the first profile with the identifier `id`.
pub open spec fn profile_index(profiles: Seq<IdeProfile>, id: Seq<char>) -> Option<int>
    decreases profiles.len(),
{
    if profiles.len() == 0 {
        None
    } else {
        match profile_index(profiles.drop_last(), id) {
            Some(i) => Some(i),
            None => if profiles.last().id@ == id {
                Some(profiles.len() - 1)
            } else {
                None
            },
        }
    }
}

/// The place of the first profile with the identifier `id`.
pub fn find_profile(profiles: &Vec<IdeProfile>, id: &str) -> (r: Option<usize>)
    ensures
        match r {
            Some(i) => profile_index(profiles@, id@) == Some(i as int) && i < profiles.len(),
            None => profile_index(profiles@, id@) is None,
        },
{
    let wanted = String::from_str(id);
    let mut i: usize = 0;
    while i < profiles.len()
        invariant
            i <= profiles.len(),
            wanted@ == id@,
            profile_index(profiles@.take(i as int), id@) is None,
        decreases profiles.len() - i,
    {
        proof {
            assert(profiles@.take(i + 1).drop_last() =~= profiles@.take(i as int));
        }
        if profiles[i].id == wanted {
            proof {
                lemma_profile_index_extends(profiles@, id@, i as int);
            }
            return Some(i);
        }
        i += 1;
    }
    proof {
        assert(profiles@.take(profiles.len() as int) =~= profiles@);
    }
    None
}

/// A profile that is found among the first of a list is found at the same
/// place in the whole list.
pub proof fn lemma_profile_index_extends(profiles: Seq<IdeProfile>, id: Seq<char>, i: int)
    requires
        0 <= i < profiles.len(),
        profile_index(profiles.take(i + 1), id) == Some(i),
    ensures
        profile_index(profiles, id) == Some(i),
    decreases profiles.len(),
{
    if profiles.len() > i + 1 {
        let front = profiles.drop_last();
        assert(front.take(i + 1) =~= profiles.take(i + 1));
        lemma_profile_index_extends(front, id, i);
    } else {
        assert(profiles.take(i + 1) =~= profiles);
    }
}

} // verus!
