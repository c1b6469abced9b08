//! The data that a synchronisation works on: profiles of installations, the
//! options of one run, its result, and the errors that a step can end with.

use vstd::prelude::*;

verus! {

/// The editors that the program knows.
#[derive(Clone, Copy, Debug, PartialEq, Eq, Structural)]
pub enum IdeType {
    VSCode,
    VSCodeInsiders,
    VSCodium,
    Cursor,
    CursorNightly,
    Windsurf,
    Antigravity,
    Kiro,
    Lingma,
    Trae,
    Positron,
    Codeium,
    CodeOSS,
    Unknown,
}

/// The family of operating systems that the program runs on. It decides
/// where installations keep their files.
#[derive(Clone, Copy, Debug, PartialEq, Eq, Structural)]
pub enum Platform {
    MacOs,
    Windows,
    Linux,
}

/// A named installation with its settings file, its extensions directory
/// and the command that manages its extensions.
#[derive(Clone, Debug)]
pub struct IdeProfile {
    pub id: String,
    pub name: String,
    pub ide_type: IdeType,
    pub config_path: String,
    pub extensions_path: String,
    pub executable: String,
    pub is_detected: bool,
}

/// The mathematical content of an [`IdeProfile`].
pub struct IdeProfileView {
    pub id: Seq<char>,
    pub name: Seq<char>,
    pub ide_type: IdeType,
    pub config_path: Seq<char>,
    pub extensions_path: Seq<char>,
    pub executable: Seq<char>,
    pub is_detected: bool,
}

impl View for IdeProfile {
    type V = IdeProfileView;

    open spec fn view(&self) -> IdeProfileView {
        IdeProfileView {
            id: self.id@,
            name: self.name@,
            ide_type: self.ide_type,
            config_path: self.config_path@,
            extensions_path: self.extensions_path@,
            executable: self.executable@,
            is_detected: self.is_detected,
        }
    }
}

impl IdeProfile {
    /// A copy of this profile.
    pub fn duplicate(&self) -> (r: IdeProfile)
        ensures
            r == *self,
    {
        IdeProfile {
            id: self.id.clone(),
            name: self.name.clone(),
            ide_type: self.ide_type,
            config_path: self.config_path.clone(),
            extensions_path: self.extensions_path.clone(),
            executable: self.executable.clone(),
            is_detected: self.is_detected,
        }
    }
}

/// How the content of the target file is decided.
#[derive(Clone, Copy, Debug, PartialEq, Eq, Structural)]
pub enum SyncStrategy {
    /// The target takes the source's text as it is.
    Overwrite,
    /// The source's tree is merged into the target's tree.
    Merge,
}

/// What one run synchronises, and how.
#[derive(Clone, Copy, Debug)]
pub struct SyncOptions {
    pub sync_settings: bool,
    pub sync_extensions: bool,
    pub sync_keybindings: bool,
    pub dry_run: bool,
    pub strategy: SyncStrategy,
}

/// The outcome of one run: whether every phase went through, and the log.
#[derive(Clone, Debug)]
pub struct SyncResult {
    pub success: bool,
    pub log: Vec<String>,
}

/// The mathematical content of a [`SyncResult`].
pub struct SyncResultView {
    pub success: bool,
    pub log: Seq<Seq<char>>,
}

impl View for SyncResult {
    type V = SyncResultView;

    open spec fn view(&self) -> SyncResultView {
        SyncResultView { success: self.success, log: self.log@.map_values(|line: String| line@) }
    }
}

/// One line of the history of runs.
#[derive(Clone, Debug)]
pub struct SyncRecord {
    pub id: String,
    pub timestamp: i64,
    pub source_name: String,
    pub target_name: String,
    pub status: String,
    pub details: String,
}

/// The kinds of failure.
#[derive(Clone, Copy, Debug, PartialEq, Eq, Structural)]
pub enum ErrorKind {
    /// A source file, a backup or a sidecar is missing.
    NotFound,
    /// A configuration file or a sidecar is malformed.
    ParseError,
    /// A copy, a read or a write failed.
    IoError,
    /// A command could not be started or ended with a failure.
    ProcessError,
}

/// A failure: its kind, and the message for the log.
#[derive(Clone, Debug)]
pub struct SyncError {
    pub kind: ErrorKind,
    pub message: String,
}

impl View for SyncError {
    type V = (ErrorKind, Seq<char>);

    open spec fn view(&self) -> (ErrorKind, Seq<char>) {
        (self.kind, self.message@)
    }
}

} // verus!
