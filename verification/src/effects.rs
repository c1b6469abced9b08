//! The boundary to the outside world.
//!
//! The library touches no file, clock or process. An operation that needs
//! the world is a function of its arguments and of the replies that it was
//! given so far: it reads them in order and either asks for what it needs
//! next or is done. Whoever drives it performs the request, adds the reply
//! to the list and calls again.

use crate::backup::{BackupMetadata, BackupMetadataView};
use crate::text::texts_view;
use vstd::prelude::*;

verus! {

/// What an operation asks of the world.
#[derive(Clone, Debug)]
pub enum Request {
    /// Is there a file at this path?
    Exists(String),
    /// The content of the file at this path, as text.
    ReadText(String),
    /// Write the text (second) to the path (first).
    WriteText(String, String),
    /// Copy the file at the first path to the second, byte for byte.
    CopyFile(String, String),
    /// Remove the file at this path.
    RemoveFile(String),
    /// The size in bytes of the file at this path.
    FileSize(String),
    /// The present moment, its local time written after this pattern.
    Clock(String),
    /// The local time of the moment so many seconds from the epoch, written
    /// after this pattern.
    LocalTime(i64, String),
    /// The entries of the directory that holds this path.
    Siblings(String),
    /// The sidecar text of this record.
    Encode(BackupMetadata),
    /// The record that this sidecar text holds.
    Decode(String),
    /// Run the program (first) with the arguments (second) and wait for it.
    Run(String, Vec<String>),
    /// The directory of the user's local application data.
    LocalDataDir,
    /// The directory of the user's roaming application data.
    DataDir,
    /// The user's home directory.
    HomeDir,
}

/// The mathematical content of a [`Request`].
pub enum RequestView {
    Exists(Seq<char>),
    ReadText(Seq<char>),
    WriteText(Seq<char>, Seq<char>),
    CopyFile(Seq<char>, Seq<char>),
    RemoveFile(Seq<char>),
    FileSize(Seq<char>),
    Clock(Seq<char>),
    LocalTime(i64, Seq<char>),
    Siblings(Seq<char>),
    Encode(BackupMetadataView),
    Decode(Seq<char>),
    Run(Seq<char>, Seq<Seq<char>>),
    LocalDataDir,
    DataDir,
    HomeDir,
}

impl View for Request {
    type V = RequestView;

    open spec fn view(&self) -> RequestView {
        match self {
            Request::Exists(path) => RequestView::Exists(path@),
            Request::ReadText(path) => RequestView::ReadText(path@),
            Request::WriteText(path, text) => RequestView::WriteText(path@, text@),
            Request::CopyFile(from, to) => RequestView::CopyFile(from@, to@),
            Request::RemoveFile(path) => RequestView::RemoveFile(path@),
            Request::FileSize(path) => RequestView::FileSize(path@),
            Request::Clock(pattern) => RequestView::Clock(pattern@),
            Request::LocalTime(moment, pattern) => RequestView::LocalTime(*moment, pattern@),
            Request::Siblings(path) => RequestView::Siblings(path@),
            Request::Encode(record) => RequestView::Encode(record@),
            Request::Decode(text) => RequestView::Decode(text@),
            Request::Run(program, arguments) => RequestView::Run(
                program@,
                texts_view(arguments@),
            ),
            Request::LocalDataDir => RequestView::LocalDataDir,
            Request::DataDir => RequestView::DataDir,
            Request::HomeDir => RequestView::HomeDir,
        }
    }
}

/// One entry of a directory: its name, and its path.
#[derive(Clone, Debug)]
pub struct DirEntry {
    pub name: String,
    pub path: String,
}

/// What a look into the directory of a path found.
#[derive(Clone, Debug)]
pub enum Scan {
    /// The path has no parent directory.
    NoParent,
    /// The path has no file name.
    NoFileName,
    /// The file name of the path, and the entries of its directory; none
    /// where the directory cannot be read.
    Entries(String, Vec<DirEntry>),
}

/// How a program ended, and what it wrote.
#[derive(Clone, Debug)]
pub struct ProcessOutput {
    pub success: bool,
    pub stdout: String,
    pub stderr: String,
}

/// Why a file could not be read: whether it is missing, and the message.
#[derive(Clone, Debug)]
pub struct ReadFailure {
    pub missing: bool,
    pub message: String,
}

/// What the world answers.
#[derive(Debug)]
pub enum Reply {
    /// To `Exists`.
    Flag(bool),
    /// To `ReadText`: the content of the file, or why there is none.
    Content(Result<String, ReadFailure>),
    /// To `Encode` and `LocalTime`: the text, or why there is none.
    Text(Result<String, String>),
    /// To `WriteText`, `CopyFile` and `RemoveFile`: done, or why not.
    Done(Result<(), String>),
    /// To `FileSize`: the size, if it could be had.
    Size(Option<u64>),
    /// To `Clock`: the seconds since the epoch, and the local time written
    /// after the pattern.
    Time(i64, String),
    /// To `Siblings`.
    Listing(Scan),
    /// To `Decode`: the record, if the text holds one.
    Record(Option<BackupMetadata>),
    /// To `Run`: the output, or why the program did not start.
    Process(Result<ProcessOutput, String>),
    /// To `LocalDataDir`, `DataDir` and `HomeDir`: the directory, if there
    /// is one.
    Dir(Option<String>),
}

/// Where an operation stands after the replies it was given.
#[derive(Debug)]
pub enum Turn<T> {
    /// It needs the answer to this request.
    Ask(Request),
    /// A reply does not answer the request that was made at its place.
    Misfit,
    /// It is done with this result; the number is the position of the
    /// first reply that it did not read.
    Done(T, usize),
}

/// The mathematical content of a [`Turn`].
pub enum Course<V> {
    Ask(RequestView),
    Misfit,
    Done(V, int),
}

/// The course that a turn stands for, its result seen through `value`.
pub open spec fn course_of<T, V>(turn: Turn<T>, value: spec_fn(T) -> V) -> Course<V> {
    match turn {
        Turn::Ask(request) => Course::Ask(request@),
        Turn::Misfit => Course::Misfit,
        Turn::Done(result, next) => Course::Done(value(result), next as int),
    }
}

} // verus!
