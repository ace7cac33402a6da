//! What the capabilities ask of the world outside, and what comes back.
//!
//! The engine never touches the note store, the operating system or the file
//! system. Where a capability needs one of them, the engine hands out a
//! [`Call`]; whoever runs the engine performs it and hands back an
//! [`Answer`].

use crate::db::Memo;
use crate::db::MemoView;
use vstd::prelude::*;

verus! {

/// A reading of the machine's load.
#[derive(Debug, PartialEq, Eq)]
pub struct SystemStats {
    /// The load of the processors in percent, as the text to show.
    pub cpu_usage: String,
    /// The share of the memory in use in percent, as the text to show.
    pub memory_usage: String,
    /// The memory in use, in bytes.
    pub used_memory: u64,
    /// The memory of the machine, in bytes.
    pub total_memory: u64,
}

/// The mathematical value of a [`SystemStats`].
pub ghost struct StatsView {
    pub cpu_usage: Seq<char>,
    pub memory_usage: Seq<char>,
    pub used_memory: nat,
    pub total_memory: nat,
}

impl View for SystemStats {
    type V = StatsView;

    open spec fn view(&self) -> StatsView {
        StatsView {
            cpu_usage: self.cpu_usage@,
            memory_usage: self.memory_usage@,
            used_memory: self.used_memory as nat,
            total_memory: self.total_memory as nat,
        }
    }
}

/// A regular file found below the root of the walk.
#[derive(Debug, PartialEq, Eq)]
pub struct FileEntry {
    /// The path of the file, relative to the root.
    pub path: String,
    /// The extension of the file's name, without the dot, if it has one.
    pub extension: Option<String>,
}

/// The mathematical value of a [`FileEntry`].
pub ghost struct FileEntryView {
    pub path: Seq<char>,
    pub extension: Option<Seq<char>>,
}

impl View for FileEntry {
    type V = FileEntryView;

    open spec fn view(&self) -> FileEntryView {
        FileEntryView { path: self.path@, extension: self.extension.deep_view() }
    }
}

impl DeepView for FileEntry {
    type V = FileEntryView;

    open spec fn deep_view(&self) -> FileEntryView {
        self@
    }
}

/// What a capability asks of a collaborator.
#[derive(Debug, PartialEq, Eq)]
pub enum Call {
    /// Add a note to the store. Answered by [`Answer::MemoAdded`].
    AddMemo { content: String, tags: Vec<String> },
    /// Read the machine's load for the statistics tool. Answered by
    /// [`Answer::Stats`].
    SystemStats,
    /// Walk the files below the working directory for the file listing
    /// tool. Answered by [`Answer::Files`].
    ListFiles { extension: String },
    /// List the notes of the store, newest first. Answered by
    /// [`Answer::Memos`].
    ReadMemos,
    /// Read the project's settings file. Answered by [`Answer::Settings`].
    ReadSettings,
    /// Read the machine's load for the health prompt. Answered by
    /// [`Answer::Stats`].
    AnalyzeHealth,
}

/// The mathematical value of a [`Call`].
pub ghost enum CallView {
    AddMemo { content: Seq<char>, tags: Seq<Seq<char>> },
    SystemStats,
    ListFiles { extension: Seq<char> },
    ReadMemos,
    ReadSettings,
    AnalyzeHealth,
}

impl View for Call {
    type V = CallView;

    open spec fn view(&self) -> CallView {
        match self {
            Call::AddMemo { content, tags } => CallView::AddMemo {
                content: content@,
                tags: tags.deep_view(),
            },
            Call::SystemStats => CallView::SystemStats,
            Call::ListFiles { extension } => CallView::ListFiles { extension: extension@ },
            Call::ReadMemos => CallView::ReadMemos,
            Call::ReadSettings => CallView::ReadSettings,
            Call::AnalyzeHealth => CallView::AnalyzeHealth,
        }
    }
}

/// What a collaborator gives back.
#[derive(Debug, PartialEq, Eq)]
pub enum Answer {
    /// The id that the store gave to the new note.
    MemoAdded(i64),
    /// A reading of the machine's load.
    Stats(SystemStats),
    /// Every regular file below the root of the walk.
    Files(Vec<FileEntry>),
    /// The notes of the store, newest first.
    Memos(Vec<Memo>),
    /// The text of the settings file, or nothing where it cannot be read.
    Settings(Option<String>),
    /// The collaborator failed; the text says why.
    Failed(String),
}

/// The mathematical value of an [`Answer`].
pub ghost enum AnswerView {
    MemoAdded(int),
    Stats(StatsView),
    Files(Seq<FileEntryView>),
    Memos(Seq<MemoView>),
    Settings(Option<Seq<char>>),
    Failed(Seq<char>),
}

impl View for Answer {
    type V = AnswerView;

    open spec fn view(&self) -> AnswerView {
        match self {
            Answer::MemoAdded(id) => AnswerView::MemoAdded(*id as int),
            Answer::Stats(stats) => AnswerView::Stats(stats@),
            Answer::Files(entries) => AnswerView::Files(entries.deep_view()),
            Answer::Memos(memos) => AnswerView::Memos(memos.deep_view()),
            Answer::Settings(settings) => AnswerView::Settings(settings.deep_view()),
            Answer::Failed(reason) => AnswerView::Failed(reason@),
        }
    }
}

/// The view of what a capability makes of a request: the content it
/// returns, or the text of the failure.
pub open spec fn content_view(r: Result<crate::json::Json, String>) -> Result<
    crate::json::JsonView,
    Seq<char>,
> {
    match r {
        Ok(content) => Ok(content@),
        Err(reason) => Err(reason@),
    }
}

/// The view of what a capability plans for a request: the call to make, or
/// the text of the failure.
pub open spec fn plan_view(r: Result<Call, String>) -> Result<CallView, Seq<char>> {
    match r {
        Ok(call) => Ok(call@),
        Err(reason) => Err(reason@),
    }
}

} // verus!
