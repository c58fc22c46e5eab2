//! Opening a project's directory in the file browser.
//!
//! The caller looks at the directory and reports what it found; the library
//! decides what to show. An empty directory has nothing to show yet, so its
//! parent is shown instead.

use crate::provision::{project_path_of, Provisioner};
use crate::text::{parent_path, path_parent};
use vstd::prelude::*;

verus! {

/// What the caller found at a project's path.
#[derive(Debug, PartialEq, Eq)]
pub enum DirectoryState {
    /// Nothing there, or something that is not a directory.
    NotADirectory,
    /// A directory without entries.
    Empty,
    /// A directory with at least one entry.
    NonEmpty,
    /// The directory could not be read.
    ReadFailed { message: String },
}

pub enum DirectoryStateView {
    NotADirectory,
    Empty,
    NonEmpty,
    ReadFailed { message: Seq<char> },
}

impl View for DirectoryState {
    type V = DirectoryStateView;

    open spec fn view(&self) -> DirectoryStateView {
        match self {
            DirectoryState::NotADirectory => DirectoryStateView::NotADirectory,
            DirectoryState::Empty => DirectoryStateView::Empty,
            DirectoryState::NonEmpty => DirectoryStateView::NonEmpty,
            DirectoryState::ReadFailed { message } => DirectoryStateView::ReadFailed {
                message: message@,
            },
        }
    }
}

/// How opening a project's directory ended.
#[derive(Debug, PartialEq, Eq)]
pub enum OpenResult {
    /// The file browser was started on `path`.
    Opened { path: String },
    /// The project's path is not a directory.
    NotADirectory,
    /// The directory could not be read.
    ReadFailed { message: String },
    /// The file browser could not be started on `path`.
    BrowserFailed { path: String, message: String },
}

pub enum OpenResultView {
    Opened { path: Seq<char> },
    NotADirectory,
    ReadFailed { message: Seq<char> },
    BrowserFailed { path: Seq<char>, message: Seq<char> },
}

impl View for OpenResult {
    type V = OpenResultView;

    open spec fn view(&self) -> OpenResultView {
        match self {
            OpenResult::Opened { path } => OpenResultView::Opened { path: path@ },
            OpenResult::NotADirectory => OpenResultView::NotADirectory,
            OpenResult::ReadFailed { message } => OpenResultView::ReadFailed { message: message@ },
            OpenResult::BrowserFailed { path, message } => OpenResultView::BrowserFailed {
                path: path@,
                message: message@,
            },
        }
    }
}

/// What the caller is asked to do about a project's directory.
#[derive(Debug, PartialEq, Eq)]
pub enum FolderAction {
    /// Start the file browser on `path`, then report with
    /// [`OpenResult::after_browse`].
    Browse { path: String },
    /// Nothing to open; the outcome is `result`.
    Done { result: OpenResult },
}

pub enum FolderActionView {
    Browse { path: Seq<char> },
    Done { result: OpenResultView },
}

impl View for FolderAction {
    type V = FolderActionView;

    open spec fn view(&self) -> FolderActionView {
        match self {
            FolderAction::Browse { path } => FolderActionView::Browse { path: path@ },
            FolderAction::Done { result } => FolderActionView::Done { result: result@ },
        }
    }
}

/// The directory to show for a project whose path is `path` and holds a
/// directory in `state`, or the outcome when there is none to show.
pub open spec fn folder_decision(path: Seq<char>, state: DirectoryStateView) -> FolderActionView {
    match state {
        DirectoryStateView::NotADirectory => FolderActionView::Done {
            result: OpenResultView::NotADirectory,
        },
        DirectoryStateView::ReadFailed { message } => FolderActionView::Done {
            result: OpenResultView::ReadFailed { message },
        },
        DirectoryStateView::Empty => FolderActionView::Browse { path: path_parent(path) },
        DirectoryStateView::NonEmpty => FolderActionView::Browse { path },
    }
}

impl OpenResult {
    /// The outcome once the file browser was asked to show `path`, given the
    /// error it reported, if any.
    pub fn after_browse(path: String, error: Option<String>) -> (r: OpenResult)
        ensures
            r@ == (match error {
                None => OpenResultView::Opened { path: path@ },
                Some(m) => OpenResultView::BrowserFailed { path: path@, message: m@ },
            }),
    {
        match error {
            None => OpenResult::Opened { path },
            Some(message) => OpenResult::BrowserFailed { path, message },
        }
    }
}

impl Provisioner {
    /// Decides what to show of the project called `project_name`, whose
    /// path the caller found in `state`: the directory itself when it has
    /// entries, its parent when it is empty, and nothing otherwise.
    pub fn open_project_folder(&self, project_name: &str, state: DirectoryState) -> (r:
        FolderAction)
        ensures
            r@ == folder_decision(project_path_of(self@, project_name@), state@),
    {
        match state {
            DirectoryState::NotADirectory => FolderAction::Done {
                result: OpenResult::NotADirectory,
            },
            DirectoryState::ReadFailed { message } => FolderAction::Done {
                result: OpenResult::ReadFailed { message },
            },
            DirectoryState::Empty => {
                let path = self.project_path(project_name);
                FolderAction::Browse { path: parent_path(path.as_str()) }
            },
            DirectoryState::NonEmpty => FolderAction::Browse {
                path: self.project_path(project_name),
            },
        }
    }
}

} // verus!
