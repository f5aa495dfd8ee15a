//! What passes between the updater and the program that hosts it.
//!
//! The updater hands the host one [`Action`] at a time. The host carries it
//! out and answers with a [`Reply`], on which the updater decides what comes
//! next.

use vstd::prelude::*;
use crate::error::UpdateError;
use crate::platform::ElevationModel;
use crate::release::{ReleaseDescriptor, ReleaseView};

verus! {

/// A directory on the host.
#[derive(Clone, Debug, PartialEq, Eq)]
pub enum Location {
    /// The directory at this path.
    Path(String),
    /// The system's directory for temporary files.
    Temp,
}

/// What a [`Location`] stands for.
pub enum LocationView {
    Path(Seq<char>),
    Temp,
}

impl View for Location {
    type V = LocationView;

    open spec fn view(&self) -> LocationView {
        match self {
            Location::Path(path) => LocationView::Path(path@),
            Location::Temp => LocationView::Temp,
        }
    }
}

impl Location {
    /// A copy of this location.
    pub fn duplicate(&self) -> (copy: Location)
        ensures
            copy@ == self@,
    {
        match self {
            Location::Path(path) => Location::Path(path.clone()),
            Location::Temp => Location::Temp,
        }
    }
}

/// One thing for the host to do. A file is named by its directory and its
/// name in that directory.
#[derive(Clone, Debug, PartialEq, Eq)]
pub enum Action {
    /// Report the names of the entries of `dir`.
    ListDirectory { dir: Location },
    /// Create an empty file `name` in `dir`. A file of that name that is
    /// already there is left alone, and the action fails.
    CreateFile { dir: Location, name: String },
    /// Remove the file `name` from `dir`.
    RemoveFile { dir: Location, name: String },
    /// Move the file `from` in `dir` to the name `to` in the same directory,
    /// in one step, replacing a file of that name.
    Rename { dir: Location, from: String, to: String },
    /// Write `content` to the file `name` in `dir`, replacing what it held.
    WriteFile { dir: Location, name: String, content: String },
    /// Ask the release host for the latest release of `owner`/`repo`.
    FetchRelease { owner: &'static str, repo: &'static str },
    /// Fetch the asset `asset` of the release `tag` of `owner`/`repo` and
    /// store its bytes in the file `file` in `dir`.
    Download {
        owner: &'static str,
        repo: &'static str,
        tag: String,
        asset: String,
        dir: Location,
        file: String,
    },
    /// Hand the file `name` in `dir` to the system's opener, without waiting.
    Open { dir: Location, name: String },
    /// End the running processes named `process`, without waiting.
    Kill { process: &'static str },
    /// Obtain higher privileges in the way that `model` names.
    Elevate { model: ElevationModel },
    /// Show `message`, if there is one, and end the process with `code`.
    Exit { code: i32, message: Option<&'static str> },
}

/// What an [`Action`] stands for.
pub enum ActionView {
    ListDirectory { dir: LocationView },
    CreateFile { dir: LocationView, name: Seq<char> },
    RemoveFile { dir: LocationView, name: Seq<char> },
    Rename { dir: LocationView, from: Seq<char>, to: Seq<char> },
    WriteFile { dir: LocationView, name: Seq<char>, content: Seq<char> },
    FetchRelease { owner: Seq<char>, repo: Seq<char> },
    Download {
        owner: Seq<char>,
        repo: Seq<char>,
        tag: Seq<char>,
        asset: Seq<char>,
        dir: LocationView,
        file: Seq<char>,
    },
    Open { dir: LocationView, name: Seq<char> },
    Kill { process: Seq<char> },
    Elevate { model: ElevationModel },
    Exit { code: int, message: Option<Seq<char>> },
}

impl View for Action {
    type V = ActionView;

    open spec fn view(&self) -> ActionView {
        match self {
            Action::ListDirectory { dir } => ActionView::ListDirectory { dir: dir@ },
            Action::CreateFile { dir, name } => ActionView::CreateFile { dir: dir@, name: name@ },
            Action::RemoveFile { dir, name } => ActionView::RemoveFile { dir: dir@, name: name@ },
            Action::Rename { dir, from, to } => ActionView::Rename {
                dir: dir@,
                from: from@,
                to: to@,
            },
            Action::WriteFile { dir, name, content } => ActionView::WriteFile {
                dir: dir@,
                name: name@,
                content: content@,
            },
            Action::FetchRelease { owner, repo } => ActionView::FetchRelease {
                owner: owner@,
                repo: repo@,
            },
            Action::Download { owner, repo, tag, asset, dir, file } => ActionView::Download {
                owner: owner@,
                repo: repo@,
                tag: tag@,
                asset: asset@,
                dir: dir@,
                file: file@,
            },
            Action::Open { dir, name } => ActionView::Open { dir: dir@, name: name@ },
            Action::Kill { process } => ActionView::Kill { process: process@ },
            Action::Elevate { model } => ActionView::Elevate { model: *model },
            Action::Exit { code, message } => ActionView::Exit {
                code: *code as int,
                message: match message {
                    Some(text) => Some(text@),
                    None => None,
                },
            },
        }
    }
}

/// What the host reports after it has carried out an action.
#[derive(Clone, Debug, PartialEq, Eq)]
pub enum Reply {
    /// The action was carried out. After `Elevate`: this process now runs
    /// with higher privileges.
    Done,
    /// The action failed, for this reason.
    Failed(UpdateError),
    /// After `ListDirectory`: the names of the directory's entries.
    Entries(Vec<String>),
    /// After `FetchRelease`: the latest release.
    Release(ReleaseDescriptor),
    /// After `Elevate`: an elevated process did the work and ended with this
    /// status.
    Delegated(i32),
}

/// What a [`Reply`] stands for.
pub enum ReplyView {
    Done,
    Failed(UpdateError),
    Entries(Seq<Seq<char>>),
    Release(ReleaseView),
    Delegated(int),
}

impl View for Reply {
    type V = ReplyView;

    open spec fn view(&self) -> ReplyView {
        match self {
            Reply::Done => ReplyView::Done,
            Reply::Failed(error) => ReplyView::Failed(*error),
            Reply::Entries(names) => ReplyView::Entries(names.deep_view()),
            Reply::Release(release) => ReplyView::Release(release@),
            Reply::Delegated(status) => ReplyView::Delegated(*status as int),
        }
    }
}

impl ActionView {
    /// Whether `reply` is an answer that the host can give to this action.
    pub open spec fn answered_by(self, reply: ReplyView) -> bool {
        match self {
            ActionView::ListDirectory { .. } => reply is Entries || reply is Failed,
            ActionView::FetchRelease { .. } => reply is Release || reply is Failed,
            ActionView::Elevate { .. } => reply is Done || reply is Delegated || reply is Failed,
            ActionView::Exit { .. } => false,
            _ => reply is Done || reply is Failed,
        }
    }
}

} // verus!
