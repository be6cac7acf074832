//! Commands and launch requests: the two value kinds that cross the boundary
//! between the verified core and the host shell.
//!
//! A [`Command`] is an immutable state-transition request produced by
//! background work and consumed exactly once by the command processor on the
//! home loop. A [`LaunchRequest`] travels the other way: it names the
//! asynchronous operation the host must start on behalf of the core.

use vstd::prelude::*;

use crate::selection::{SelectionSet, SelectionSetView};
use crate::session::{
    AllTabGroups, AllTabGroupsView, FileHandleToken, FileSnapshot, OutputOptions,
    OutputOptionsView, SnapshotView,
};

verus! {

/// Mathematical value of a [`Command`].
pub enum CommandView {
    SetInputPath(Seq<char>, FileHandleToken),
    UpdateLoadedData(SnapshotView),
    ParsedTabGroups(AllTabGroupsView),
    SetPreview(Seq<char>),
    ChangeTabGroupSelection { open: bool, index: u32, select: bool },
    SetSavePath(Seq<char>),
    SetStatus(Seq<char>),
    SaveLinksToFile,
}

/// A state-transition request, applied synchronously by
/// [`crate::app::FirefoxSessionDataApp::handle_command`].
#[derive(Debug)]
pub enum Command {
    /// A file was picked in the open dialog: remember its path and the
    /// host-held handle it can be reopened through.
    SetInputPath(String, FileHandleToken),
    /// The loaded file advanced one processing stage; replace the snapshot.
    UpdateLoadedData(FileSnapshot),
    /// Group extraction finished; these are the session's windows.
    ParsedTabGroups(AllTabGroups),
    /// A preview rendering finished.
    SetPreview(String),
    /// A row of the group table was clicked.
    ChangeTabGroupSelection { open: bool, index: u32, select: bool },
    /// A file was picked in the save dialog.
    SetSavePath(String),
    /// Show a status line.
    SetStatus(String),
    /// The save button was pressed.
    SaveLinksToFile,
}

impl View for Command {
    type V = CommandView;

    open spec fn view(&self) -> CommandView {
        match self {
            Command::SetInputPath(path, handle) => CommandView::SetInputPath(path@, *handle),
            Command::UpdateLoadedData(snapshot) => CommandView::UpdateLoadedData(snapshot@),
            Command::ParsedTabGroups(groups) => CommandView::ParsedTabGroups(groups@),
            Command::SetPreview(text) => CommandView::SetPreview(text@),
            Command::ChangeTabGroupSelection { open, index, select } => {
                CommandView::ChangeTabGroupSelection {
                    open: *open,
                    index: *index,
                    select: *select,
                }
            },
            Command::SetSavePath(path) => CommandView::SetSavePath(path@),
            Command::SetStatus(text) => CommandView::SetStatus(text@),
            Command::SaveLinksToFile => CommandView::SaveLinksToFile,
        }
    }
}

impl DeepView for Command {
    type V = CommandView;

    open spec fn deep_view(&self) -> CommandView {
        self@
    }
}

/// Mathematical value of a [`LaunchRequest`].
pub enum LaunchRequestView {
    LoadFile { path: Seq<char>, file_handle: Option<FileHandleToken> },
    RegeneratePreview { snapshot: SnapshotView, selection: SelectionSetView },
    SaveLinks {
        snapshot: SnapshotView,
        save_path: Seq<char>,
        selection: SelectionSetView,
        options: OutputOptionsView,
    },
}

/// An asynchronous operation the host shell must start. The core never
/// performs I/O itself; it hands one of these back and the host launches the
/// matching collaborator operation, eventually feeding the outcome into the
/// mailbox as [`Command`]s.
#[derive(Debug)]
pub enum LaunchRequest {
    /// Read the raw bytes of the input file, then run the pipeline driver.
    LoadFile { path: String, file_handle: Option<FileHandleToken> },
    /// Render the text preview of the selected groups.
    RegeneratePreview { snapshot: FileSnapshot, selection: SelectionSet },
    /// Write the selected groups' links to the output file.
    SaveLinks {
        snapshot: FileSnapshot,
        save_path: String,
        selection: SelectionSet,
        options: OutputOptions,
    },
}

impl View for LaunchRequest {
    type V = LaunchRequestView;

    open spec fn view(&self) -> LaunchRequestView {
        match self {
            LaunchRequest::LoadFile { path, file_handle } => {
                LaunchRequestView::LoadFile { path: path@, file_handle: *file_handle }
            },
            LaunchRequest::RegeneratePreview { snapshot, selection } => {
                LaunchRequestView::RegeneratePreview { snapshot: snapshot@, selection: selection@ }
            },
            LaunchRequest::SaveLinks { snapshot, save_path, selection, options } => {
                LaunchRequestView::SaveLinks {
                    snapshot: snapshot@,
                    save_path: save_path@,
                    selection: selection@,
                    options: options@,
                }
            },
        }
    }
}

impl DeepView for LaunchRequest {
    type V = LaunchRequestView;

    open spec fn deep_view(&self) -> LaunchRequestView {
        self@
    }
}

} // verus!
