//! The conversation between the provisioner and its caller: what the caller
//! is asked to do, and what it reports back.

use crate::cleanup::{spec_positions, DirectoryEntry, DirectoryEntryView, RemovalOutcome};
use crate::platform::{Architecture, ArchiveKind, Platform};
use crate::release::{Release, ReleaseView};
use vstd::prelude::*;

verus! {

/// Something for the caller to do on behalf of the provisioner.
#[derive(Clone, Debug, PartialEq, Eq)]
pub enum Action {
    /// Find out whether `path` is a regular file.
    CheckFile { path: String },
    /// Ask the release source for the latest release of `repository`.
    FetchLatestRelease { repository: String, require_assets: bool, include_prereleases: bool },
    /// Find out the platform and architecture of the host.
    DetectPlatform,
    /// Create the directory `path` and its parents, unless they exist.
    CreateDirectory { path: String },
    /// Download the archive at `url` and unpack it into `directory`.
    Download { url: String, directory: String, archive_kind: ArchiveKind },
    /// Mark the file at `path` executable.
    MakeExecutable { path: String },
    /// Read the entries of the working directory.
    ListWorkingDirectory,
    /// Remove the entries at `positions` of the listing, each with all that it
    /// holds.
    RemoveEntries { positions: Vec<usize> },
}

/// What an [`Action`] holds, as plain text.
pub enum ActionView {
    CheckFile { path: Seq<char> },
    FetchLatestRelease { repository: Seq<char>, require_assets: bool, include_prereleases: bool },
    DetectPlatform,
    CreateDirectory { path: Seq<char> },
    Download { url: Seq<char>, directory: Seq<char>, archive_kind: ArchiveKind },
    MakeExecutable { path: Seq<char> },
    ListWorkingDirectory,
    RemoveEntries { positions: Seq<int> },
}

impl View for Action {
    type V = ActionView;

    open spec fn view(&self) -> ActionView {
        match self {
            Action::CheckFile { path } => ActionView::CheckFile { path: path@ },
            Action::FetchLatestRelease { repository, require_assets, include_prereleases } => {
                ActionView::FetchLatestRelease {
                    repository: repository@,
                    require_assets: *require_assets,
                    include_prereleases: *include_prereleases,
                }
            },
            Action::DetectPlatform => ActionView::DetectPlatform,
            Action::CreateDirectory { path } => ActionView::CreateDirectory { path: path@ },
            Action::Download { url, directory, archive_kind } => ActionView::Download {
                url: url@,
                directory: directory@,
                archive_kind: *archive_kind,
            },
            Action::MakeExecutable { path } => ActionView::MakeExecutable { path: path@ },
            Action::ListWorkingDirectory => ActionView::ListWorkingDirectory,
            Action::RemoveEntries { positions } => ActionView::RemoveEntries {
                positions: spec_positions(positions@),
            },
        }
    }
}

/// What came of the action that the provisioner last asked for. A failure
/// carries the description given by whoever detected it.
#[derive(Debug, PartialEq, Eq)]
pub enum Event {
    /// Answers [`Action::CheckFile`].
    FileChecked { is_file: bool },
    /// Answers [`Action::FetchLatestRelease`].
    ReleaseFetched(Result<Release, String>),
    /// Answers [`Action::DetectPlatform`].
    PlatformDetected { platform: Platform, architecture: Architecture },
    /// Answers [`Action::CreateDirectory`].
    DirectoryCreated(Result<(), String>),
    /// Answers [`Action::Download`].
    Downloaded(Result<(), String>),
    /// Answers [`Action::MakeExecutable`].
    MadeExecutable(Result<(), String>),
    /// Answers [`Action::ListWorkingDirectory`], with every entry in the
    /// order in which the directory gave it.
    DirectoryListed(Result<Vec<DirectoryEntry>, String>),
    /// Answers [`Action::RemoveEntries`], with one outcome for each position.
    EntriesRemoved(Vec<RemovalOutcome>),
}

/// What an [`Event`] holds, as plain text.
pub enum EventView {
    FileChecked { is_file: bool },
    ReleaseFetched(Result<ReleaseView, Seq<char>>),
    PlatformDetected { platform: Platform, architecture: Architecture },
    DirectoryCreated(Result<(), Seq<char>>),
    Downloaded(Result<(), Seq<char>>),
    MadeExecutable(Result<(), Seq<char>>),
    DirectoryListed(Result<Seq<DirectoryEntryView>, Seq<char>>),
    EntriesRemoved(Seq<RemovalOutcome>),
}

/// The view of the result of an operation that yields nothing but may fail.
pub open spec fn spec_completion_view(result: Result<(), String>) -> Result<(), Seq<char>> {
    match result {
        Ok(done) => Ok(done),
        Err(detail) => Err(detail@),
    }
}

impl View for Event {
    type V = EventView;

    open spec fn view(&self) -> EventView {
        match self {
            Event::FileChecked { is_file } => EventView::FileChecked { is_file: *is_file },
            Event::ReleaseFetched(result) => EventView::ReleaseFetched(
                match result {
                    Ok(release) => Ok(release@),
                    Err(detail) => Err(detail@),
                },
            ),
            Event::PlatformDetected { platform, architecture } => EventView::PlatformDetected {
                platform: *platform,
                architecture: *architecture,
            },
            Event::DirectoryCreated(result) => EventView::DirectoryCreated(
                spec_completion_view(*result),
            ),
            Event::Downloaded(result) => EventView::Downloaded(spec_completion_view(*result)),
            Event::MadeExecutable(result) => EventView::MadeExecutable(
                spec_completion_view(*result),
            ),
            Event::DirectoryListed(result) => EventView::DirectoryListed(
                match result {
                    Ok(entries) => Ok(entries.deep_view()),
                    Err(detail) => Err(detail@),
                },
            ),
            Event::EntriesRemoved(outcomes) => EventView::EntriesRemoved(outcomes@),
        }
    }
}

/// Whether performing `action` reaches out to the network.
pub open spec fn spec_uses_network(action: ActionView) -> bool {
    action is FetchLatestRelease || action is Download
}

} // verus!
