//! The binary provisioner: it makes sure that the server binary for the
//! current platform is on disk and says where.
//!
//! The provisioner touches neither network nor disk. A run is a conversation:
//! [`begin`] and [`step`] answer with the next [`Action`] to perform, and the
//! caller reports what came of it as an [`Event`], until the run has
//! [`Progress::Finished`].

use crate::cleanup::{spec_positions, spec_stale_entries, stale_entries};
use crate::error::{FilesystemError, FilesystemErrorView, LaunchError, LaunchErrorView};
use crate::platform::{
    asset_name, spec_archive_kind, spec_asset_name, Architecture, ArchiveKind, Platform,
};
use crate::protocol::{Action, ActionView, Event, EventView};
use crate::release::{
    find_asset, spec_find_asset, spec_locate, ProvisionedBinary, ProvisionedBinaryView, Release,
    ReleaseView,
};
use vstd::prelude::*;
use vstd::string::*;

verus! {

/// The repository whose releases carry the binary.
pub const REPOSITORY: &'static str = "grafana/mcp-grafana";

/// The name of the binary, in asset names and on disk.
pub const BINARY_NAME: &'static str = "mcp-grafana";

/// The path of the binary that an earlier run provided, if any. It is
/// trusted only as far as a file still exists there.
#[derive(Clone, Debug, PartialEq, Eq)]
pub struct BinaryCache {
    pub path: Option<String>,
}

impl View for BinaryCache {
    type V = Option<Seq<char>>;

    open spec fn view(&self) -> Option<Seq<char>> {
        self.path.deep_view()
    }
}

impl BinaryCache {
    /// A cache that knows no path.
    pub fn new() -> (cache: BinaryCache)
        ensures
            cache@ is None,
    {
        BinaryCache { path: None }
    }
}

/// A release asset chosen for installation, and where it goes.
#[derive(Clone, Debug, PartialEq, Eq)]
pub struct Installation {
    pub binary: ProvisionedBinary,
    pub download_url: String,
    pub archive_kind: ArchiveKind,
}

/// What an [`Installation`] holds, as plain text.
pub struct InstallationView {
    pub binary: ProvisionedBinaryView,
    pub download_url: Seq<char>,
    pub archive_kind: ArchiveKind,
}

impl View for Installation {
    type V = InstallationView;

    open spec fn view(&self) -> InstallationView {
        InstallationView {
            binary: self.binary@,
            download_url: self.download_url@,
            archive_kind: self.archive_kind,
        }
    }
}

/// How far a run has come; each phase waits for the answer to one action.
#[derive(Clone, Debug, PartialEq, Eq)]
pub enum Phase {
    /// Waiting to hear whether the cached path still is a file.
    CheckingCache { path: String },
    /// Waiting for the latest release.
    FetchingRelease,
    /// Waiting for the platform of the host.
    DetectingPlatform { release: Release },
    /// Waiting for the version directory to be created.
    CreatingDirectory { installation: Installation },
    /// Waiting to hear whether the binary is already in the version directory.
    CheckingBinary { installation: Installation },
    /// Waiting for the archive to be downloaded and unpacked.
    Downloading { installation: Installation },
    /// Waiting for the binary to be marked executable.
    MarkingExecutable { installation: Installation },
    /// Waiting for the listing of the working directory.
    ListingDirectory { installation: Installation },
    /// Waiting for the stale entries to be removed.
    RemovingStale { installation: Installation, stale: Vec<usize> },
}

/// What a [`Phase`] holds, as plain text.
pub enum PhaseView {
    CheckingCache { path: Seq<char> },
    FetchingRelease,
    DetectingPlatform { release: ReleaseView },
    CreatingDirectory { installation: InstallationView },
    CheckingBinary { installation: InstallationView },
    Downloading { installation: InstallationView },
    MarkingExecutable { installation: InstallationView },
    ListingDirectory { installation: InstallationView },
    RemovingStale { installation: InstallationView, stale: Seq<int> },
}

impl View for Phase {
    type V = PhaseView;

    open spec fn view(&self) -> PhaseView {
        match self {
            Phase::CheckingCache { path } => PhaseView::CheckingCache { path: path@ },
            Phase::FetchingRelease => PhaseView::FetchingRelease,
            Phase::DetectingPlatform { release } => PhaseView::DetectingPlatform {
                release: release@,
            },
            Phase::CreatingDirectory { installation } => PhaseView::CreatingDirectory {
                installation: installation@,
            },
            Phase::CheckingBinary { installation } => PhaseView::CheckingBinary {
                installation: installation@,
            },
            Phase::Downloading { installation } => PhaseView::Downloading {
                installation: installation@,
            },
            Phase::MarkingExecutable { installation } => PhaseView::MarkingExecutable {
                installation: installation@,
            },
            Phase::ListingDirectory { installation } => PhaseView::ListingDirectory {
                installation: installation@,
            },
            Phase::RemovingStale { installation, stale } => PhaseView::RemovingStale {
                installation: installation@,
                stale: spec_positions(stale@),
            },
        }
    }
}

/// A run in progress: the cache as it was when the run began, and the phase
/// reached.
#[derive(Clone, Debug, PartialEq, Eq)]
pub struct Run {
    pub cache: BinaryCache,
    pub phase: Phase,
}

/// What a [`Run`] holds, as plain text.
pub struct RunView {
    pub cache: Option<Seq<char>>,
    pub phase: PhaseView,
}

impl View for Run {
    type V = RunView;

    open spec fn view(&self) -> RunView {
        RunView { cache: self.cache@, phase: self.phase@ }
    }
}

/// Where a run stands after [`begin`] or [`step`].
#[derive(Debug, PartialEq, Eq)]
pub enum Progress {
    /// The caller is to perform the action and hand the resulting event,
    /// with the run, to [`step`].
    Perform(Run, Action),
    /// The run is over. The cache is the one to keep for later runs; the
    /// result is the path of the binary, or why there is none.
    Finished(BinaryCache, Result<String, LaunchError>),
}

/// What a [`Progress`] holds, as plain text.
pub enum ProgressView {
    Perform(RunView, ActionView),
    Finished(Option<Seq<char>>, Result<Seq<char>, LaunchErrorView>),
}

/// The view of the result of a run.
pub open spec fn spec_outcome_view(outcome: Result<String, LaunchError>) -> Result<
    Seq<char>,
    LaunchErrorView,
> {
    match outcome {
        Ok(path) => Ok(path@),
        Err(error) => Err(error@),
    }
}

impl View for Progress {
    type V = ProgressView;

    open spec fn view(&self) -> ProgressView {
        match self {
            Progress::Perform(run, action) => ProgressView::Perform(run@, action@),
            Progress::Finished(cache, outcome) => ProgressView::Finished(
                cache@,
                spec_outcome_view(*outcome),
            ),
        }
    }
}

/// The action whose answer `phase` waits for.
pub open spec fn spec_pending(phase: PhaseView) -> ActionView {
    match phase {
        PhaseView::CheckingCache { path } => ActionView::CheckFile { path },
        PhaseView::FetchingRelease => ActionView::FetchLatestRelease {
            repository: REPOSITORY@,
            require_assets: true,
            include_prereleases: false,
        },
        PhaseView::DetectingPlatform { release } => ActionView::DetectPlatform,
        PhaseView::CreatingDirectory { installation } => ActionView::CreateDirectory {
            path: installation.binary.version_directory,
        },
        PhaseView::CheckingBinary { installation } => ActionView::CheckFile {
            path: installation.binary.executable_path,
        },
        PhaseView::Downloading { installation } => ActionView::Download {
            url: installation.download_url,
            directory: installation.binary.version_directory,
            archive_kind: installation.archive_kind,
        },
        PhaseView::MarkingExecutable { installation } => ActionView::MakeExecutable {
            path: installation.binary.executable_path,
        },
        PhaseView::ListingDirectory { installation } => ActionView::ListWorkingDirectory,
        PhaseView::RemovingStale { installation, stale } => ActionView::RemoveEntries {
            positions: stale,
        },
    }
}

/// The installation that `release` offers for a platform and architecture:
/// the asset with the expected name, unpacked into the directory of the
/// release's version. The error names the asset that the release lacks.
pub open spec fn spec_plan_installation(
    release: ReleaseView,
    platform: Platform,
    architecture: Architecture,
) -> Result<InstallationView, LaunchErrorView> {
    let name = spec_asset_name(BINARY_NAME@, platform, architecture);
    match spec_find_asset(release.assets, name) {
        Some(i) => Ok(
            InstallationView {
                binary: spec_locate(BINARY_NAME@, release.version),
                download_url: release.assets[i].download_url,
                archive_kind: spec_archive_kind(platform),
            },
        ),
        None => Err(LaunchErrorView::AssetNotFound(name)),
    }
}

/// The run goes on in `phase`, with the action that the phase waits for.
pub open spec fn spec_perform(cache: Option<Seq<char>>, phase: PhaseView) -> ProgressView {
    ProgressView::Perform(RunView { cache, phase }, spec_pending(phase))
}

/// The run ends with the binary at `path`, which is cached.
pub open spec fn spec_succeed(path: Seq<char>) -> ProgressView {
    ProgressView::Finished(Some(path), Ok(path))
}

/// The run ends without a binary, and the cache stays as it was.
pub open spec fn spec_fail(cache: Option<Seq<char>>, error: LaunchErrorView) -> ProgressView {
    ProgressView::Finished(cache, Err(error))
}

/// How a run begins: with a look at the cached path where there is one, else
/// with the release lookup.
pub open spec fn spec_begin(cache: Option<Seq<char>>) -> ProgressView {
    match cache {
        Some(path) => spec_perform(cache, PhaseView::CheckingCache { path }),
        None => spec_perform(cache, PhaseView::FetchingRelease),
    }
}

/// How a run goes on when `event` arrives.
///
/// Until the binary is in place and executable, a failure ends the run.
/// After that nothing does: stale versions are removed as far as they can
/// be, and the run ends with the path of the new binary whether or not the
/// directory could be listed and whatever became of the removals.
///
/// An event that does not answer the pending action changes nothing: the
/// action is asked for again.
pub open spec fn spec_step(run: RunView, event: EventView) -> ProgressView {
    let cache = run.cache;
    match (run.phase, event) {
        (PhaseView::CheckingCache { path }, EventView::FileChecked { is_file }) => {
            if is_file {
                spec_succeed(path)
            } else {
                spec_perform(cache, PhaseView::FetchingRelease)
            }
        },
        (PhaseView::FetchingRelease, EventView::ReleaseFetched(Ok(release))) => spec_perform(
            cache,
            PhaseView::DetectingPlatform { release },
        ),
        (PhaseView::FetchingRelease, EventView::ReleaseFetched(Err(detail))) => spec_fail(
            cache,
            LaunchErrorView::ReleaseLookup(detail),
        ),
        (
            PhaseView::DetectingPlatform { release },
            EventView::PlatformDetected { platform, architecture },
        ) => {
            match spec_plan_installation(release, platform, architecture) {
                Ok(installation) => spec_perform(
                    cache,
                    PhaseView::CreatingDirectory { installation },
                ),
                Err(error) => spec_fail(cache, error),
            }
        },
        (PhaseView::CreatingDirectory { installation }, EventView::DirectoryCreated(Ok(_))) => {
            spec_perform(cache, PhaseView::CheckingBinary { installation })
        },
        (
            PhaseView::CreatingDirectory { installation },
            EventView::DirectoryCreated(Err(detail)),
        ) => spec_fail(
            cache,
            LaunchErrorView::Filesystem(
                FilesystemErrorView::CreateDirectory {
                    directory: installation.binary.version_directory,
                    detail,
                },
            ),
        ),
        (PhaseView::CheckingBinary { installation }, EventView::FileChecked { is_file }) => {
            if is_file {
                spec_succeed(installation.binary.executable_path)
            } else {
                spec_perform(cache, PhaseView::Downloading { installation })
            }
        },
        (PhaseView::Downloading { installation }, EventView::Downloaded(Ok(_))) => spec_perform(
            cache,
            PhaseView::MarkingExecutable { installation },
        ),
        (PhaseView::Downloading { installation }, EventView::Downloaded(Err(detail))) => {
            spec_fail(cache, LaunchErrorView::Download(detail))
        },
        (PhaseView::MarkingExecutable { installation }, EventView::MadeExecutable(Ok(_))) => {
            spec_perform(cache, PhaseView::ListingDirectory { installation })
        },
        (PhaseView::MarkingExecutable { installation }, EventView::MadeExecutable(Err(detail))) => {
            spec_fail(cache, LaunchErrorView::Permission(detail))
        },
        (PhaseView::ListingDirectory { installation }, EventView::DirectoryListed(Ok(entries))) => {
            spec_perform(
                cache,
                PhaseView::RemovingStale {
                    installation,
                    stale: spec_stale_entries(entries, installation.binary.version_directory),
                },
            )
        },
        (
            PhaseView::ListingDirectory { installation },
            EventView::DirectoryListed(Err(detail)),
        ) => spec_succeed(installation.binary.executable_path),
        (PhaseView::RemovingStale { installation, stale }, EventView::EntriesRemoved(outcomes)) => {
            spec_succeed(installation.binary.executable_path)
        },
        _ => spec_perform(cache, run.phase),
    }
}

/// Chooses what to install from `release` for a platform and architecture.
pub fn plan_installation(release: &Release, platform: Platform, architecture: Architecture) -> (plan:
    Result<Installation, LaunchError>)
    ensures
        match plan {
            Ok(installation) => Ok(installation@),
            Err(error) => Err(error@),
        } == spec_plan_installation(release@, platform, architecture),
{
    let name = asset_name(BINARY_NAME, platform, architecture);
    match find_asset(&release.assets, &name) {
        Some(i) => {
            let download_url = release.assets[i].download_url.clone();
            Ok(
                Installation {
                    binary: ProvisionedBinary::locate(BINARY_NAME, release.version.as_str()),
                    download_url,
                    archive_kind: platform.archive_kind(),
                },
            )
        },
        None => Err(LaunchError::AssetNotFound(name)),
    }
}

/// The action whose answer `phase` waits for.
pub fn pending_action(phase: &Phase) -> (action: Action)
    ensures
        action@ == spec_pending(phase@),
{
    match phase {
        Phase::CheckingCache { path } => Action::CheckFile { path: path.clone() },
        Phase::FetchingRelease => Action::FetchLatestRelease {
            repository: String::from_str(REPOSITORY),
            require_assets: true,
            include_prereleases: false,
        },
        Phase::DetectingPlatform { release } => Action::DetectPlatform,
        Phase::CreatingDirectory { installation } => Action::CreateDirectory {
            path: installation.binary.version_directory.clone(),
        },
        Phase::CheckingBinary { installation } => Action::CheckFile {
            path: installation.binary.executable_path.clone(),
        },
        Phase::Downloading { installation } => Action::Download {
            url: installation.download_url.clone(),
            directory: installation.binary.version_directory.clone(),
            archive_kind: installation.archive_kind,
        },
        Phase::MarkingExecutable { installation } => Action::MakeExecutable {
            path: installation.binary.executable_path.clone(),
        },
        Phase::ListingDirectory { installation } => Action::ListWorkingDirectory,
        Phase::RemovingStale { installation, stale } => Action::RemoveEntries {
            positions: stale.clone(),
        },
    }
}

/// Goes on in `phase`: asks for the action that the phase waits for.
fn perform(cache: BinaryCache, phase: Phase) -> (progress: Progress)
    ensures
        progress@ == spec_perform(cache@, phase@),
{
    let action = pending_action(&phase);
    Progress::Perform(Run { cache, phase }, action)
}

/// Ends the run with the binary at `path`, and caches the path.
fn succeed(path: String) -> (progress: Progress)
    ensures
        progress@ == spec_succeed(path@),
{
    Progress::Finished(BinaryCache { path: Some(path.clone()) }, Ok(path))
}

/// Ends the run without a binary, and keeps the cache as it was.
fn fail(cache: BinaryCache, error: LaunchError) -> (progress: Progress)
    ensures
        progress@ == spec_fail(cache@, error@),
{
    Progress::Finished(cache, Err(error))
}

/// Begins a run with the cache left by earlier runs.
pub fn begin(cache: BinaryCache) -> (progress: Progress)
    ensures
        progress@ == spec_begin(cache@),
{
    let phase = match &cache.path {
        Some(path) => Phase::CheckingCache { path: path.clone() },
        None => Phase::FetchingRelease,
    };
    perform(cache, phase)
}

/// Takes a run one step further: `event` reports what came of the action that
/// the run was waiting for.
pub fn step(run: Run, event: Event) -> (progress: Progress)
    ensures
        progress@ == spec_step(run@, event@),
{
    let cache = run.cache;
    match run.phase {
        Phase::CheckingCache { path } => match event {
            Event::FileChecked { is_file } => {
                if is_file {
                    succeed(path)
                } else {
                    perform(cache, Phase::FetchingRelease)
                }
            },
            _ => perform(cache, Phase::CheckingCache { path }),
        },
        Phase::FetchingRelease => match event {
            Event::ReleaseFetched(Ok(release)) => perform(
                cache,
                Phase::DetectingPlatform { release },
            ),
            Event::ReleaseFetched(Err(detail)) => fail(cache, LaunchError::ReleaseLookup(detail)),
            _ => perform(cache, Phase::FetchingRelease),
        },
        Phase::DetectingPlatform { release } => match event {
            Event::PlatformDetected { platform, architecture } => {
                match plan_installation(&release, platform, architecture) {
                    Ok(installation) => perform(cache, Phase::CreatingDirectory { installation }),
                    Err(error) => fail(cache, error),
                }
            },
            _ => perform(cache, Phase::DetectingPlatform { release }),
        },
        Phase::CreatingDirectory { installation } => match event {
            Event::DirectoryCreated(Ok(_)) => perform(
                cache,
                Phase::CheckingBinary { installation },
            ),
            Event::DirectoryCreated(Err(detail)) => fail(
                cache,
                LaunchError::Filesystem(
                    FilesystemError::CreateDirectory {
                        directory: installation.binary.version_directory,
                        detail,
                    },
                ),
            ),
            _ => perform(cache, Phase::CreatingDirectory { installation }),
        },
        Phase::CheckingBinary { installation } => match event {
            Event::FileChecked { is_file } => {
                if is_file {
                    succeed(installation.binary.executable_path)
                } else {
                    perform(cache, Phase::Downloading { installation })
                }
            },
            _ => perform(cache, Phase::CheckingBinary { installation }),
        },
        Phase::Downloading { installation } => match event {
            Event::Downloaded(Ok(_)) => perform(cache, Phase::MarkingExecutable { installation }),
            Event::Downloaded(Err(detail)) => fail(cache, LaunchError::Download(detail)),
            _ => perform(cache, Phase::Downloading { installation }),
        },
        Phase::MarkingExecutable { installation } => match event {
            Event::MadeExecutable(Ok(_)) => perform(
                cache,
                Phase::ListingDirectory { installation },
            ),
            Event::MadeExecutable(Err(detail)) => fail(cache, LaunchError::Permission(detail)),
            _ => perform(cache, Phase::MarkingExecutable { installation }),
        },
        Phase::ListingDirectory { installation } => match event {
            Event::DirectoryListed(Ok(entries)) => {
                let stale = stale_entries(&entries, &installation.binary.version_directory);
                perform(cache, Phase::RemovingStale { installation, stale })
            },
            Event::DirectoryListed(Err(detail)) => succeed(installation.binary.executable_path),
            _ => perform(cache, Phase::ListingDirectory { installation }),
        },
        Phase::RemovingStale { installation, stale } => match event {
            Event::EntriesRemoved(outcomes) => succeed(installation.binary.executable_path),
            _ => perform(cache, Phase::RemovingStale { installation, stale }),
        },
    }
}

} // verus!
