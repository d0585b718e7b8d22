//! Whole runs of the provisioner, and what holds of them.

use crate::cleanup::{
    lemma_stale_entries, spec_is_stale, spec_stale_entries, DirectoryEntryView, RemovalOutcome,
};
use crate::error::LaunchErrorView;
use crate::platform::{Architecture, Platform};
use crate::protocol::{spec_uses_network, ActionView, EventView};
use crate::provision::{
    spec_begin, spec_pending, spec_perform, spec_plan_installation, spec_step, spec_succeed,
    InstallationView, PhaseView, ProgressView, RunView, BINARY_NAME, REPOSITORY,
};
use crate::release::{spec_locate, ProvisionedBinaryView, ReleaseView};
use vstd::prelude::*;

verus! {

/// Where a run stands once `events` have been handed to it in turn. Events
/// that arrive after the run has finished are not looked at.
pub open spec fn spec_run(progress: ProgressView, events: Seq<EventView>) -> ProgressView
    decreases events.len(),
{
    if events.len() == 0 {
        progress
    } else {
        match progress {
            ProgressView::Perform(run, action) => spec_run(
                spec_step(run, events.first()),
                events.drop_first(),
            ),
            ProgressView::Finished(cache, outcome) => progress,
        }
    }
}

/// The actions that a run asks for, in order, while `events` are handed to it
/// in turn.
pub open spec fn spec_asked(progress: ProgressView, events: Seq<EventView>) -> Seq<ActionView>
    decreases events.len(),
{
    match progress {
        ProgressView::Perform(run, action) => if events.len() == 0 {
            seq![action]
        } else {
            seq![action] + spec_asked(spec_step(run, events.first()), events.drop_first())
        },
        ProgressView::Finished(cache, outcome) => Seq::empty(),
    }
}

/// Handing a run one event and then others is handing it all of them.
pub proof fn lemma_run_unfolds(
    run: RunView,
    action: ActionView,
    event: EventView,
    later: Seq<EventView>,
)
    ensures
        spec_run(ProgressView::Perform(run, action), seq![event] + later) == spec_run(
            spec_step(run, event),
            later,
        ),
        spec_asked(ProgressView::Perform(run, action), seq![event] + later) == seq![action]
            + spec_asked(spec_step(run, event), later),
{
    assert((seq![event] + later).drop_first() =~= later);
}

/// A run that has finished stays as it is and asks for nothing more.
pub proof fn lemma_finished_run_is_over(
    cache: Option<Seq<char>>,
    outcome: Result<Seq<char>, LaunchErrorView>,
    events: Seq<EventView>,
)
    ensures
        spec_run(ProgressView::Finished(cache, outcome), events) == ProgressView::Finished(
            cache,
            outcome,
        ),
        spec_asked(ProgressView::Finished(cache, outcome), events) == Seq::<ActionView>::empty(),
{
}

/// A run that ends with a path has cached that path; a run that ends with an
/// error leaves the cache as it found it.
pub proof fn lemma_cache_after_step(run: RunView, event: EventView)
    ensures
        spec_step(run, event) matches ProgressView::Finished(cache, Ok(path)) ==> cache == Some(
            path,
        ),
        spec_step(run, event) matches ProgressView::Finished(cache, Err(error)) ==> cache
            == run.cache,
        spec_step(run, event) matches ProgressView::Perform(next, action) ==> next.cache
            == run.cache && action == spec_pending(next.phase),
{
}

/// With a cached path that still is a file, the run is over after that one
/// look: the cached path is the result, whatever else might have been
/// reported, and nothing is asked of the network.
pub proof fn lemma_cached_binary_needs_no_network(path: Seq<char>, later: Seq<EventView>)
    ensures
        spec_run(
            spec_begin(Some(path)),
            seq![EventView::FileChecked { is_file: true }] + later,
        ) == ProgressView::Finished(Some(path), Ok(path)),
        spec_asked(
            spec_begin(Some(path)),
            seq![EventView::FileChecked { is_file: true }] + later,
        ) == seq![ActionView::CheckFile { path }],
        forall|k: int|
            0 <= k < spec_asked(
                spec_begin(Some(path)),
                seq![EventView::FileChecked { is_file: true }] + later,
            ).len() ==> !spec_uses_network(
                #[trigger] spec_asked(
                    spec_begin(Some(path)),
                    seq![EventView::FileChecked { is_file: true }] + later,
                )[k],
            ),
{
    let run = RunView { cache: Some(path), phase: PhaseView::CheckingCache { path } };
    let action = ActionView::CheckFile { path };
    let event = EventView::FileChecked { is_file: true };
    lemma_run_unfolds(run, action, event, later);
    lemma_finished_run_is_over(Some(path), Ok(path), later);
}

/// Once the stale entries have been dealt with, the run succeeds with the
/// path of the new binary, however the removals ended.
pub proof fn lemma_removal_outcomes_do_not_matter(
    cache: Option<Seq<char>>,
    installation: InstallationView,
    stale: Seq<int>,
    outcomes: Seq<RemovalOutcome>,
)
    ensures
        spec_step(
            RunView { cache, phase: PhaseView::RemovingStale { installation, stale } },
            EventView::EntriesRemoved(outcomes),
        ) == spec_succeed(installation.binary.executable_path),
{
}

/// Where the working directory cannot be listed, nothing is removed and the
/// run succeeds with the path of the new binary.
pub proof fn lemma_listing_failure_does_not_matter(
    cache: Option<Seq<char>>,
    installation: InstallationView,
    detail: Seq<char>,
)
    ensures
        spec_step(
            RunView { cache, phase: PhaseView::ListingDirectory { installation } },
            EventView::DirectoryListed(Err(detail)),
        ) == spec_succeed(installation.binary.executable_path),
{
}

/// The removal that follows a listing never touches the directory of the
/// version just installed nor an entry that could not be read, and names
/// every other entry.
pub proof fn lemma_removal_spares_new_version(
    cache: Option<Seq<char>>,
    installation: InstallationView,
    entries: Seq<DirectoryEntryView>,
)
    ensures
        spec_step(
            RunView { cache, phase: PhaseView::ListingDirectory { installation } },
            EventView::DirectoryListed(Ok(entries)),
        ) matches ProgressView::Perform(next, ActionView::RemoveEntries { positions }) && {
            &&& forall|k: int|
                0 <= k < positions.len() ==> 0 <= #[trigger] positions[k] < entries.len()
                    && entries[positions[k]] != DirectoryEntryView::Named(
                    installation.binary.version_directory,
                ) && entries[positions[k]] != DirectoryEntryView::Unreadable
            &&& forall|position: int|
                0 <= position < entries.len() && spec_is_stale(
                    #[trigger] entries[position],
                    installation.binary.version_directory,
                ) ==> positions.contains(position)
        },
{
    lemma_stale_entries(entries, installation.binary.version_directory);
}

/// The events of an installation up to the point where the binary is in
/// place and executable, with nothing failing.
pub open spec fn spec_install_events(
    release: ReleaseView,
    platform: Platform,
    architecture: Architecture,
) -> Seq<EventView> {
    seq![
        EventView::ReleaseFetched(Ok(release)),
        EventView::PlatformDetected { platform, architecture },
        EventView::DirectoryCreated(Ok(())),
        EventView::FileChecked { is_file: false },
        EventView::Downloaded(Ok(())),
        EventView::MadeExecutable(Ok(())),
    ]
}

/// The actions of an installation up to the point where the binary is in
/// place and executable, in the order in which they are asked for.
pub open spec fn spec_install_actions(installation: InstallationView) -> Seq<ActionView> {
    seq![
        ActionView::FetchLatestRelease {
            repository: REPOSITORY@,
            require_assets: true,
            include_prereleases: false,
        },
        ActionView::DetectPlatform,
        ActionView::CreateDirectory { path: installation.binary.version_directory },
        ActionView::CheckFile { path: installation.binary.executable_path },
        ActionView::Download {
            url: installation.download_url,
            directory: installation.binary.version_directory,
            archive_kind: installation.archive_kind,
        },
        ActionView::MakeExecutable { path: installation.binary.executable_path },
    ]
}

/// An installation in which nothing fails asks for its actions in a fixed
/// order and then turns to the working directory, to remove what is stale.
pub proof fn lemma_install_reaches_cleanup(
    cache: Option<Seq<char>>,
    release: ReleaseView,
    platform: Platform,
    architecture: Architecture,
    later: Seq<EventView>,
)
    requires
        spec_plan_installation(release, platform, architecture) is Ok,
    ensures
        ({
            let installation = spec_plan_installation(release, platform, architecture)->Ok_0;
            let start = spec_perform(cache, PhaseView::FetchingRelease);
            let events = spec_install_events(release, platform, architecture) + later;
            let cleanup = spec_perform(cache, PhaseView::ListingDirectory { installation });
            &&& spec_run(start, events) == spec_run(cleanup, later)
            &&& spec_asked(start, events) == spec_install_actions(installation) + spec_asked(
                cleanup,
                later,
            )
        }),
{
    let installation = spec_plan_installation(release, platform, architecture)->Ok_0;
    let e0 = EventView::ReleaseFetched(Ok(release));
    let e1 = EventView::PlatformDetected { platform, architecture };
    let e2 = EventView::DirectoryCreated(Ok(()));
    let e3 = EventView::FileChecked { is_file: false };
    let e4 = EventView::Downloaded(Ok(()));
    let e5 = EventView::MadeExecutable(Ok(()));
    let p0 = PhaseView::FetchingRelease;
    let p1 = PhaseView::DetectingPlatform { release };
    let p2 = PhaseView::CreatingDirectory { installation };
    let p3 = PhaseView::CheckingBinary { installation };
    let p4 = PhaseView::Downloading { installation };
    let p5 = PhaseView::MarkingExecutable { installation };
    let p6 = PhaseView::ListingDirectory { installation };
    let events = spec_install_events(release, platform, architecture) + later;
    assert(events =~= seq![e0] + (seq![e1, e2, e3, e4, e5] + later));
    lemma_run_unfolds(
        RunView { cache, phase: p0 },
        spec_pending(p0),
        e0,
        seq![e1, e2, e3, e4, e5] + later,
    );
    assert(seq![e1, e2, e3, e4, e5] + later =~= seq![e1] + (seq![e2, e3, e4, e5] + later));
    lemma_run_unfolds(
        RunView { cache, phase: p1 },
        spec_pending(p1),
        e1,
        seq![e2, e3, e4, e5] + later,
    );
    assert(seq![e2, e3, e4, e5] + later =~= seq![e2] + (seq![e3, e4, e5] + later));
    lemma_run_unfolds(RunView { cache, phase: p2 }, spec_pending(p2), e2, seq![e3, e4, e5] + later);
    assert(seq![e3, e4, e5] + later =~= seq![e3] + (seq![e4, e5] + later));
    lemma_run_unfolds(RunView { cache, phase: p3 }, spec_pending(p3), e3, seq![e4, e5] + later);
    assert(seq![e4, e5] + later =~= seq![e4] + (seq![e5] + later));
    lemma_run_unfolds(RunView { cache, phase: p4 }, spec_pending(p4), e4, seq![e5] + later);
    lemma_run_unfolds(RunView { cache, phase: p5 }, spec_pending(p5), e5, later);
    assert(spec_asked(spec_perform(cache, p0), events) =~= spec_install_actions(installation)
        + spec_asked(spec_perform(cache, p6), later));
}

/// An installation in which nothing but removals fails removes what is stale
/// beside the new version and ends with the path of the binary inside the
/// directory of the release's version, which it caches.
pub proof fn lemma_fresh_install_succeeds(
    cache: Option<Seq<char>>,
    release: ReleaseView,
    platform: Platform,
    architecture: Architecture,
    entries: Seq<DirectoryEntryView>,
    outcomes: Seq<RemovalOutcome>,
)
    requires
        spec_plan_installation(release, platform, architecture) is Ok,
    ensures
        ({
            let installation = spec_plan_installation(release, platform, architecture)->Ok_0;
            let start = spec_perform(cache, PhaseView::FetchingRelease);
            let events = spec_install_events(release, platform, architecture) + seq![
                EventView::DirectoryListed(Ok(entries)),
                EventView::EntriesRemoved(outcomes),
            ];
            &&& spec_run(start, events) == spec_succeed(
                spec_locate(BINARY_NAME@, release.version).executable_path,
            )
            &&& spec_asked(start, events) == spec_install_actions(installation) + seq![
                ActionView::ListWorkingDirectory,
                ActionView::RemoveEntries {
                    positions: spec_stale_entries(entries, installation.binary.version_directory),
                },
            ]
        }),
{
    let installation = spec_plan_installation(release, platform, architecture)->Ok_0;
    let listed = EventView::DirectoryListed(Ok(entries));
    let removed = EventView::EntriesRemoved(outcomes);
    let listing = PhaseView::ListingDirectory { installation };
    let removing = PhaseView::RemovingStale {
        installation,
        stale: spec_stale_entries(entries, installation.binary.version_directory),
    };
    lemma_install_reaches_cleanup(cache, release, platform, architecture, seq![listed, removed]);
    assert(seq![listed, removed] =~= seq![listed] + seq![removed]);
    lemma_run_unfolds(RunView { cache, phase: listing }, spec_pending(listing), listed, seq![removed]);
    lemma_run_unfolds(
        RunView { cache, phase: removing },
        spec_pending(removing),
        removed,
        Seq::empty(),
    );
    assert(spec_asked(spec_perform(cache, listing), seq![listed, removed]) =~= seq![
        ActionView::ListWorkingDirectory,
        spec_pending(removing),
    ]);
}

/// An installation after which the working directory cannot be listed ends
/// as one after which it can: with the path of the new binary, cached.
/// Nothing is removed.
pub proof fn lemma_install_survives_listing_failure(
    cache: Option<Seq<char>>,
    release: ReleaseView,
    platform: Platform,
    architecture: Architecture,
    detail: Seq<char>,
)
    requires
        spec_plan_installation(release, platform, architecture) is Ok,
    ensures
        ({
            let installation = spec_plan_installation(release, platform, architecture)->Ok_0;
            let start = spec_perform(cache, PhaseView::FetchingRelease);
            let events = spec_install_events(release, platform, architecture) + seq![
                EventView::DirectoryListed(Err(detail)),
            ];
            &&& spec_run(start, events) == spec_succeed(
                spec_locate(BINARY_NAME@, release.version).executable_path,
            )
            &&& spec_asked(start, events) == spec_install_actions(installation) + seq![
                ActionView::ListWorkingDirectory,
            ]
        }),
{
    let installation = spec_plan_installation(release, platform, architecture)->Ok_0;
    let listed = EventView::DirectoryListed(Err(detail));
    let listing = PhaseView::ListingDirectory { installation };
    lemma_install_reaches_cleanup(cache, release, platform, architecture, seq![listed]);
    lemma_run_unfolds(RunView { cache, phase: listing }, spec_pending(listing), listed, Seq::empty());
    assert(spec_asked(spec_perform(cache, listing), seq![listed]) =~= seq![
        ActionView::ListWorkingDirectory,
    ]);
}

/// Whether `run` is tidying up around `installation`: the binary is in
/// place and executable, and stale versions are being looked for or removed.
pub open spec fn spec_is_tidying(run: RunView, installation: InstallationView) -> bool {
    match run.phase {
        PhaseView::ListingDirectory { installation: current } => current == installation,
        PhaseView::RemovingStale { installation: current, stale } => current == installation,
        _ => false,
    }
}

/// Once the binary is in place and executable, the run cannot fail any
/// more. Whatever is reported from then on, in whatever order, the run is
/// either still tidying up around the same installation or has ended with
/// the path of the new binary, cached.
pub proof fn lemma_cleanup_cannot_fail(
    run: RunView,
    installation: InstallationView,
    events: Seq<EventView>,
)
    requires
        spec_is_tidying(run, installation),
    ensures
        match spec_run(spec_perform(run.cache, run.phase), events) {
            ProgressView::Perform(next, action) => spec_is_tidying(next, installation)
                && next.cache == run.cache,
            ProgressView::Finished(cache, outcome) => cache == Some(
                installation.binary.executable_path,
            ) && outcome == Ok::<Seq<char>, LaunchErrorView>(installation.binary.executable_path),
        },
    decreases events.len(),
{
    if events.len() > 0 {
        if let ProgressView::Perform(next, action) = spec_step(run, events.first()) {
            lemma_cleanup_cannot_fail(next, installation, events.drop_first());
        } else {
            let ended = spec_step(run, events.first());
            lemma_finished_run_is_over(ended->Finished_0, ended->Finished_1, events.drop_first());
        }
    }
}

/// Where the release is unchanged and its binary is in place, a run without
/// a usable cache ends with the same path as the installation did. It asks
/// for the release, the platform, the directory and a look at the binary,
/// and for nothing else: no download and no removal.
pub proof fn lemma_repeated_run_changes_nothing(
    cache: Option<Seq<char>>,
    release: ReleaseView,
    platform: Platform,
    architecture: Architecture,
)
    requires
        spec_plan_installation(release, platform, architecture) is Ok,
    ensures
        ({
            let installation = spec_plan_installation(release, platform, architecture)->Ok_0;
            let events = seq![
                EventView::ReleaseFetched(Ok(release)),
                EventView::PlatformDetected { platform, architecture },
                EventView::DirectoryCreated(Ok(())),
                EventView::FileChecked { is_file: true },
            ];
            let start = spec_perform(cache, PhaseView::FetchingRelease);
            &&& spec_run(start, events) == spec_succeed(
                spec_locate(BINARY_NAME@, release.version).executable_path,
            )
            &&& spec_asked(start, events) == seq![
                ActionView::FetchLatestRelease {
                    repository: REPOSITORY@,
                    require_assets: true,
                    include_prereleases: false,
                },
                ActionView::DetectPlatform,
                ActionView::CreateDirectory { path: installation.binary.version_directory },
                ActionView::CheckFile { path: installation.binary.executable_path },
            ]
        }),
{
    let installation = spec_plan_installation(release, platform, architecture)->Ok_0;
    let e0 = EventView::ReleaseFetched(Ok(release));
    let e1 = EventView::PlatformDetected { platform, architecture };
    let e2 = EventView::DirectoryCreated(Ok(()));
    let e3 = EventView::FileChecked { is_file: true };
    let p0 = PhaseView::FetchingRelease;
    let p1 = PhaseView::DetectingPlatform { release };
    let p2 = PhaseView::CreatingDirectory { installation };
    let p3 = PhaseView::CheckingBinary { installation };
    assert(seq![e0, e1, e2, e3] =~= seq![e0] + seq![e1, e2, e3]);
    lemma_run_unfolds(RunView { cache, phase: p0 }, spec_pending(p0), e0, seq![e1, e2, e3]);
    assert(seq![e1, e2, e3] =~= seq![e1] + seq![e2, e3]);
    lemma_run_unfolds(RunView { cache, phase: p1 }, spec_pending(p1), e1, seq![e2, e3]);
    assert(seq![e2, e3] =~= seq![e2] + seq![e3]);
    lemma_run_unfolds(RunView { cache, phase: p2 }, spec_pending(p2), e2, seq![e3]);
    lemma_run_unfolds(RunView { cache, phase: p3 }, spec_pending(p3), e3, Seq::empty());
    lemma_finished_run_is_over(
        Some(installation.binary.executable_path),
        Ok(installation.binary.executable_path),
        Seq::empty(),
    );
}

/// Whether `binary` is where some version of the server binary lives: a
/// directory named after binary and version, with the binary inside.
pub open spec fn spec_is_version_location(binary: ProvisionedBinaryView) -> bool {
    exists|version: Seq<char>| binary == #[trigger] spec_locate(BINARY_NAME@, version)
}

/// What holds of a run at every step: while the cache is being looked at,
/// the path in question is the cached one; and whatever is being installed
/// goes where a version of the binary belongs.
pub open spec fn spec_run_invariant(run: RunView) -> bool {
    match run.phase {
        PhaseView::CheckingCache { path } => run.cache == Some(path),
        PhaseView::FetchingRelease => true,
        PhaseView::DetectingPlatform { release } => true,
        PhaseView::CreatingDirectory { installation } => spec_is_version_location(
            installation.binary,
        ),
        PhaseView::CheckingBinary { installation } => spec_is_version_location(
            installation.binary,
        ),
        PhaseView::Downloading { installation } => spec_is_version_location(installation.binary),
        PhaseView::MarkingExecutable { installation } => spec_is_version_location(
            installation.binary,
        ),
        PhaseView::ListingDirectory { installation } => spec_is_version_location(
            installation.binary,
        ),
        PhaseView::RemovingStale { installation, stale } => spec_is_version_location(
            installation.binary,
        ),
    }
}

/// What holds of a run that began with the cache `initial`, wherever it
/// stands. While it goes on, the cache is untouched and the action asked for
/// is the one that its phase waits for. When it ends with a path, the path
/// is cached, and it is either the path that was cached before or the
/// executable of some version. When it ends with an error, the cache is as
/// it was.
pub open spec fn spec_progress_invariant(initial: Option<Seq<char>>, progress: ProgressView) -> bool {
    match progress {
        ProgressView::Perform(run, action) => {
            &&& run.cache == initial
            &&& spec_run_invariant(run)
            &&& action == spec_pending(run.phase)
        },
        ProgressView::Finished(cache, Ok(path)) => {
            &&& cache == Some(path)
            &&& (initial == Some(path) || exists|binary: ProvisionedBinaryView|
                #[trigger] spec_is_version_location(binary) && binary.executable_path == path)
        },
        ProgressView::Finished(cache, Err(error)) => cache == initial,
    }
}

/// A run that has just begun meets the invariant.
pub proof fn lemma_begin_meets_invariant(cache: Option<Seq<char>>)
    ensures
        spec_progress_invariant(cache, spec_begin(cache)),
{
}

/// A step keeps the invariant, whatever the event.
pub proof fn lemma_step_keeps_invariant(run: RunView, event: EventView)
    requires
        spec_run_invariant(run),
    ensures
        spec_progress_invariant(run.cache, spec_step(run, event)),
{
    match (run.phase, event) {
        (
            PhaseView::DetectingPlatform { release },
            EventView::PlatformDetected { platform, architecture },
        ) => {
            if let Ok(installation) = spec_plan_installation(release, platform, architecture) {
                assert(installation.binary == spec_locate(BINARY_NAME@, release.version));
            }
        },
        (PhaseView::CheckingBinary { installation }, EventView::FileChecked { is_file }) => {
            assert(spec_is_version_location(installation.binary));
        },
        (
            PhaseView::RemovingStale { installation, stale },
            EventView::EntriesRemoved(outcomes),
        ) => {
            assert(spec_is_version_location(installation.binary));
        },
        (PhaseView::ListingDirectory { installation }, EventView::DirectoryListed(Err(detail))) => {
            assert(spec_is_version_location(installation.binary));
        },
        _ => {},
    }
}

/// The invariant holds wherever a run stands, whatever events it was handed:
/// the provisioner never answers with a path other than the cached one or
/// the executable of a version, and never forgets a cached path on failure.
pub proof fn lemma_every_run_keeps_invariant(
    initial: Option<Seq<char>>,
    progress: ProgressView,
    events: Seq<EventView>,
)
    requires
        spec_progress_invariant(initial, progress),
    ensures
        spec_progress_invariant(initial, spec_run(progress, events)),
    decreases events.len(),
{
    if events.len() > 0 {
        if let ProgressView::Perform(run, action) = progress {
            lemma_step_keeps_invariant(run, events.first());
            lemma_every_run_keeps_invariant(
                initial,
                spec_step(run, events.first()),
                events.drop_first(),
            );
        }
    }
}

/// Every run that [`spec_begin`] starts meets the invariant from its first
/// action to its end.
pub proof fn lemma_runs_are_sound(cache: Option<Seq<char>>, events: Seq<EventView>)
    ensures
        spec_progress_invariant(cache, spec_run(spec_begin(cache), events)),
{
    lemma_begin_meets_invariant(cache);
    lemma_every_run_keeps_invariant(cache, spec_begin(cache), events);
}

} // verus!
