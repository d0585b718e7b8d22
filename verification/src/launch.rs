//! The orchestrator: from settings and a provisioned binary to the command
//! that the host spawns.
//!
//! Settings are resolved first; where they cannot be used, the launch is over
//! before anything is asked of network or disk. Otherwise the launch follows
//! the provisioner, and its result becomes the command or the failure.

use crate::command::{assemble, spec_assemble, CommandDescriptor, CommandDescriptorView};
use crate::error::{LaunchError, LaunchErrorView};
use crate::protocol::{Action, ActionView, Event, EventView};
use crate::provision::{
    begin, spec_begin, spec_step, step, BinaryCache, Progress, ProgressView, Run, RunView,
};
use crate::settings::{
    resolve, spec_resolve, EnvironmentOverrides, EnvironmentOverridesView, LaunchSettings,
    LaunchSettingsView, StructuredSettings, StructuredSettingsView,
};
use vstd::prelude::*;

verus! {

/// A launch in progress: the resolved settings and the provisioning run.
#[derive(Clone, Debug, PartialEq, Eq)]
pub struct Launch {
    pub settings: LaunchSettings,
    pub run: Run,
}

/// What a [`Launch`] holds, as plain text.
pub struct LaunchView {
    pub settings: LaunchSettingsView,
    pub run: RunView,
}

impl View for Launch {
    type V = LaunchView;

    open spec fn view(&self) -> LaunchView {
        LaunchView { settings: self.settings@, run: self.run@ }
    }
}

/// Where a launch stands after [`begin_launch`] or [`continue_launch`].
#[derive(Debug, PartialEq, Eq)]
pub enum LaunchProgress {
    /// The caller is to perform the action and hand the resulting event,
    /// with the launch, to [`continue_launch`].
    Perform(Launch, Action),
    /// The launch is over. The cache is the one to keep for later launches;
    /// the result is the command to spawn, or why there is none.
    Finished(BinaryCache, Result<CommandDescriptor, LaunchError>),
}

/// What a [`LaunchProgress`] holds, as plain text.
pub enum LaunchProgressView {
    Perform(LaunchView, ActionView),
    Finished(Option<Seq<char>>, Result<CommandDescriptorView, LaunchErrorView>),
}

impl View for LaunchProgress {
    type V = LaunchProgressView;

    open spec fn view(&self) -> LaunchProgressView {
        match self {
            LaunchProgress::Perform(launch, action) => LaunchProgressView::Perform(
                launch@,
                action@,
            ),
            LaunchProgress::Finished(cache, outcome) => LaunchProgressView::Finished(
                cache@,
                match outcome {
                    Ok(command) => Ok(command@),
                    Err(error) => Err(error@),
                },
            ),
        }
    }
}

/// What the state of the provisioner means for a launch with `settings`: its
/// actions are the launch's, its failure is the launch's, and the path it
/// ends with becomes the command.
pub open spec fn spec_follow(
    settings: LaunchSettingsView,
    progress: ProgressView,
) -> LaunchProgressView {
    match progress {
        ProgressView::Perform(run, action) => LaunchProgressView::Perform(
            LaunchView { settings, run },
            action,
        ),
        ProgressView::Finished(cache, Ok(path)) => LaunchProgressView::Finished(
            cache,
            Ok(spec_assemble(path, settings)),
        ),
        ProgressView::Finished(cache, Err(error)) => LaunchProgressView::Finished(
            cache,
            Err(error),
        ),
    }
}

/// How a launch begins.
pub open spec fn spec_begin_launch(
    cache: Option<Seq<char>>,
    settings: Option<StructuredSettingsView>,
    environment: EnvironmentOverridesView,
) -> LaunchProgressView {
    match spec_resolve(settings, environment) {
        Ok(resolved) => spec_follow(resolved, spec_begin(cache)),
        Err(error) => LaunchProgressView::Finished(
            cache,
            Err(LaunchErrorView::Configuration(error)),
        ),
    }
}

/// How a launch goes on when `event` arrives.
pub open spec fn spec_continue_launch(launch: LaunchView, event: EventView) -> LaunchProgressView {
    spec_follow(launch.settings, spec_step(launch.run, event))
}

/// Turns the state of the provisioner into that of the launch.
fn follow(settings: LaunchSettings, progress: Progress) -> (launch: LaunchProgress)
    ensures
        launch@ == spec_follow(settings@, progress@),
{
    match progress {
        Progress::Perform(run, action) => LaunchProgress::Perform(Launch { settings, run }, action),
        Progress::Finished(cache, Ok(path)) => LaunchProgress::Finished(
            cache,
            Ok(assemble(path, &settings)),
        ),
        Progress::Finished(cache, Err(error)) => LaunchProgress::Finished(cache, Err(error)),
    }
}

/// Begins a launch: resolves the settings and, where they can be used,
/// begins provisioning with the cache left by earlier launches.
pub fn begin_launch(
    cache: BinaryCache,
    settings: Option<StructuredSettings>,
    environment: EnvironmentOverrides,
) -> (launch: LaunchProgress)
    ensures
        launch@ == spec_begin_launch(cache@, settings.deep_view(), environment@),
{
    match resolve(settings, environment) {
        Ok(resolved) => follow(resolved, begin(cache)),
        Err(error) => LaunchProgress::Finished(cache, Err(LaunchError::Configuration(error))),
    }
}

/// Takes a launch one step further: `event` reports what came of the action
/// that the launch was waiting for.
pub fn continue_launch(launch: Launch, event: Event) -> (next: LaunchProgress)
    ensures
        next@ == spec_continue_launch(launch@, event@),
{
    follow(launch.settings, step(launch.run, event))
}

/// Settings that cannot be used end the launch at once: nothing is asked
/// for, the cache stays as it was, and the failure is the resolver's own.
pub proof fn lemma_unusable_settings_end_launch(
    cache: Option<Seq<char>>,
    settings: Option<StructuredSettingsView>,
    environment: EnvironmentOverridesView,
)
    ensures
        spec_resolve(settings, environment) matches Err(error) ==> spec_begin_launch(
            cache,
            settings,
            environment,
        ) == LaunchProgressView::Finished(cache, Err(LaunchErrorView::Configuration(error))),
        spec_resolve(settings, environment) is Ok ==> spec_begin_launch(
            cache,
            settings,
            environment,
        ) is Perform,
{
}

/// A launch asks for exactly what its provisioning run asks for, fails
/// exactly as the run fails, and keeps its settings throughout.
pub proof fn lemma_launch_follows_provisioner(launch: LaunchView, event: EventView)
    ensures
        match spec_step(launch.run, event) {
            ProgressView::Perform(run, action) => spec_continue_launch(launch, event)
                == LaunchProgressView::Perform(
                LaunchView { settings: launch.settings, run },
                action,
            ),
            ProgressView::Finished(cache, Err(error)) => spec_continue_launch(launch, event)
                == LaunchProgressView::Finished(cache, Err(error)),
            ProgressView::Finished(cache, Ok(path)) => spec_continue_launch(launch, event)
                == LaunchProgressView::Finished(cache, Ok(spec_assemble(path, launch.settings))),
        },
{
}

/// The command of a launch that succeeds runs the provisioned binary with
/// the arguments and the environment that the resolved settings ask for.
pub proof fn lemma_command_of_successful_launch(launch: LaunchView, event: EventView)
    requires
        spec_continue_launch(launch, event) matches LaunchProgressView::Finished(_, Ok(_)),
    ensures
        spec_step(launch.run, event) matches ProgressView::Finished(cache, Ok(path))
            && spec_continue_launch(launch, event) == LaunchProgressView::Finished(
            Some(path),
            Ok(
                CommandDescriptorView {
                    command: path,
                    args: crate::command::spec_launch_arguments(launch.settings),
                    env: crate::command::spec_launch_environment(launch.settings),
                },
            ),
        ),
{
}

} // verus!
