//! Assembly of the command that the host spawns: executable, arguments and
//! environment.

use crate::settings::{LaunchSettings, LaunchSettingsView, API_KEY_VARIABLE, URL_VARIABLE};
use crate::text::{join, spec_join};
use vstd::prelude::*;
use vstd::string::*;

verus! {

/// The flag that precedes the list of enabled tool categories.
pub const ENABLED_TOOLS_FLAG: &'static str = "--enabled-tools";

/// The flag that turns on debug logging in the server.
pub const DEBUG_FLAG: &'static str = "--debug";

/// The text between two tool categories on the command line.
pub const CATEGORY_SEPARATOR: &'static str = ",";

/// A command for the host to spawn.
#[derive(Clone, Debug, PartialEq, Eq)]
pub struct CommandDescriptor {
    pub command: String,
    pub args: Vec<String>,
    pub env: Vec<(String, String)>,
}

/// What a [`CommandDescriptor`] holds, as plain text.
pub struct CommandDescriptorView {
    pub command: Seq<char>,
    pub args: Seq<Seq<char>>,
    pub env: Seq<(Seq<char>, Seq<char>)>,
}

impl View for CommandDescriptor {
    type V = CommandDescriptorView;

    open spec fn view(&self) -> CommandDescriptorView {
        CommandDescriptorView {
            command: self.command@,
            args: self.args.deep_view(),
            env: self.env.deep_view(),
        }
    }
}

/// The arguments for a tool filter: none without a filter, else the flag and
/// the categories joined by commas in the order given.
pub open spec fn spec_tool_arguments(categories: Option<Seq<Seq<char>>>) -> Seq<Seq<char>> {
    match categories {
        Some(categories) => seq![
            ENABLED_TOOLS_FLAG@,
            spec_join(categories, CATEGORY_SEPARATOR@),
        ],
        None => Seq::empty(),
    }
}

/// The arguments for the debug flag.
pub open spec fn spec_debug_arguments(debug_enabled: bool) -> Seq<Seq<char>> {
    if debug_enabled {
        seq![DEBUG_FLAG@]
    } else {
        Seq::empty()
    }
}

/// The arguments of the launched process: the tool filter, then the debug flag.
pub open spec fn spec_launch_arguments(settings: LaunchSettingsView) -> Seq<Seq<char>> {
    spec_tool_arguments(settings.enabled_tool_categories) + spec_debug_arguments(
        settings.debug_enabled,
    )
}

/// The environment of the launched process: the URL always and first, the
/// credential after it where there is one.
pub open spec fn spec_launch_environment(settings: LaunchSettingsView) -> Seq<
    (Seq<char>, Seq<char>),
> {
    match settings.api_key {
        Some(api_key) => seq![(URL_VARIABLE@, settings.server_url), (API_KEY_VARIABLE@, api_key)],
        None => seq![(URL_VARIABLE@, settings.server_url)],
    }
}

/// The command that runs `executable_path` as `settings` ask.
pub open spec fn spec_assemble(
    executable_path: Seq<char>,
    settings: LaunchSettingsView,
) -> CommandDescriptorView {
    CommandDescriptorView {
        command: executable_path,
        args: spec_launch_arguments(settings),
        env: spec_launch_environment(settings),
    }
}

/// Builds the arguments of the launched process.
pub fn launch_arguments(settings: &LaunchSettings) -> (args: Vec<String>)
    ensures
        args.deep_view() == spec_launch_arguments(settings@),
{
    let mut args: Vec<String> = Vec::new();
    match &settings.enabled_tool_categories {
        Some(categories) => {
            args.push(String::from_str(ENABLED_TOOLS_FLAG));
            args.push(join(categories, CATEGORY_SEPARATOR));
        },
        None => {},
    }
    if settings.debug_enabled {
        args.push(String::from_str(DEBUG_FLAG));
    }
    args
}

/// Builds the environment of the launched process.
pub fn launch_environment(settings: &LaunchSettings) -> (env: Vec<(String, String)>)
    ensures
        env.deep_view() == spec_launch_environment(settings@),
{
    let mut env: Vec<(String, String)> = Vec::new();
    env.push((String::from_str(URL_VARIABLE), settings.server_url.clone()));
    match &settings.api_key {
        Some(api_key) => {
            env.push((String::from_str(API_KEY_VARIABLE), api_key.clone()));
        },
        None => {},
    }
    env
}

/// Assembles the command that runs `executable_path` as `settings` ask.
pub fn assemble(executable_path: String, settings: &LaunchSettings) -> (command: CommandDescriptor)
    ensures
        command@ == spec_assemble(executable_path@, settings@),
{
    let args = launch_arguments(settings);
    let env = launch_environment(settings);
    CommandDescriptor { command: executable_path, args, env }
}

/// The URL variable is always set, and is the first entry of the environment.
pub proof fn lemma_url_always_set(settings: LaunchSettingsView)
    ensures
        spec_launch_environment(settings).len() >= 1,
        spec_launch_environment(settings)[0] == (URL_VARIABLE@, settings.server_url),
{
}

/// The credential variable is set exactly when there is a credential, and
/// then follows the URL; nothing else is ever set.
pub proof fn lemma_credential_set_iff_present(settings: LaunchSettingsView)
    ensures
        settings.api_key is None ==> spec_launch_environment(settings).len() == 1,
        settings.api_key matches Some(api_key) ==> spec_launch_environment(settings).len() == 2
            && spec_launch_environment(settings)[1] == (API_KEY_VARIABLE@, api_key),
{
}

/// With both a tool filter and debug logging, the arguments are the filter
/// flag, the joined categories and the debug flag, in that order.
pub proof fn lemma_arguments_in_order(settings: LaunchSettingsView)
    requires
        settings.enabled_tool_categories is Some,
        settings.debug_enabled,
    ensures
        spec_launch_arguments(settings) == seq![
            ENABLED_TOOLS_FLAG@,
            spec_join(settings.enabled_tool_categories->0, CATEGORY_SEPARATOR@),
            DEBUG_FLAG@,
        ],
{
}

} // verus!
