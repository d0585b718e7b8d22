//! Settings resolution: the structured settings of the host and the process
//! environment are merged into the configuration of one launch.

use crate::error::ConfigurationError;
use vstd::prelude::*;

verus! {

/// The name under which the host keeps the settings of this server.
pub const CONTEXT_SERVER_ID: &'static str = "mcp-grafana";

/// The environment variable that names the Grafana instance.
pub const URL_VARIABLE: &'static str = "GRAFANA_URL";

/// The environment variable that carries the credential.
pub const API_KEY_VARIABLE: &'static str = "GRAFANA_API_KEY";

/// The settings that the host stores for this server.
#[derive(Clone, Debug, PartialEq, Eq)]
pub struct StructuredSettings {
    /// The URL of the Grafana instance; may come from the environment instead.
    pub grafana_url: Option<String>,
    /// The API key; not needed where the instance takes unauthenticated requests.
    pub grafana_api_key: Option<String>,
    /// The enabled categories of tools; `None` enables all of them.
    pub enabled_tools: Option<Vec<String>>,
    /// Whether the server logs its exchanges with the Grafana instance.
    pub debug: bool,
}

/// What a [`StructuredSettings`] holds, as plain text.
pub struct StructuredSettingsView {
    pub grafana_url: Option<Seq<char>>,
    pub grafana_api_key: Option<Seq<char>>,
    pub enabled_tools: Option<Seq<Seq<char>>>,
    pub debug: bool,
}

impl View for StructuredSettings {
    type V = StructuredSettingsView;

    open spec fn view(&self) -> StructuredSettingsView {
        StructuredSettingsView {
            grafana_url: self.grafana_url.deep_view(),
            grafana_api_key: self.grafana_api_key.deep_view(),
            enabled_tools: self.enabled_tools.deep_view(),
            debug: self.debug,
        }
    }
}

impl DeepView for StructuredSettings {
    type V = StructuredSettingsView;

    open spec fn deep_view(&self) -> StructuredSettingsView {
        self@
    }
}

/// The values of [`URL_VARIABLE`] and [`API_KEY_VARIABLE`] in the process
/// environment, each `None` where the variable is not set.
#[derive(Clone, Debug, PartialEq, Eq)]
pub struct EnvironmentOverrides {
    pub grafana_url: Option<String>,
    pub grafana_api_key: Option<String>,
}

/// What an [`EnvironmentOverrides`] holds, as plain text.
pub struct EnvironmentOverridesView {
    pub grafana_url: Option<Seq<char>>,
    pub grafana_api_key: Option<Seq<char>>,
}

impl View for EnvironmentOverrides {
    type V = EnvironmentOverridesView;

    open spec fn view(&self) -> EnvironmentOverridesView {
        EnvironmentOverridesView {
            grafana_url: self.grafana_url.deep_view(),
            grafana_api_key: self.grafana_api_key.deep_view(),
        }
    }
}

/// The configuration of one launch. The server URL is always present:
/// resolution fails where none is available.
#[derive(Clone, Debug, PartialEq, Eq)]
pub struct LaunchSettings {
    pub server_url: String,
    pub api_key: Option<String>,
    pub enabled_tool_categories: Option<Vec<String>>,
    pub debug_enabled: bool,
}

/// What a [`LaunchSettings`] holds, as plain text.
pub struct LaunchSettingsView {
    pub server_url: Seq<char>,
    pub api_key: Option<Seq<char>>,
    pub enabled_tool_categories: Option<Seq<Seq<char>>>,
    pub debug_enabled: bool,
}

impl View for LaunchSettings {
    type V = LaunchSettingsView;

    open spec fn view(&self) -> LaunchSettingsView {
        LaunchSettingsView {
            server_url: self.server_url@,
            api_key: self.api_key.deep_view(),
            enabled_tool_categories: self.enabled_tool_categories.deep_view(),
            debug_enabled: self.debug_enabled,
        }
    }
}

/// The value from the environment where there is one, else the value from the
/// structured settings.
pub open spec fn spec_prefer_environment(
    environment: Option<Seq<char>>,
    structured: Option<Seq<char>>,
) -> Option<Seq<char>> {
    match environment {
        Some(value) => Some(value),
        None => structured,
    }
}

/// The outcome of settings resolution.
///
/// Without settings there is no launch. With settings, the URL and the
/// credential come from the environment where it has them and from the
/// settings otherwise; a URL is required, a credential is not. The tool
/// filter and the debug flag are those of the settings.
pub open spec fn spec_resolve(
    settings: Option<StructuredSettingsView>,
    environment: EnvironmentOverridesView,
) -> Result<LaunchSettingsView, ConfigurationError> {
    match settings {
        None => Err(ConfigurationError::MissingSettings),
        Some(settings) => match spec_prefer_environment(
            environment.grafana_url,
            settings.grafana_url,
        ) {
            None => Err(ConfigurationError::MissingUrl),
            Some(server_url) => Ok(
                LaunchSettingsView {
                    server_url,
                    api_key: spec_prefer_environment(
                        environment.grafana_api_key,
                        settings.grafana_api_key,
                    ),
                    enabled_tool_categories: settings.enabled_tools,
                    debug_enabled: settings.debug,
                },
            ),
        },
    }
}

/// The view of a resolution outcome.
pub open spec fn spec_resolution_view(
    outcome: Result<LaunchSettings, ConfigurationError>,
) -> Result<LaunchSettingsView, ConfigurationError> {
    match outcome {
        Ok(settings) => Ok(settings@),
        Err(e) => Err(e),
    }
}

/// Picks the value from the environment where there is one, else the value
/// from the structured settings.
pub fn prefer_environment(environment: Option<String>, structured: Option<String>) -> (chosen:
    Option<String>)
    ensures
        chosen.deep_view() == spec_prefer_environment(
            environment.deep_view(),
            structured.deep_view(),
        ),
{
    match environment {
        Some(value) => Some(value),
        None => structured,
    }
}

/// Resolves the settings of one launch.
pub fn resolve(settings: Option<StructuredSettings>, environment: EnvironmentOverrides) -> (outcome:
    Result<LaunchSettings, ConfigurationError>)
    ensures
        spec_resolution_view(outcome) == spec_resolve(settings.deep_view(), environment@),
{
    let settings = match settings {
        Some(settings) => settings,
        None => {
            return Err(ConfigurationError::MissingSettings);
        },
    };
    let server_url = match prefer_environment(environment.grafana_url, settings.grafana_url) {
        Some(server_url) => server_url,
        None => {
            return Err(ConfigurationError::MissingUrl);
        },
    };
    let api_key = prefer_environment(environment.grafana_api_key, settings.grafana_api_key);
    Ok(
        LaunchSettings {
            server_url,
            api_key,
            enabled_tool_categories: settings.enabled_tools,
            debug_enabled: settings.debug,
        },
    )
}

/// Without a URL in the environment and without one in the settings,
/// resolution fails, whatever else the settings and the environment hold and
/// whether or not settings were given at all.
pub proof fn lemma_resolution_fails_without_url(
    settings: Option<StructuredSettingsView>,
    environment: EnvironmentOverridesView,
)
    requires
        environment.grafana_url is None,
        settings matches Some(given) ==> given.grafana_url is None,
    ensures
        spec_resolve(settings, environment) is Err,
        settings is Some ==> spec_resolve(settings, environment) == Err::<LaunchSettingsView, _>(
            ConfigurationError::MissingUrl,
        ),
{
}

/// Resolution fails in two cases and no other: no settings were given, or
/// settings were given and neither they nor the environment hold a URL.
pub proof fn lemma_resolution_failures(
    settings: Option<StructuredSettingsView>,
    environment: EnvironmentOverridesView,
)
    ensures
        spec_resolve(settings, environment) == Err::<LaunchSettingsView, _>(
            ConfigurationError::MissingSettings,
        ) <==> settings is None,
        spec_resolve(settings, environment) == Err::<LaunchSettingsView, _>(
            ConfigurationError::MissingUrl,
        ) <==> (settings matches Some(given) && given.grafana_url is None
            && environment.grafana_url is None),
{
}

/// A URL in the environment is the resolved URL, whatever the settings hold.
pub proof fn lemma_environment_url_wins(
    settings: StructuredSettingsView,
    environment: EnvironmentOverridesView,
)
    requires
        environment.grafana_url is Some,
    ensures
        spec_resolve(Some(settings), environment) matches Ok(resolved) && resolved.server_url
            == environment.grafana_url->0,
{
}

/// Where the environment holds no URL, the URL of the settings is used.
pub proof fn lemma_structured_url_is_fallback(
    settings: StructuredSettingsView,
    environment: EnvironmentOverridesView,
)
    requires
        environment.grafana_url is None,
        settings.grafana_url is Some,
    ensures
        spec_resolve(Some(settings), environment) matches Ok(resolved) && resolved.server_url
            == settings.grafana_url->0,
{
}

/// The credential follows the same precedence as the URL but is optional;
/// the tool filter and the debug flag never come from the environment.
pub proof fn lemma_resolved_fields(
    settings: StructuredSettingsView,
    environment: EnvironmentOverridesView,
)
    requires
        spec_resolve(Some(settings), environment) is Ok,
    ensures
        ({
            let resolved = spec_resolve(Some(settings), environment)->Ok_0;
            &&& resolved.api_key == spec_prefer_environment(
                environment.grafana_api_key,
                settings.grafana_api_key,
            )
            &&& resolved.enabled_tool_categories == settings.enabled_tools
            &&& resolved.debug_enabled == settings.debug
        }),
{
}

} // verus!
