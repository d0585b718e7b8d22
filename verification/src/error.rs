//! The ways in which a launch can fail, and the message reported for each.

use vstd::prelude::*;
use vstd::string::*;

verus! {

/// A launch configuration that cannot be used.
#[derive(Clone, Copy, Debug, PartialEq, Eq, Structural)]
pub enum ConfigurationError {
    /// No settings were given at all.
    MissingSettings,
    /// Neither the environment nor the settings name a server URL.
    MissingUrl,
}

/// A file-system operation that failed, with the system's own description.
/// Failures while stale versions are removed are not among them: those are
/// passed over.
#[derive(Clone, Debug, PartialEq, Eq)]
pub enum FilesystemError {
    /// The version directory could not be created.
    CreateDirectory { directory: String, detail: String },
}

/// What a [`FilesystemError`] holds, as plain text.
pub enum FilesystemErrorView {
    CreateDirectory { directory: Seq<char>, detail: Seq<char> },
}

impl View for FilesystemError {
    type V = FilesystemErrorView;

    open spec fn view(&self) -> FilesystemErrorView {
        match self {
            FilesystemError::CreateDirectory { directory, detail } => {
                FilesystemErrorView::CreateDirectory { directory: directory@, detail: detail@ }
            },
        }
    }
}

/// Why a launch attempt ended without a command.
#[derive(Clone, Debug, PartialEq, Eq)]
pub enum LaunchError {
    /// The settings cannot be used.
    Configuration(ConfigurationError),
    /// The release source could not name a latest release.
    ReleaseLookup(String),
    /// The release has no asset with the expected name, which is carried here.
    AssetNotFound(String),
    /// A file-system operation failed.
    Filesystem(FilesystemError),
    /// The archive could not be fetched or unpacked.
    Download(String),
    /// The binary could not be marked executable.
    Permission(String),
}

/// What a [`LaunchError`] holds, as plain text.
pub enum LaunchErrorView {
    Configuration(ConfigurationError),
    ReleaseLookup(Seq<char>),
    AssetNotFound(Seq<char>),
    Filesystem(FilesystemErrorView),
    Download(Seq<char>),
    Permission(Seq<char>),
}

impl View for LaunchError {
    type V = LaunchErrorView;

    open spec fn view(&self) -> LaunchErrorView {
        match self {
            LaunchError::Configuration(e) => LaunchErrorView::Configuration(*e),
            LaunchError::ReleaseLookup(detail) => LaunchErrorView::ReleaseLookup(detail@),
            LaunchError::AssetNotFound(name) => LaunchErrorView::AssetNotFound(name@),
            LaunchError::Filesystem(e) => LaunchErrorView::Filesystem(e@),
            LaunchError::Download(detail) => LaunchErrorView::Download(detail@),
            LaunchError::Permission(detail) => LaunchErrorView::Permission(detail@),
        }
    }
}

/// The text that formatting a string slice with `{:?}` produces: the slice in
/// double quotes, with the characters that need it escaped.
pub uninterp spec fn spec_debug_text(text: Seq<char>) -> Seq<char>;

/// Formats `text` with `{:?}`, that is through `<str as core::fmt::Debug>::fmt`.
///
/// Trusted: the result is taken to depend on the characters of `text` alone,
/// and is named [`spec_debug_text`]; nothing is claimed about what it holds.
#[verifier::external_body]
fn debug_text(text: &str) -> (quoted: String)
    ensures
        quoted@ == spec_debug_text(text@),
{
    format!("{:?}", text)
}

/// The message for a configuration error.
pub open spec fn spec_configuration_message(error: ConfigurationError) -> Seq<char> {
    match error {
        ConfigurationError::MissingSettings => "missing Grafana settings"@,
        ConfigurationError::MissingUrl => "missing Grafana URL; configure in `grafana_url` setting or GRAFANA_URL env var"@,
    }
}

/// The message for a file-system error.
pub open spec fn spec_filesystem_message(error: FilesystemErrorView) -> Seq<char> {
    match error {
        FilesystemErrorView::CreateDirectory { directory, detail } => {
            "failed to create directory '"@ + directory + "': "@ + detail
        },
    }
}

/// The message for a missing asset, given the asset's name already quoted.
pub open spec fn spec_asset_not_found_message(quoted_name: Seq<char>) -> Seq<char> {
    "no asset found matching "@ + quoted_name
}

/// The message for a failed download.
pub open spec fn spec_download_message(detail: Seq<char>) -> Seq<char> {
    "failed to download file: "@ + detail
}

/// The message reported to the host for `error`. Failures of the release
/// lookup and of marking the binary executable are reported in the words of
/// whoever detected them.
pub open spec fn spec_message(error: LaunchErrorView) -> Seq<char> {
    match error {
        LaunchErrorView::Configuration(e) => spec_configuration_message(e),
        LaunchErrorView::ReleaseLookup(detail) => detail,
        LaunchErrorView::AssetNotFound(name) => spec_asset_not_found_message(
            spec_debug_text(name),
        ),
        LaunchErrorView::Filesystem(e) => spec_filesystem_message(e),
        LaunchErrorView::Download(detail) => spec_download_message(detail),
        LaunchErrorView::Permission(detail) => detail,
    }
}

impl ConfigurationError {
    /// The message reported to the host for this error.
    pub fn message(&self) -> (message: String)
        ensures
            message@ == spec_configuration_message(*self),
    {
        match self {
            ConfigurationError::MissingSettings => String::from_str("missing Grafana settings"),
            ConfigurationError::MissingUrl => String::from_str(
                "missing Grafana URL; configure in `grafana_url` setting or GRAFANA_URL env var",
            ),
        }
    }
}

impl FilesystemError {
    /// The message reported to the host for this error.
    pub fn message(&self) -> (message: String)
        ensures
            message@ == spec_filesystem_message(self@),
    {
        match self {
            FilesystemError::CreateDirectory { directory, detail } => {
                let mut message = String::from_str("failed to create directory '");
                message.append(directory.as_str());
                message.append("': ");
                message.append(detail.as_str());
                message
            },
        }
    }
}

/// The message for a release that lacks the expected asset, given the asset's
/// name as `{:?}` formats it.
pub fn asset_not_found_message(quoted_name: &str) -> (message: String)
    ensures
        message@ == spec_asset_not_found_message(quoted_name@),
{
    let mut message = String::from_str("no asset found matching ");
    message.append(quoted_name);
    message
}

impl LaunchError {
    /// The message reported to the host for this error.
    pub fn message(&self) -> (message: String)
        ensures
            message@ == spec_message(self@),
    {
        match self {
            LaunchError::Configuration(e) => e.message(),
            LaunchError::ReleaseLookup(detail) => detail.clone(),
            LaunchError::AssetNotFound(name) => {
                let quoted = debug_text(name.as_str());
                asset_not_found_message(quoted.as_str())
            },
            LaunchError::Filesystem(e) => e.message(),
            LaunchError::Download(detail) => {
                let mut message = String::from_str("failed to download file: ");
                message.append(detail.as_str());
                message
            },
            LaunchError::Permission(detail) => detail.clone(),
        }
    }
}

} // verus!
