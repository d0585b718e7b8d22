use mcp_server_grafana::cleanup::DirectoryEntry;
use mcp_server_grafana::command::CommandDescriptor;
use mcp_server_grafana::error::{ConfigurationError, LaunchError};
use mcp_server_grafana::launch::{begin_launch, continue_launch, LaunchProgress};
use mcp_server_grafana::platform::{Architecture, Platform};
use mcp_server_grafana::protocol::{Action, Event};
use mcp_server_grafana::provision::BinaryCache;
use mcp_server_grafana::release::{Release, ReleaseAsset};
use mcp_server_grafana::settings::{EnvironmentOverrides, StructuredSettings};

fn settings() -> StructuredSettings {
    StructuredSettings {
        grafana_url: Some("https://settings.example".to_string()),
        grafana_api_key: Some("settings-key".to_string()),
        enabled_tools: Some(vec!["incident".to_string(), "dashboard".to_string()]),
        debug: true,
    }
}

fn no_overrides() -> EnvironmentOverrides {
    EnvironmentOverrides { grafana_url: None, grafana_api_key: None }
}

fn cached(path: &str) -> BinaryCache {
    BinaryCache { path: Some(path.to_string()) }
}

fn release() -> Release {
    Release {
        version: "v0.7.2".to_string(),
        assets: vec![ReleaseAsset {
            name: "mcp-grafana_Linux_x86_64.tar.gz".to_string(),
            download_url: "https://downloads.example/linux".to_string(),
        }],
    }
}

fn expect_action(progress: LaunchProgress) -> (mcp_server_grafana::launch::Launch, Action) {
    match progress {
        LaunchProgress::Perform(launch, action) => (launch, action),
        LaunchProgress::Finished(_, outcome) => panic!("finished early with {outcome:?}"),
    }
}

#[test]
fn launch_without_settings_fails_before_anything_is_asked() {
    let progress = begin_launch(cached("old/mcp-grafana"), None, no_overrides());
    assert_eq!(
        progress,
        LaunchProgress::Finished(
            cached("old/mcp-grafana"),
            Err(LaunchError::Configuration(ConfigurationError::MissingSettings))
        )
    );
}

#[test]
fn launch_without_url_fails_before_anything_is_asked() {
    let mut structured = settings();
    structured.grafana_url = None;
    let progress = begin_launch(BinaryCache::new(), Some(structured), no_overrides());
    match progress {
        LaunchProgress::Finished(cache, Err(error)) => {
            assert_eq!(cache, BinaryCache::new());
            assert_eq!(error, LaunchError::Configuration(ConfigurationError::MissingUrl));
            assert_eq!(
                error.message(),
                "missing Grafana URL; configure in `grafana_url` setting or GRAFANA_URL env var"
            );
        }
        other => panic!("expected a configuration error, got {other:?}"),
    }
}

#[test]
fn launch_with_cached_binary_yields_the_command() {
    let progress = begin_launch(cached("mcp-grafana-v0.7.2/mcp-grafana"), Some(settings()), no_overrides());
    let (launch, action) = expect_action(progress);
    assert_eq!(action, Action::CheckFile { path: "mcp-grafana-v0.7.2/mcp-grafana".to_string() });
    let finished = continue_launch(launch, Event::FileChecked { is_file: true });
    assert_eq!(
        finished,
        LaunchProgress::Finished(
            cached("mcp-grafana-v0.7.2/mcp-grafana"),
            Ok(CommandDescriptor {
                command: "mcp-grafana-v0.7.2/mcp-grafana".to_string(),
                args: vec![
                    "--enabled-tools".to_string(),
                    "incident,dashboard".to_string(),
                    "--debug".to_string(),
                ],
                env: vec![
                    ("GRAFANA_URL".to_string(), "https://settings.example".to_string()),
                    ("GRAFANA_API_KEY".to_string(), "settings-key".to_string()),
                ],
            })
        )
    );
}

#[test]
fn launch_uses_the_overrides_of_the_environment() {
    let overrides = EnvironmentOverrides {
        grafana_url: Some("https://env.example".to_string()),
        grafana_api_key: Some("env-key".to_string()),
    };
    let progress = begin_launch(cached("bin"), Some(settings()), overrides);
    let (launch, _) = expect_action(progress);
    match continue_launch(launch, Event::FileChecked { is_file: true }) {
        LaunchProgress::Finished(_, Ok(command)) => {
            assert_eq!(
                command.env,
                vec![
                    ("GRAFANA_URL".to_string(), "https://env.example".to_string()),
                    ("GRAFANA_API_KEY".to_string(), "env-key".to_string()),
                ]
            );
        }
        other => panic!("expected a command, got {other:?}"),
    }
}

#[test]
fn launch_installs_the_binary_where_there_is_none() {
    let events = vec![
        Event::ReleaseFetched(Ok(release())),
        Event::PlatformDetected { platform: Platform::Linux, architecture: Architecture::X8664 },
        Event::DirectoryCreated(Ok(())),
        Event::FileChecked { is_file: false },
        Event::Downloaded(Ok(())),
        Event::MadeExecutable(Ok(())),
        Event::DirectoryListed(Ok(vec![DirectoryEntry::Named("mcp-grafana-v0.7.2".to_string())])),
        Event::EntriesRemoved(Vec::new()),
    ];
    let mut progress = begin_launch(
        BinaryCache::new(),
        Some(StructuredSettings {
            grafana_url: Some("https://settings.example".to_string()),
            grafana_api_key: None,
            enabled_tools: None,
            debug: false,
        }),
        no_overrides(),
    );
    let mut asked = 0;
    for event in events {
        let (launch, _) = expect_action(progress);
        asked += 1;
        progress = continue_launch(launch, event);
    }
    assert_eq!(asked, 8);
    assert_eq!(
        progress,
        LaunchProgress::Finished(
            cached("mcp-grafana-v0.7.2/mcp-grafana"),
            Ok(CommandDescriptor {
                command: "mcp-grafana-v0.7.2/mcp-grafana".to_string(),
                args: Vec::new(),
                env: vec![("GRAFANA_URL".to_string(), "https://settings.example".to_string())],
            })
        )
    );
}

#[test]
fn launch_reports_the_failure_of_the_provisioner_as_it_is() {
    let progress = begin_launch(BinaryCache::new(), Some(settings()), no_overrides());
    let (launch, action) = expect_action(progress);
    assert!(matches!(action, Action::FetchLatestRelease { .. }));
    let finished = continue_launch(launch, Event::ReleaseFetched(Err("offline".to_string())));
    match finished {
        LaunchProgress::Finished(cache, Err(error)) => {
            assert_eq!(cache, BinaryCache::new());
            assert_eq!(error, LaunchError::ReleaseLookup("offline".to_string()));
            assert_eq!(error.message(), "offline");
        }
        other => panic!("expected a failure, got {other:?}"),
    }
}

#[test]
fn launch_keeps_its_settings_from_step_to_step() {
    let progress = begin_launch(BinaryCache::new(), Some(settings()), no_overrides());
    let (launch, _) = expect_action(progress);
    let resolved = launch.settings.clone();
    let (launch, action) =
        expect_action(continue_launch(launch, Event::ReleaseFetched(Ok(release()))));
    assert_eq!(action, Action::DetectPlatform);
    assert_eq!(launch.settings, resolved);
}
