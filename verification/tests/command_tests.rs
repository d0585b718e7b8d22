use mcp_server_grafana::command::{
    assemble, launch_arguments, launch_environment, CommandDescriptor, DEBUG_FLAG,
    ENABLED_TOOLS_FLAG,
};
use mcp_server_grafana::settings::LaunchSettings;

fn settings(key: Option<&str>, tools: Option<&[&str]>, debug: bool) -> LaunchSettings {
    LaunchSettings {
        server_url: "https://grafana.example".to_string(),
        api_key: key.map(str::to_string),
        enabled_tool_categories: tools
            .map(|tools| tools.iter().map(|tool| tool.to_string()).collect()),
        debug_enabled: debug,
    }
}

fn pair(name: &str, value: &str) -> (String, String) {
    (name.to_string(), value.to_string())
}

#[test]
fn flag_names() {
    assert_eq!(ENABLED_TOOLS_FLAG, "--enabled-tools");
    assert_eq!(DEBUG_FLAG, "--debug");
}

#[test]
fn arguments_with_tool_filter_and_debug() {
    let args = launch_arguments(&settings(None, Some(&["incident", "dashboard"]), true));
    assert_eq!(args, vec!["--enabled-tools", "incident,dashboard", "--debug"]);
}

#[test]
fn arguments_with_tool_filter_only() {
    let args = launch_arguments(&settings(None, Some(&["incident", "dashboard"]), false));
    assert_eq!(args, vec!["--enabled-tools", "incident,dashboard"]);
}

#[test]
fn arguments_with_debug_only() {
    let args = launch_arguments(&settings(None, None, true));
    assert_eq!(args, vec!["--debug"]);
}

#[test]
fn arguments_without_filter_or_debug() {
    let args = launch_arguments(&settings(None, None, false));
    assert!(args.is_empty());
}

#[test]
fn arguments_keep_the_order_of_the_categories() {
    let args = launch_arguments(&settings(None, Some(&["dashboard", "incident", "alerting"]), false));
    assert_eq!(args, vec!["--enabled-tools", "dashboard,incident,alerting"]);
}

#[test]
fn arguments_with_an_empty_filter() {
    let args = launch_arguments(&settings(None, Some(&[]), false));
    assert_eq!(args, vec!["--enabled-tools", ""]);
}

#[test]
fn arguments_with_one_category() {
    let args = launch_arguments(&settings(None, Some(&["search"]), true));
    assert_eq!(args, vec!["--enabled-tools", "search", "--debug"]);
}

#[test]
fn environment_without_credential_holds_only_the_url() {
    let env = launch_environment(&settings(None, None, false));
    assert_eq!(env, vec![pair("GRAFANA_URL", "https://grafana.example")]);
}

#[test]
fn environment_with_credential_holds_both_url_first() {
    let env = launch_environment(&settings(Some("secret"), None, false));
    assert_eq!(
        env,
        vec![pair("GRAFANA_URL", "https://grafana.example"), pair("GRAFANA_API_KEY", "secret")]
    );
}

#[test]
fn environment_does_not_depend_on_filter_or_debug() {
    let plain = launch_environment(&settings(Some("secret"), None, false));
    let busy = launch_environment(&settings(Some("secret"), Some(&["incident"]), true));
    assert_eq!(plain, busy);
}

#[test]
fn assemble_builds_the_whole_command() {
    let command = assemble(
        "mcp-grafana-v0.7.2/mcp-grafana".to_string(),
        &settings(Some("secret"), Some(&["incident", "dashboard"]), true),
    );
    assert_eq!(
        command,
        CommandDescriptor {
            command: "mcp-grafana-v0.7.2/mcp-grafana".to_string(),
            args: vec![
                "--enabled-tools".to_string(),
                "incident,dashboard".to_string(),
                "--debug".to_string(),
            ],
            env: vec![
                pair("GRAFANA_URL", "https://grafana.example"),
                pair("GRAFANA_API_KEY", "secret"),
            ],
        }
    );
}

#[test]
fn assemble_with_the_least_settings() {
    let command = assemble("bin".to_string(), &settings(None, None, false));
    assert_eq!(command.command, "bin");
    assert!(command.args.is_empty());
    assert_eq!(command.env, vec![pair("GRAFANA_URL", "https://grafana.example")]);
}
