use mcp_server_grafana::release::{
    executable_path, find_asset, version_directory, ProvisionedBinary, ReleaseAsset,
};

fn asset(name: &str) -> ReleaseAsset {
    ReleaseAsset {
        name: name.to_string(),
        download_url: format!("https://downloads.example/{name}"),
    }
}

#[test]
fn find_asset_matches_the_exact_name() {
    let assets = vec![
        asset("mcp-grafana_Darwin_arm64.tar.gz"),
        asset("mcp-grafana_Linux_x86_64.tar.gz"),
        asset("mcp-grafana_Windows_x86_64.zip"),
    ];
    assert_eq!(find_asset(&assets, &"mcp-grafana_Linux_x86_64.tar.gz".to_string()), Some(1));
    assert_eq!(find_asset(&assets, &"mcp-grafana_Darwin_arm64.tar.gz".to_string()), Some(0));
    assert_eq!(find_asset(&assets, &"mcp-grafana_Windows_x86_64.zip".to_string()), Some(2));
}

#[test]
fn find_asset_ignores_near_matches() {
    let assets = vec![
        asset("mcp-grafana_Linux_x86_64.tar.gz.sha256"),
        asset("MCP-GRAFANA_LINUX_X86_64.TAR.GZ"),
        asset("mcp-grafana_Linux_x86_64"),
        asset(" mcp-grafana_Linux_x86_64.tar.gz"),
    ];
    assert_eq!(find_asset(&assets, &"mcp-grafana_Linux_x86_64.tar.gz".to_string()), None);
}

#[test]
fn find_asset_in_an_empty_release() {
    assert_eq!(find_asset(&Vec::new(), &"mcp-grafana_Linux_x86_64.tar.gz".to_string()), None);
}

#[test]
fn find_asset_takes_the_first_of_equal_names() {
    let mut second = asset("mcp-grafana_Linux_arm64.tar.gz");
    second.download_url = "https://mirror.example/second".to_string();
    let assets = vec![
        asset("checksums.txt"),
        asset("mcp-grafana_Linux_arm64.tar.gz"),
        second,
    ];
    assert_eq!(find_asset(&assets, &"mcp-grafana_Linux_arm64.tar.gz".to_string()), Some(1));
}

#[test]
fn version_directory_joins_name_and_version() {
    assert_eq!(version_directory("mcp-grafana", "v0.7.2"), "mcp-grafana-v0.7.2");
    assert_eq!(version_directory("mcp-grafana", ""), "mcp-grafana-");
}

#[test]
fn executable_path_is_inside_the_directory() {
    assert_eq!(
        executable_path("mcp-grafana-v0.7.2", "mcp-grafana"),
        "mcp-grafana-v0.7.2/mcp-grafana"
    );
}

#[test]
fn locate_names_directory_and_executable() {
    let binary = ProvisionedBinary::locate("mcp-grafana", "v1.0.0");
    assert_eq!(
        binary,
        ProvisionedBinary {
            version_directory: "mcp-grafana-v1.0.0".to_string(),
            executable_path: "mcp-grafana-v1.0.0/mcp-grafana".to_string(),
        }
    );
}
