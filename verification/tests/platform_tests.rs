use mcp_server_grafana::platform::{asset_name, Architecture, ArchiveKind, Platform};

#[test]
fn asset_name_for_linux_x86_64() {
    assert_eq!(
        asset_name("mcp-grafana", Platform::Linux, Architecture::X8664),
        "mcp-grafana_Linux_x86_64.tar.gz"
    );
}

#[test]
fn asset_name_for_every_platform_and_architecture() {
    let expected = [
        (Platform::Mac, Architecture::Aarch64, "mcp-grafana_Darwin_arm64.tar.gz"),
        (Platform::Mac, Architecture::X86, "mcp-grafana_Darwin_i386.tar.gz"),
        (Platform::Mac, Architecture::X8664, "mcp-grafana_Darwin_x86_64.tar.gz"),
        (Platform::Linux, Architecture::Aarch64, "mcp-grafana_Linux_arm64.tar.gz"),
        (Platform::Linux, Architecture::X86, "mcp-grafana_Linux_i386.tar.gz"),
        (Platform::Linux, Architecture::X8664, "mcp-grafana_Linux_x86_64.tar.gz"),
        (Platform::Windows, Architecture::Aarch64, "mcp-grafana_Windows_arm64.zip"),
        (Platform::Windows, Architecture::X86, "mcp-grafana_Windows_i386.zip"),
        (Platform::Windows, Architecture::X8664, "mcp-grafana_Windows_x86_64.zip"),
    ];
    for (platform, architecture, name) in expected {
        assert_eq!(asset_name("mcp-grafana", platform, architecture), name);
    }
}

#[test]
fn asset_name_is_stable() {
    let first = asset_name("mcp-grafana", Platform::Mac, Architecture::Aarch64);
    let second = asset_name("mcp-grafana", Platform::Mac, Architecture::Aarch64);
    assert_eq!(first, second);
}

#[test]
fn asset_name_uses_the_binary_name_given() {
    assert_eq!(
        asset_name("other-tool", Platform::Windows, Architecture::X8664),
        "other-tool_Windows_x86_64.zip"
    );
    assert_eq!(asset_name("", Platform::Linux, Architecture::X86), "_Linux_i386.tar.gz");
}

#[test]
fn platform_labels() {
    assert_eq!(Platform::Mac.label(), "Darwin");
    assert_eq!(Platform::Linux.label(), "Linux");
    assert_eq!(Platform::Windows.label(), "Windows");
}

#[test]
fn architecture_labels() {
    assert_eq!(Architecture::Aarch64.label(), "arm64");
    assert_eq!(Architecture::X86.label(), "i386");
    assert_eq!(Architecture::X8664.label(), "x86_64");
}

#[test]
fn archive_kind_follows_platform() {
    assert_eq!(Platform::Mac.archive_kind(), ArchiveKind::GzipTar);
    assert_eq!(Platform::Linux.archive_kind(), ArchiveKind::GzipTar);
    assert_eq!(Platform::Windows.archive_kind(), ArchiveKind::Zip);
}

#[test]
fn archive_extensions() {
    assert_eq!(ArchiveKind::GzipTar.extension(), "tar.gz");
    assert_eq!(ArchiveKind::Zip.extension(), "zip");
}
