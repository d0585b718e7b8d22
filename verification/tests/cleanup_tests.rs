use mcp_server_grafana::cleanup::{is_stale, stale_entries, DirectoryEntry};

fn named(names: &[&str]) -> Vec<DirectoryEntry> {
    names.iter().map(|name| DirectoryEntry::Named(name.to_string())).collect()
}

fn keep() -> String {
    "mcp-grafana-v0.7.2".to_string()
}

#[test]
fn every_entry_but_the_new_version_is_stale() {
    let listing = named(&[
        "mcp-grafana-v0.7.1",
        "mcp-grafana-v0.7.2",
        "mcp-grafana-v0.6.0",
        "notes.txt",
    ]);
    assert_eq!(stale_entries(&listing, &keep()), vec![0, 2, 3]);
}

#[test]
fn nothing_is_stale_where_only_the_new_version_is_there() {
    assert!(stale_entries(&named(&["mcp-grafana-v0.7.2"]), &keep()).is_empty());
}

#[test]
fn nothing_is_stale_in_an_empty_directory() {
    assert!(stale_entries(&Vec::new(), &keep()).is_empty());
}

#[test]
fn entries_without_a_readable_name_are_stale() {
    let listing = vec![
        DirectoryEntry::Unnamed,
        DirectoryEntry::Named(keep()),
        DirectoryEntry::Unnamed,
    ];
    assert_eq!(stale_entries(&listing, &keep()), vec![0, 2]);
}

#[test]
fn entries_that_could_not_be_read_are_passed_over() {
    let listing = vec![
        DirectoryEntry::Named("mcp-grafana-v0.7.0".to_string()),
        DirectoryEntry::Unreadable,
        DirectoryEntry::Named("mcp-grafana-v0.7.1".to_string()),
        DirectoryEntry::Named(keep()),
        DirectoryEntry::Unreadable,
        DirectoryEntry::Unnamed,
    ];
    assert_eq!(stale_entries(&listing, &keep()), vec![0, 2, 5]);
}

#[test]
fn only_the_exact_name_is_kept() {
    let listing = named(&[
        "mcp-grafana-v0.7.2 ",
        "mcp-grafana-v0.7.20",
        "MCP-GRAFANA-V0.7.2",
        "mcp-grafana-v0.7",
        "",
    ]);
    assert_eq!(stale_entries(&listing, &keep()), vec![0, 1, 2, 3, 4]);
}

#[test]
fn everything_is_stale_where_the_new_version_is_missing() {
    assert_eq!(stale_entries(&named(&["a", "b"]), &keep()), vec![0, 1]);
}

#[test]
fn plan_is_in_increasing_order_and_in_range() {
    let listing = vec![
        DirectoryEntry::Named("x".to_string()),
        DirectoryEntry::Unnamed,
        DirectoryEntry::Named("keep".to_string()),
        DirectoryEntry::Named("keep".to_string()),
        DirectoryEntry::Named("y".to_string()),
        DirectoryEntry::Unnamed,
    ];
    let plan = stale_entries(&listing, &"keep".to_string());
    assert_eq!(plan, vec![0, 1, 4, 5]);
    assert!(plan.windows(2).all(|pair| pair[0] < pair[1]));
    assert!(plan.iter().all(|position| *position < listing.len()));
}

#[test]
fn staleness_of_each_kind_of_entry() {
    assert!(is_stale(&DirectoryEntry::Named("mcp-grafana-v0.7.1".to_string()), &keep()));
    assert!(!is_stale(&DirectoryEntry::Named(keep()), &keep()));
    assert!(is_stale(&DirectoryEntry::Unnamed, &keep()));
    assert!(!is_stale(&DirectoryEntry::Unreadable, &keep()));
}
