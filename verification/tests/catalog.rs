use gvm_mcp::mcp::catalog::{catalog, exposed_tools};
use gvm_mcp::mcp::toolset::{Toolset, ToolsetSelection};

fn selection(names: &[&str]) -> ToolsetSelection {
    let names: Vec<String> = names.iter().map(|n| n.to_string()).collect();
    ToolsetSelection::parse(&names).unwrap()
}

#[test]
fn catalog_is_sorted_and_unique() {
    let all = catalog();
    for pair in all.windows(2) {
        assert!(pair[0].name < pair[1].name, "{} !< {}", pair[0].name, pair[1].name);
    }
    assert_eq!(all.len(), 103);
}

#[test]
fn default_exposes_system_targets_and_tasks_tools() {
    let names = exposed_tools(&selection(&[]), false);
    for expected in [
        "openvas_test_connection",
        "openvas_get_version",
        "openvas_list_targets",
        "openvas_create_target",
        "openvas_list_tasks",
        "openvas_start_task",
    ] {
        assert!(names.contains(&expected), "missing {expected}");
    }
    assert!(!names.iter().any(|n| n.ends_with("_user")));
}

#[test]
fn read_only_hides_every_mutating_tool() {
    let names = exposed_tools(&selection(&["default", "identity"]), true);
    let all = catalog();
    for name in &names {
        let entry = all.iter().find(|e| e.name == *name).unwrap();
        assert!(entry.read_only, "{name} is not read-only");
    }
    assert!(!names.contains(&"openvas_delete_task"));
    assert!(names.contains(&"openvas_export_report"));
    assert!(names.contains(&"openvas_download_job_result"));
}

#[test]
fn toolset_selection_limits_exposure() {
    let names = exposed_tools(&selection(&["targets"]), false);
    assert!(names.contains(&"openvas_list_targets"));
    assert!(!names.contains(&"openvas_list_tasks"));
    assert!(names.contains(&"openvas_test_connection"));
    assert_eq!(names.len(), 7);
}

#[test]
fn read_only_and_selection_compose() {
    let names = exposed_tools(&selection(&["tasks"]), true);
    assert!(names.contains(&"openvas_list_tasks"));
    assert!(names.contains(&"openvas_get_task"));
    assert!(!names.contains(&"openvas_start_task"));
    assert!(!names.contains(&"openvas_list_targets"));
    assert_eq!(names, vec!["openvas_get_task", "openvas_get_version", "openvas_list_tasks", "openvas_test_connection"]);
}

#[test]
fn default_tool_count_matches_wired_toolsets() {
    let names = exposed_tools(&selection(&[]), false);
    assert_eq!(names.len(), 80, "got: {:?}", names);
    let read_only = exposed_tools(&selection(&[]), true);
    assert_eq!(read_only.len(), 48);
    assert!(
        !read_only.iter().any(|name| name.contains("create") || name.contains("update") || name.contains("delete")),
        "read-only must hide all mutating tools"
    );
    assert_eq!(exposed_tools(&selection(&["default", "identity"]), false).len(), 103);
}

#[test]
fn every_tool_belongs_to_a_real_toolset() {
    let all = catalog();
    for entry in &all {
        assert!(Toolset::all().contains(&entry.toolset));
        assert!(entry.name.starts_with("openvas_"));
    }
    // Toolsets without a gateway endpoint have no tools yet.
    for empty in [Toolset::Vulnerabilities, Toolset::TlsCertificates, Toolset::Compliance] {
        assert!(!all.iter().any(|e| e.toolset == empty));
    }
}

#[test]
fn read_only_listing_is_the_reading_part_of_the_full_listing() {
    for names in [&[][..], &["tasks"][..], &["default", "identity"][..]] {
        let sel = selection(names);
        let full = exposed_tools(&sel, false);
        let reads: Vec<&str> = full
            .iter()
            .copied()
            .filter(|name| catalog().iter().any(|e| e.name == *name && e.read_only))
            .collect();
        assert_eq!(exposed_tools(&sel, true), reads);
    }
}
