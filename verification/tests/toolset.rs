use std::collections::BTreeSet;

use gvm_mcp::mcp::toolset::{Toolset, ToolsetError, ToolsetSelection};

#[test]
fn default_selection_excludes_identity() {
    let selection = ToolsetSelection::parse(&[]).unwrap();
    assert!(selection.is_enabled(Toolset::Targets));
    assert!(selection.is_enabled(Toolset::System));
    assert!(!selection.is_enabled(Toolset::Identity));
}

#[test]
fn identity_must_be_named_explicitly() {
    let all = ToolsetSelection::parse(&["all".into()]).unwrap();
    assert!(!all.is_enabled(Toolset::Identity));

    let with_identity = ToolsetSelection::parse(&["default".into(), "identity".into()]).unwrap();
    assert!(with_identity.is_enabled(Toolset::Identity));
}

#[test]
fn explicit_selection_is_exact_plus_system() {
    let selection = ToolsetSelection::parse(&["tasks".into(), "targets".into()]).unwrap();
    assert!(selection.is_enabled(Toolset::Tasks));
    assert!(selection.is_enabled(Toolset::Targets));
    assert!(selection.is_enabled(Toolset::System));
    assert!(!selection.is_enabled(Toolset::Reports));
}

#[test]
fn names_are_case_insensitive_and_trimmed() {
    let selection = ToolsetSelection::parse(&[" Tasks ".into()]).unwrap();
    assert!(selection.is_enabled(Toolset::Tasks));
}

#[test]
fn unknown_toolset_is_rejected() {
    let err = ToolsetSelection::parse(&["bogus".into()]).unwrap_err();
    assert!(err.message().contains("bogus"));
}

#[test]
fn every_toolset_has_unique_name() {
    let all = Toolset::all();
    let names: BTreeSet<&str> = all.iter().map(|ts| ts.name()).collect();
    assert_eq!(names.len(), all.len());
}

#[test]
fn blank_entries_alone_are_an_empty_selection() {
    match ToolsetSelection::parse(&[" ".into(), "".into()]) {
        Err(ToolsetError::Empty) => {}
        other => panic!("expected an empty selection, got {other:?}"),
    }
    assert_eq!(ToolsetError::Empty.message(), "toolset selection is empty");
}

#[test]
fn unknown_entry_is_reported_as_given() {
    match ToolsetSelection::parse(&["tasks".into(), " Bogus ".into()]) {
        Err(ToolsetError::Unknown(raw)) => assert_eq!(raw, " Bogus "),
        other => panic!("expected an unknown toolset, got {other:?}"),
    }
    let err = ToolsetError::Unknown("bogus".into());
    assert_eq!(
        err.message(),
        "unknown toolset 'bogus'; run with --list-toolsets to see valid names"
    );
}

#[test]
fn selection_renders_names_in_declaration_order() {
    let selection = ToolsetSelection::parse(&["targets".into(), "tasks".into()]).unwrap();
    assert_eq!(selection.to_string(), "system,targets,tasks");
    assert_eq!(
        selection.iter(),
        vec![Toolset::System, Toolset::Targets, Toolset::Tasks]
    );
}

#[test]
fn default_and_all_select_everything_but_identity() {
    let default = ToolsetSelection::parse(&[]).unwrap();
    let all = ToolsetSelection::parse(&["ALL".into()]).unwrap();
    for toolset in Toolset::all() {
        let expected = toolset != Toolset::Identity;
        assert_eq!(default.is_enabled(toolset), expected, "{toolset:?}");
        assert_eq!(all.is_enabled(toolset), expected, "{toolset:?}");
    }
    assert_eq!(Toolset::default_enabled().len(), Toolset::all().len() - 1);
}

#[test]
fn names_round_trip_through_from_name() {
    for toolset in Toolset::all() {
        assert_eq!(Toolset::from_name(toolset.name()), Some(toolset));
    }
    assert_eq!(Toolset::from_name("Tasks"), None);
    assert_eq!(Toolset::from_name("scan-configs"), Some(Toolset::ScanConfigs));
}

#[test]
fn listing_lines_pad_the_name_column() {
    assert_eq!(
        Toolset::Tasks.listing_line(),
        format!("{:<18} {}", "tasks", Toolset::Tasks.describe())
    );
    assert_eq!(
        Toolset::TlsCertificates.listing_line(),
        format!("{:<18} {}", "tls-certificates", Toolset::TlsCertificates.describe())
    );
}

#[test]
fn selection_ignores_order_and_repetition() {
    let forward = ToolsetSelection::parse(&["tasks".into(), "targets".into()]).unwrap();
    let backward = ToolsetSelection::parse(&["targets".into(), " Tasks ".into(), "tasks".into()]).unwrap();
    assert_eq!(forward, backward);
    assert!(matches!(
        ToolsetSelection::parse(&["tasks".into(), "nope".into()]),
        Err(ToolsetError::Unknown(raw)) if raw == "nope"
    ));
    assert!(matches!(
        ToolsetSelection::parse(&["nope".into(), "tasks".into(), "tasks".into()]),
        Err(ToolsetError::Unknown(raw)) if raw == "nope"
    ));
}

#[test]
fn toolset_descriptions_are_distinct_and_non_empty() {
    let all = Toolset::all();
    let descriptions: BTreeSet<&str> = all.iter().map(|t| t.describe()).collect();
    assert_eq!(descriptions.len(), all.len());
    assert!(all.iter().all(|t| !t.describe().is_empty()));
    assert!(Toolset::Identity.describe().contains("opt-in"));
    assert_eq!(Toolset::System.describe(), "Connectivity, health and version information");
}
