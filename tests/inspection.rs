use obs_service_cargo::manifest::{
    classify, has_dependencies, is_self_member, is_workspace, join_path, manifest_has_dependencies,
    member_manifest, text_less, workspace_has_dependencies, workspace_members, CargoManifest,
    MemberPath, TomlManifest, WorkspaceTable,
};

fn tables(deps: Option<Vec<&str>>) -> TomlManifest {
    TomlManifest {
        dependencies: deps.map(|d| d.into_iter().map(String::from).collect()),
        dev_dependencies: None,
        build_dependencies: None,
        target: None,
    }
}

fn empty_tables() -> TomlManifest {
    TomlManifest {
        dependencies: Some(vec![]),
        dev_dependencies: Some(vec![]),
        build_dependencies: None,
        target: Some(vec![]),
    }
}

#[test]
fn manifest_without_dependencies() {
    let m = CargoManifest { tables: empty_tables(), workspace: None };
    assert!(!has_dependencies(&m));
    assert!(!is_workspace(&m));
    assert!(!manifest_has_dependencies(&m, true));
}

#[test]
fn each_table_counts() {
    let m = CargoManifest { tables: tables(Some(vec!["foo"])), workspace: None };
    assert!(has_dependencies(&m));
    let mut t = empty_tables();
    t.build_dependencies = Some(vec!["cc".to_string()]);
    assert!(has_dependencies(&CargoManifest { tables: t, workspace: None }));
    let mut t = empty_tables();
    t.target = Some(vec!["cfg(unix)".to_string()]);
    assert!(has_dependencies(&CargoManifest { tables: t, workspace: None }));
}

fn workspace(members: Vec<&str>, default_members: Option<Vec<&str>>) -> WorkspaceTable {
    WorkspaceTable {
        members: Some(members.into_iter().map(String::from).collect()),
        default_members: default_members.map(|d| d.into_iter().map(String::from).collect()),
        extra: Some(empty_tables()),
    }
}

#[test]
fn members_are_sorted_and_unique() {
    let ws = workspace(vec!["crates/b", "crates/a", "crates/b"], Some(vec!["crates/a", "app"]));
    assert_eq!(workspace_members(&ws), vec!["app", "crates/a", "crates/b"]);
    let ws = WorkspaceTable { members: None, default_members: None, extra: None };
    assert!(workspace_members(&ws).is_empty());
}

#[test]
fn member_with_dependencies_makes_workspace_depend() {
    let ws = workspace(vec!["a", "b"], None);
    let entries = workspace_members(&ws);
    assert!(!ws.declares_dependencies());
    let verdicts = vec![vec![false], vec![false, true]];
    assert!(workspace_has_dependencies(&ws, &entries, &verdicts));
    let none = vec![vec![false], vec![]];
    assert!(!workspace_has_dependencies(&ws, &entries, &none));
    let m = CargoManifest { tables: empty_tables(), workspace: Some(ws) };
    assert!(is_workspace(&m));
    assert!(manifest_has_dependencies(&m, true));
}

#[test]
fn self_member_counts_as_dependencies() {
    let ws = workspace(vec!["."], None);
    let entries = workspace_members(&ws);
    assert!(is_self_member(&entries[0]));
    assert!(workspace_has_dependencies(&ws, &entries, &vec![vec![]]));
}

#[test]
fn workspace_own_dependencies() {
    let ws = WorkspaceTable {
        members: None,
        default_members: None,
        extra: Some(tables(Some(vec!["serde"]))),
    };
    assert!(ws.declares_dependencies());
    assert!(workspace_has_dependencies(&ws, &vec![], &vec![]));
}

#[test]
fn member_paths() {
    match member_manifest("/w/crates/a", true) {
        MemberPath::InDirectory(p) => assert_eq!(p, "/w/crates/a/Cargo.toml"),
        _ => panic!("expected a directory member"),
    }
    match member_manifest("/w/x/Cargo.toml", false) {
        MemberPath::Direct(p) => assert_eq!(p, "/w/x/Cargo.toml"),
        _ => panic!("expected a direct manifest"),
    }
    assert!(matches!(member_manifest("/w/x/README.md", false), MemberPath::Ignored));
    assert!(matches!(member_manifest("/w/x/NotCargo.toml", false), MemberPath::Ignored));
}

#[test]
fn joining_and_ordering_text() {
    assert_eq!(join_path("/a", "b"), "/a/b");
    assert_eq!(join_path("/a/", "b"), "/a/b");
    assert_eq!(join_path("", "b"), "b");
    assert!(text_less("a", "b"));
    assert!(text_less("a", "ab"));
    assert!(!text_less("b", "a"));
    assert!(!text_less("a", "a"));
}

#[test]
fn classification() {
    let ws = workspace(vec!["b", "a"], None);
    let m = CargoManifest { tables: empty_tables(), workspace: Some(ws) };
    let d = classify("/w/Cargo.toml", &m, false);
    assert_eq!(d.path, "/w/Cargo.toml");
    assert!(d.is_workspace);
    assert!(!d.has_dependencies);
    assert_eq!(d.members, vec!["a", "b"]);
    let plain = CargoManifest { tables: tables(Some(vec!["x"])), workspace: None };
    let d = classify("Cargo.toml", &plain, false);
    assert!(!d.is_workspace);
    assert!(d.has_dependencies);
    assert!(d.members.is_empty());
}
