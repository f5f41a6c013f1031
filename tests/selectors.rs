use obs_service_cargo::commands::{
    cargo_update, selector_update_args, whole_update_args, UpdatePlan,
};
use obs_service_cargo::selector::{parse_update_selector, split_selector, SelectorError, VersionToken};

#[test]
fn bare_name_selects_the_crate() {
    let s = parse_update_selector("serde").ok().unwrap();
    assert_eq!(s.name, "serde");
    assert!(s.version.is_none());
    assert!(s.manifest.is_none());
}

#[test]
fn precise_version_selector() {
    let s = parse_update_selector("foo@1.2.3").ok().unwrap();
    assert_eq!(s.name, "foo");
    match s.version {
        Some(VersionToken::Precise(v)) => assert_eq!(v, "1.2.3"),
        _ => panic!("expected a precise version"),
    }
}

#[test]
fn recursive_selector() {
    let s = parse_update_selector("foo@recursive").ok().unwrap();
    assert!(matches!(s.version, Some(VersionToken::Recursive)));
}

#[test]
fn version_then_manifest() {
    let s = parse_update_selector("foo@1.0.0+member/Cargo.toml").ok().unwrap();
    assert_eq!(s.name, "foo");
    assert!(matches!(s.version, Some(VersionToken::Precise(ref v)) if v == "1.0.0"));
    assert_eq!(s.manifest.as_deref(), Some("member/Cargo.toml"));
}

#[test]
fn manifest_then_version() {
    let s = parse_update_selector("foo+member/Cargo.toml@recursive").ok().unwrap();
    assert_eq!(s.name, "foo");
    assert!(matches!(s.version, Some(VersionToken::Recursive)));
    assert_eq!(s.manifest.as_deref(), Some("member/Cargo.toml"));
}

#[test]
fn manifest_only() {
    let s = parse_update_selector("foo+a/b/Cargo.toml").ok().unwrap();
    assert!(s.version.is_none());
    assert_eq!(s.manifest.as_deref(), Some("a/b/Cargo.toml"));
}

#[test]
fn empty_tokens_are_ignored() {
    let s = parse_update_selector("foo@").ok().unwrap();
    assert!(s.version.is_none());
    let s = parse_update_selector("foo@1.0.0+").ok().unwrap();
    assert!(s.manifest.is_none());
}

#[test]
fn malformed_version_is_refused() {
    match parse_update_selector("foo@latest") {
        Err(SelectorError::InvalidVersion(v)) => assert_eq!(v, "latest"),
        _ => panic!("expected InvalidVersion"),
    }
    // Not a full SemVer version: the semver crate refuses it.
    assert!(matches!(parse_update_selector("foo@1.2"), Err(SelectorError::InvalidVersion(_))));
}

#[test]
fn manifest_not_named_cargo_toml_is_refused() {
    match parse_update_selector("foo@1.0.0+member/Cargo.lock") {
        Err(SelectorError::InvalidManifest(m)) => assert_eq!(m, "member/Cargo.lock"),
        _ => panic!("expected InvalidManifest"),
    }
}

#[test]
fn version_is_checked_before_manifest() {
    assert!(matches!(
        parse_update_selector("foo@nope+bad.toml"),
        Err(SelectorError::InvalidVersion(_))
    ));
}

#[test]
fn split_keeps_raw_tokens() {
    let (n, v, m) = split_selector("a+b@c");
    assert_eq!(n, "a");
    assert_eq!(v.as_deref(), Some("c"));
    assert_eq!(m.as_deref(), Some("b"));
}

#[test]
fn update_plan_whole_wins() {
    let crates = vec!["foo@bad".to_string()];
    assert!(matches!(cargo_update(true, &crates), Ok(UpdatePlan::Whole)));
}

#[test]
fn update_plan_nothing_and_selected() {
    assert!(matches!(cargo_update(false, &vec![]), Ok(UpdatePlan::Nothing)));
    let crates = vec!["foo@1.0.0".to_string(), "bar".to_string()];
    match cargo_update(false, &crates) {
        Ok(UpdatePlan::Selected(s)) => {
            assert_eq!(s.len(), 2);
            assert_eq!(s[0].name, "foo");
            assert_eq!(s[1].name, "bar");
        }
        _ => panic!("expected selected crates"),
    }
    assert!(cargo_update(false, &vec!["x@y".to_string()]).is_err());
}

#[test]
fn selector_arguments() {
    let s = parse_update_selector("foo@1.0.0+m/Cargo.toml").ok().unwrap();
    let args = selector_update_args(&s, "/abs/m/Cargo.toml", true, true);
    assert_eq!(
        args,
        vec!["foo", "--precise", "1.0.0", "--manifest-path", "/abs/m/Cargo.toml", "--locked"]
    );
    let s = parse_update_selector("foo@recursive").ok().unwrap();
    assert_eq!(selector_update_args(&s, "ignored", true, true), vec!["foo", "--recursive"]);
}

#[test]
fn whole_update_arguments() {
    assert_eq!(
        whole_update_args("/p/Cargo.toml", true, true),
        vec!["--manifest-path", "/p/Cargo.toml", "--locked"]
    );
    assert_eq!(whole_update_args("", true, false), Vec::<String>::new());
}
