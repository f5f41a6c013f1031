use std::io::Write;
use std::path::Path;
use std::str::FromStr;

use obs_service_cargo::audit::{perform_cargo_audit, process_reports};

fn named_dir(parent: &Path, name: &str) -> tempfile::TempDir {
    tempfile::Builder::new().prefix(name).rand_bytes(0).tempdir_in(parent).unwrap()
}

fn advisory(dir: &Path, id: &str, package: &str, patched: &str, cvss: Option<&str>) {
    let mut f = tempfile::Builder::new()
        .prefix(id)
        .suffix(".md")
        .rand_bytes(0)
        .tempfile_in(dir)
        .unwrap();
    let cvss = cvss.map(|c| format!("cvss = \"{c}\"\n")).unwrap_or_default();
    let text = format!(
        "```toml\n[advisory]\nid = \"{id}\"\npackage = \"{package}\"\ndate = \"2020-11-18\"\ncategories = [\"code-execution\"]\n{cvss}\n[versions]\npatched = [\"{patched}\"]\n```\n\n# Test advisory\n\nFor testing.\n"
    );
    f.write_all(text.as_bytes()).unwrap();
    f.keep().unwrap();
}

const LOCKFILE: &str = r#"version = 3

[[package]]
name = "time"
version = "0.1.0"
source = "registry+https://github.com/rust-lang/crates.io-index"

[[package]]
name = "foo"
version = "1.0.0"
source = "registry+https://github.com/rust-lang/crates.io-index"

[[package]]
name = "safe"
version = "1.0.0"
source = "registry+https://github.com/rust-lang/crates.io-index"
"#;

#[test]
fn database_matches_are_screened_and_block() {
    let root = tempfile::tempdir().unwrap();
    let crates = named_dir(root.path(), "crates");
    let time = named_dir(crates.path(), "time");
    let foo = named_dir(crates.path(), "foo");
    advisory(time.path(), "RUSTSEC-2020-0071", "time", ">= 0.2.23", None);
    advisory(
        foo.path(),
        "RUSTSEC-2099-0001",
        "foo",
        ">= 2.0.0",
        Some("CVSS:3.1/AV:N/AC:L/PR:N/UI:N/S:U/C:H/I:H/A:H"),
    );
    let db = rustsec::Database::open(root.path()).unwrap();
    let lockfile = rustsec::Lockfile::from_str(LOCKFILE).unwrap();

    let reports = perform_cargo_audit(&db, &vec![lockfile], &vec![]);
    assert_eq!(reports.len(), 1);
    // The time advisory is one of the fixed exclusions; foo's is not.
    assert!(reports[0].found);
    assert_eq!(reports[0].count, 1);
    assert_eq!(reports[0].list[0].id, "RUSTSEC-2099-0001");
    assert_eq!(reports[0].list[0].package, "foo");
    assert_eq!(reports[0].list[0].version, "1.0.0");
    assert_eq!(reports[0].list[0].score.as_deref(), Some("9.8"));
    assert_eq!(reports[0].list[0].categories, vec!["code-execution"]);
    assert!(process_reports(&reports).is_err());

    let lockfile = rustsec::Lockfile::from_str(LOCKFILE).unwrap();
    let accepted = vec!["RUSTSEC-2099-0001".to_string()];
    let reports = perform_cargo_audit(&db, &vec![lockfile], &accepted);
    assert!(!reports[0].found);
    assert!(process_reports(&reports).is_ok());
}
