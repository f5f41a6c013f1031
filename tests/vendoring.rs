use obs_service_cargo::commands::{
    cargo_fetch, filter_overrides_lock, generate_lockfile_args, vendor_options, vendor_subcommand,
    VendorArgs,
};
use obs_service_cargo::lockfile::{diff, snapshot, unexpected_change, LockDiff};
use obs_service_cargo::registry::{check_extra_manifest, registry_cleanup_paths, root_manifest};
use obs_service_cargo::errors::OBSCargoErrorKind;

#[test]
fn two_extra_manifests_sync_in_order() {
    let sync = vec!["/p/a/Cargo.toml".to_string(), "/p/b/Cargo.toml".to_string()];
    let opts = vendor_options(false, false, &sync, true, false);
    assert_eq!(opts.iter().filter(|o| *o == "--sync").count(), 2);
    assert_eq!(opts, vec!["--sync", "/p/a/Cargo.toml", "--sync", "/p/b/Cargo.toml"]);
}

#[test]
fn filter_drops_locked_and_adds_platforms() {
    let opts = vendor_options(true, true, &vec![], true, true);
    assert_eq!(
        opts,
        vec![
            "--versioned-dirs",
            "--platform=*-unknown-linux-gnu",
            "--platform=wasm32-unknown-unknown",
            "--all-features"
        ]
    );
    assert!(!opts.iter().any(|o| o == "--locked"));
    assert!(filter_overrides_lock(true, true, true));
    assert_eq!(vendor_subcommand(true), "vendor-filterer");
}

#[test]
fn plain_vendor_respects_lock() {
    let opts = vendor_options(true, false, &vec![], true, true);
    assert_eq!(opts, vec!["--versioned-dirs", "--locked"]);
    assert_eq!(vendor_subcommand(false), "vendor");
    assert!(!filter_overrides_lock(false, true, true));
    // Without a lockfile there is nothing to respect.
    assert_eq!(vendor_options(false, false, &vec![], false, true), Vec::<String>::new());
}

#[test]
fn fetch_without_lockfile_generates_first() {
    let p = cargo_fetch(false, true);
    assert!(p.generate_lockfile_first);
    assert_eq!(p.options, vec!["--locked"]);
    let p = cargo_fetch(true, false);
    assert!(!p.generate_lockfile_first);
    assert!(p.options.is_empty());
}

#[test]
fn generate_lockfile_arguments() {
    assert_eq!(generate_lockfile_args("x/Cargo.toml"), vec!["--manifest-path", "x/Cargo.toml"]);
    assert!(generate_lockfile_args("").is_empty());
}

#[test]
fn vendor_args_default() {
    let v = VendorArgs::default();
    assert!(!v.filter);
    assert!(v.versioned_dirs);
}

#[test]
fn blake3_digest_of_empty_input() {
    let s = snapshot("Cargo.lock", Some(&[]));
    let d = s.digest.unwrap();
    let hex: String = d.iter().map(|b| format!("{:02x}", b)).collect();
    assert_eq!(hex, "af1349b9f5f9a1a6a0404dea36dcc9499bcb25c9adc112b7cc9a93cae41f3262");
}

#[test]
fn same_bytes_compare_unchanged() {
    let bytes = b"[[package]]\nname = \"foo\"\n".to_vec();
    let a = snapshot("Cargo.lock", Some(&bytes));
    let b = snapshot("Cargo.lock", Some(&bytes));
    assert_eq!(diff(&a, &b), LockDiff::Unchanged);
    assert!(!unexpected_change(diff(&a, &b), true));
}

#[test]
fn lockfile_changes_are_seen() {
    let a = snapshot("Cargo.lock", Some(b"version = 3"));
    let b = snapshot("Cargo.lock", Some(b"version = 4"));
    assert_eq!(diff(&a, &b), LockDiff::Changed);
    assert!(unexpected_change(LockDiff::Changed, true));
    assert!(!unexpected_change(LockDiff::Changed, false));
    let none = snapshot("Cargo.lock", None);
    assert_eq!(diff(&none, &b), LockDiff::Created);
    assert_eq!(diff(&a, &none), LockDiff::Missing);
}

#[test]
fn root_manifest_discovery() {
    assert_eq!(root_manifest("/p", true, &vec![], false).ok().unwrap(), "/p/Cargo.toml");
    let extra = vec!["libflux/Cargo.toml".to_string()];
    assert_eq!(root_manifest("/p", false, &extra, true).ok().unwrap(), "/p/libflux/Cargo.toml");
    match root_manifest("/p", false, &extra, false) {
        Err(e) => assert_eq!(e.kind, OBSCargoErrorKind::ManifestNotFound),
        Ok(_) => panic!("expected ManifestNotFound"),
    }
    assert!(root_manifest("/p", false, &vec![], true).is_err());
}

#[test]
fn extra_manifest_names() {
    assert!(check_extra_manifest("rust/pvsecret/Cargo.toml").is_ok());
    assert!(check_extra_manifest("rust/pvsecret/").is_err());
}

#[test]
fn registry_cleanup() {
    assert_eq!(
        registry_cleanup_paths("/h/.cargo"),
        vec![
            "/h/.cargo/registry/src",
            "/h/.cargo/bin",
            "/h/.cargo/.global-cache",
            "/h/.cargo/.package-cache",
            "/h/.cargo/.package-cache-mutate"
        ]
    );
}
