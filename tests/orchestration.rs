use obs_service_cargo::errors::OBSCargoErrorKind;
use obs_service_cargo::pipeline::{
    Action, AuditOutcome, Event, Pipeline, PipelineConfig, Stage,
};

fn config(update: bool, crates: Vec<&str>, respect: bool, filter: bool) -> PipelineConfig {
    let crates: Vec<String> = crates.into_iter().map(String::from).collect();
    PipelineConfig::new(update, &crates, respect, filter, true, vec![]).ok().unwrap()
}

/// Feeds events in turn and collects the action asked for before each.
fn drive(p: &mut Pipeline, events: &[Event]) -> Vec<Action> {
    let mut actions = vec![p.action()];
    for e in events {
        p.advance(*e);
        actions.push(p.action());
    }
    actions
}

#[test]
fn missing_lockfile_is_generated_despite_respect() {
    let mut p = Pipeline::new(config(false, vec![], true, false));
    let actions = drive(
        &mut p,
        &[
            Event::Discovered { manifest_found: true, manifest_parses: true, has_dependencies: true, lockfile_present: false },
            Event::LockGenerated { ok: true },
            Event::Fetched { ok: true },
            Event::Vendored { ok: true },
            Event::Audited { outcome: AuditOutcome::Clean },
            Event::Archived { ok: true },
        ],
    );
    assert!(matches!(actions[0], Action::Discover));
    assert!(matches!(actions[1], Action::GenerateLockfile));
    assert!(matches!(actions[2], Action::Fetch { locked: true }));
    match &actions[3] {
        Action::Vendor { subcommand, options, warn_unverified } => {
            assert_eq!(subcommand, "vendor");
            assert_eq!(options, &vec!["--versioned-dirs", "--locked"]);
            assert!(!warn_unverified);
        }
        _ => panic!("expected the vendor step"),
    }
    assert!(matches!(actions[4], Action::Audit));
    assert!(matches!(actions[5], Action::Archive));
    assert!(matches!(actions[6], Action::Finish));
    assert_eq!(p.stage, Stage::Done);
}

#[test]
fn blocked_audit_never_reaches_archive() {
    let mut p = Pipeline::new(config(false, vec![], false, false));
    let actions = drive(
        &mut p,
        &[
            Event::Discovered { manifest_found: true, manifest_parses: true, has_dependencies: true, lockfile_present: true },
            Event::Fetched { ok: true },
            Event::Vendored { ok: true },
            Event::Audited { outcome: AuditOutcome::Blocked },
            Event::Archived { ok: true },
        ],
    );
    assert!(!actions.iter().any(|a| matches!(a, Action::Archive)));
    assert_eq!(p.stage, Stage::Aborted(OBSCargoErrorKind::AuditNeedsAction));
    assert!(matches!(p.action(), Action::Stop(OBSCargoErrorKind::AuditNeedsAction)));
}

#[test]
fn audit_tooling_failure_is_distinct() {
    let mut p = Pipeline::new(config(false, vec![], false, false));
    drive(
        &mut p,
        &[
            Event::Discovered { manifest_found: true, manifest_parses: true, has_dependencies: false, lockfile_present: true },
            Event::Fetched { ok: true },
            Event::Audited { outcome: AuditOutcome::Failed },
        ],
    );
    assert_eq!(p.stage, Stage::Aborted(OBSCargoErrorKind::AuditError));
}

#[test]
fn no_dependencies_skips_vendor_and_succeeds() {
    let mut p = Pipeline::new(config(false, vec![], false, false));
    let actions = drive(
        &mut p,
        &[
            Event::Discovered { manifest_found: true, manifest_parses: true, has_dependencies: false, lockfile_present: true },
            Event::Fetched { ok: true },
            Event::Audited { outcome: AuditOutcome::Clean },
        ],
    );
    assert!(!actions.iter().any(|a| matches!(a, Action::Vendor { .. } | Action::Archive)));
    assert_eq!(p.stage, Stage::Done);
}

#[test]
fn respected_lock_without_update_stays_locked() {
    let mut p = Pipeline::new(config(false, vec![], true, false));
    let actions = drive(
        &mut p,
        &[
            Event::Discovered { manifest_found: true, manifest_parses: true, has_dependencies: true, lockfile_present: true },
            Event::Fetched { ok: true },
        ],
    );
    assert!(!actions.iter().any(|a| matches!(
        a,
        Action::GenerateLockfile | Action::UpdateAll { .. } | Action::UpdateSelected { .. }
    )));
    assert!(matches!(actions[1], Action::Fetch { locked: true }));
    match &actions[2] {
        Action::Vendor { options, .. } => assert!(options.iter().any(|o| o == "--locked")),
        _ => panic!("expected the vendor step"),
    }
}

#[test]
fn update_on_runs_whole_update() {
    let mut p = Pipeline::new(config(true, vec![], false, false));
    let actions = drive(
        &mut p,
        &[
            Event::Discovered { manifest_found: true, manifest_parses: true, has_dependencies: true, lockfile_present: true },
            Event::Updated { ok: true },
        ],
    );
    assert!(matches!(actions[1], Action::UpdateAll { locked: false }));
    assert!(matches!(actions[2], Action::Fetch { .. }));
}

#[test]
fn selectors_turn_global_update_off() {
    let mut p = Pipeline::new(config(true, vec!["foo@1.0.0"], true, false));
    p.advance(Event::Discovered { manifest_found: true, manifest_parses: true, has_dependencies: true, lockfile_present: true });
    assert!(matches!(p.action(), Action::UpdateSelected { locked: true }));
    let bad: Vec<String> = vec!["foo@x".to_string()];
    assert!(PipelineConfig::new(false, &bad, false, false, true, vec![]).is_err());
}

#[test]
fn filter_with_lock_vendors_unlocked_and_warns() {
    let mut p = Pipeline::new(config(false, vec![], true, true));
    p.advance(Event::Discovered { manifest_found: true, manifest_parses: true, has_dependencies: true, lockfile_present: true });
    // Filtering cannot verify the lock, so the whole project is updated,
    // and nothing runs `--locked`.
    assert!(matches!(p.action(), Action::UpdateAll { locked: false }));
    p.advance(Event::Updated { ok: true });
    assert!(matches!(p.action(), Action::Fetch { locked: false }));
    p.advance(Event::Fetched { ok: true });
    match p.action() {
        Action::Vendor { subcommand, options, warn_unverified } => {
            assert_eq!(subcommand, "vendor-filterer");
            assert!(warn_unverified);
            assert!(!options.iter().any(|o| o == "--locked"));
            assert!(options.iter().any(|o| o == "--platform=*-unknown-linux-gnu"));
            assert!(options.iter().any(|o| o == "--platform=wasm32-unknown-unknown"));
            assert!(options.iter().any(|o| o == "--all-features"));
        }
        _ => panic!("expected the vendor step"),
    }
}

#[test]
fn missing_manifest_aborts() {
    let mut p = Pipeline::new(config(false, vec![], false, false));
    p.advance(Event::Discovered { manifest_found: false, manifest_parses: true, has_dependencies: false, lockfile_present: false });
    assert_eq!(p.stage, Stage::Aborted(OBSCargoErrorKind::ManifestNotFound));
}

#[test]
fn failures_of_each_step() {
    let mut p = Pipeline::new(config(false, vec![], false, false));
    p.advance(Event::Discovered { manifest_found: true, manifest_parses: true, has_dependencies: true, lockfile_present: false });
    p.advance(Event::LockGenerated { ok: false });
    assert_eq!(p.stage, Stage::Aborted(OBSCargoErrorKind::LockFileError));

    let mut p = Pipeline::new(config(false, vec![], false, false));
    p.advance(Event::Discovered { manifest_found: true, manifest_parses: true, has_dependencies: true, lockfile_present: true });
    p.advance(Event::Fetched { ok: true });
    p.advance(Event::Vendored { ok: false });
    assert_eq!(p.stage, Stage::Aborted(OBSCargoErrorKind::VendorError));

    let mut p = Pipeline::new(config(false, vec![], false, false));
    p.advance(Event::Discovered { manifest_found: true, manifest_parses: true, has_dependencies: true, lockfile_present: true });
    p.advance(Event::Fetched { ok: true });
    p.advance(Event::Vendored { ok: true });
    p.advance(Event::Audited { outcome: AuditOutcome::Clean });
    p.advance(Event::Archived { ok: false });
    assert_eq!(p.stage, Stage::Aborted(OBSCargoErrorKind::VendorCompressionFailed));
}

#[test]
fn out_of_order_event_is_an_invariant_error() {
    let mut p = Pipeline::new(config(false, vec![], false, false));
    p.advance(Event::Vendored { ok: true });
    assert_eq!(p.stage, Stage::Aborted(OBSCargoErrorKind::InternalInvariantBroken));
    p.advance(Event::Discovered { manifest_found: true, manifest_parses: true, has_dependencies: true, lockfile_present: true });
    assert_eq!(p.stage, Stage::Aborted(OBSCargoErrorKind::InternalInvariantBroken));
}

#[test]
fn malformed_manifest_is_not_parseable() {
    let mut p = Pipeline::new(config(false, vec![], false, false));
    p.advance(Event::Discovered {
        manifest_found: true,
        manifest_parses: false,
        has_dependencies: false,
        lockfile_present: true,
    });
    assert_eq!(p.stage, Stage::Aborted(OBSCargoErrorKind::ManifestNotParseable));
    assert!(matches!(p.action(), Action::Stop(OBSCargoErrorKind::ManifestNotParseable)));
}
