use obs_service_cargo::audit::{
    exclusion_list, excluded_advisories, finding, findings, listed, process_reports,
    screen_report, AuditReport, Vulnerability,
};
use obs_service_cargo::errors::OBSCargoErrorKind;

fn vuln(id: &str, pkg: &str) -> Vulnerability {
    Vulnerability {
        id: id.to_string(),
        package: pkg.to_string(),
        version: "0.1.0".to_string(),
        score: None,
        categories: vec![],
    }
}

fn report(list: Vec<Vulnerability>) -> AuditReport {
    AuditReport { found: !list.is_empty(), count: list.len(), list }
}

#[test]
fn fixed_exclusions_and_accepted_risks() {
    assert_eq!(excluded_advisories(), vec!["RUSTSEC-2020-0071", "RUSTSEC-2020-0159"]);
    let all = exclusion_list(&vec!["RUSTSEC-2023-0001".to_string()]);
    assert_eq!(all, vec!["RUSTSEC-2020-0071", "RUSTSEC-2020-0159", "RUSTSEC-2023-0001"]);
    assert!(listed("RUSTSEC-2023-0001", &all));
    assert!(!listed("RUSTSEC-2023-0002", &all));
}

#[test]
fn excluded_advisory_is_never_reported() {
    let r = report(vec![vuln("RUSTSEC-2020-0071", "time"), vuln("RUSTSEC-2020-0159", "chrono")]);
    let screened = screen_report(&r, &exclusion_list(&vec![]));
    assert!(!screened.found);
    assert_eq!(screened.count, 0);
    assert!(screened.list.is_empty());
    assert!(process_reports(&vec![screened]).is_ok());
}

#[test]
fn accepted_risk_is_screened_out_others_stay() {
    let r = report(vec![vuln("RUSTSEC-2024-0001", "a"), vuln("RUSTSEC-2024-0002", "b")]);
    let screened = screen_report(&r, &exclusion_list(&vec!["RUSTSEC-2024-0001".to_string()]));
    assert!(screened.found);
    assert_eq!(screened.count, 1);
    assert_eq!(screened.list[0].id, "RUSTSEC-2024-0002");
    assert_eq!(screened.list[0].package, "b");
}

#[test]
fn vulnerable_lockfile_blocks() {
    let clean = report(vec![]);
    let bad = report(vec![vuln("RUSTSEC-2024-0003", "openssl")]);
    match process_reports(&vec![clean, bad]) {
        Err(e) => assert_eq!(e.kind, OBSCargoErrorKind::AuditNeedsAction),
        Ok(()) => panic!("expected the audit to block"),
    }
    assert!(process_reports(&vec![]).is_ok());
}

#[test]
fn finding_lines() {
    let mut v = vuln("RUSTSEC-2024-0003", "openssl");
    assert_eq!(finding(&v), "- RUSTSEC-2024-0003 openssl 0.1.0 - categories - cvss unset");
    v.score = Some("7.5".to_string());
    v.categories = vec!["memory-corruption".to_string(), "denial-of-service".to_string()];
    assert_eq!(
        finding(&v),
        "- RUSTSEC-2024-0003 openssl 0.1.0 - categories memory-corruption denial-of-service - cvss 7.5"
    );
    let all = findings(&vec![report(vec![v.clone()]), report(vec![]), report(vec![vuln("X", "y")])]);
    assert_eq!(all.len(), 2);
    assert_eq!(all[1], "- X y 0.1.0 - categories - cvss unset");
}
