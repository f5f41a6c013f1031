//! The audit gate: which advisories are excluded, what of a report remains
//! after exclusion, how findings are written out, and the verdict.
use vstd::prelude::*;
use vstd::string::*;
use crate::commands::{push_text, texts};
use crate::errors::{OBSCargoError, OBSCargoErrorKind};
use crate::text::{owned, same_text};

verus! {

#[verifier::external_type_specification]
#[verifier::external_body]
pub struct ExDatabase(rustsec::Database);

#[verifier::external_type_specification]
#[verifier::external_body]
pub struct ExLockfile(rustsec::Lockfile);

/// One advisory that matched a locked package.
#[derive(Clone, Debug)]
pub struct Vulnerability {
    /// The advisory ID, such as `RUSTSEC-2020-0071`.
    pub id: String,
    pub package: String,
    pub version: String,
    /// The CVSS score, where the advisory has one.
    pub score: Option<String>,
    pub categories: Vec<String>,
}

/// The report on one lockfile.
#[derive(Clone, Debug)]
pub struct AuditReport {
    pub found: bool,
    pub count: usize,
    pub list: Vec<Vulnerability>,
}

impl AuditReport {
    /// `found` and `count` agree with the list.
    pub open spec fn wf(&self) -> bool {
        self.found == (self.list@.len() > 0) && self.count == self.list@.len()
    }
}

/// What a vulnerability says: advisory ID, package, version, score and
/// categories.
pub open spec fn finding_of(v: Vulnerability) -> (Seq<char>, Seq<char>, Seq<char>, Option<Seq<char>>, Seq<Seq<char>>) {
    (
        v.id@,
        v.package@,
        v.version@,
        match v.score {
            Some(s) => Some(s@),
            None => None,
        },
        texts(v.categories@),
    )
}

pub open spec fn findings_of(list: Seq<Vulnerability>) -> Seq<
    (Seq<char>, Seq<char>, Seq<char>, Option<Seq<char>>, Seq<Seq<char>>),
> {
    list.map_values(|v: Vulnerability| finding_of(v))
}

/// The findings, in order, of the advisories in the database that match
/// packages of the lockfile.
pub uninterp spec fn reported_findings(db: rustsec::Database, lockfile: rustsec::Lockfile) -> Seq<
    (Seq<char>, Seq<char>, Seq<char>, Option<Seq<char>>, Seq<Seq<char>>),
>;

/// Relies on `rustsec::Report::generate` with default settings: the
/// advisories of the database that match packages of the lockfile, a
/// function of the database and the lockfile. Its `VulnerabilityInfo::new`
/// sets `found` and `count` from the list.
#[verifier::external_body]
fn generate_report(db: &rustsec::Database, lockfile: &rustsec::Lockfile) -> (r: AuditReport)
    ensures
        r.wf(),
        findings_of(r.list@) == reported_findings(*db, *lockfile),
{
    let report = rustsec::Report::generate(db, lockfile, &rustsec::report::Settings::default());
    let info = report.vulnerabilities;
    let list = info.list.into_iter().map(|v| Vulnerability {
        id: v.advisory.id.to_string(),
        package: v.package.name.to_string(),
        version: v.package.version.to_string(),
        score: v.advisory.cvss.map(|c| c.score().to_string()),
        categories: v.advisory.categories.iter().map(|c| c.to_string()).collect(),
    }).collect();
    AuditReport { found: info.found, count: info.count, list }
}

/// The advisories that are never acted on: they cannot be fixed.
pub open spec fn fixed_exclusions() -> Seq<Seq<char>> {
    seq!["RUSTSEC-2020-0071"@, "RUSTSEC-2020-0159"@]
}

pub fn excluded_advisories() -> (r: Vec<String>)
    ensures
        texts(r@) == fixed_exclusions(),
{
    let mut r: Vec<String> = Vec::new();
    push_text(&mut r, "RUSTSEC-2020-0071");
    push_text(&mut r, "RUSTSEC-2020-0159");
    assert(texts(r@) =~= fixed_exclusions());
    r
}

/// The fixed exclusions followed by the risks the caller accepts.
pub fn exclusion_list(accepted: &Vec<String>) -> (r: Vec<String>)
    ensures
        texts(r@) == fixed_exclusions() + texts(accepted@),
{
    let mut r = excluded_advisories();
    let mut i: usize = 0;
    while i < accepted.len()
        invariant
            i <= accepted@.len(),
            texts(r@) == fixed_exclusions() + texts(accepted@).subrange(0, i as int),
        decreases accepted@.len() - i,
    {
        push_text(&mut r, accepted[i].as_str());
        i += 1;
        assert(texts(r@) =~= fixed_exclusions() + texts(accepted@).subrange(0, i as int));
    }
    assert(texts(accepted@).subrange(0, accepted@.len() as int) =~= texts(accepted@));
    r
}

/// Whether `id` is one of `list`.
pub fn listed(id: &str, list: &Vec<String>) -> (r: bool)
    ensures
        r == texts(list@).contains(id@),
{
    let mut i: usize = 0;
    while i < list.len()
        invariant
            i <= list@.len(),
            forall|k: int| 0 <= k < i ==> list@[k]@ != id@,
        decreases list@.len() - i,
    {
        if same_text(list[i].as_str(), id) {
            assert(texts(list@)[i as int] == id@);
            return true;
        }
        i += 1;
    }
    assert(!texts(list@).contains(id@)) by {
        if texts(list@).contains(id@) {
            let k = choose|k: int| 0 <= k < list@.len() && texts(list@)[k] == id@;
            assert(list@[k]@ == id@);
        }
    }
    false
}

/// Two vulnerabilities that say the same.
pub open spec fn same_vulnerability(a: Vulnerability, b: Vulnerability) -> bool {
    finding_of(a) == finding_of(b)
}

/// Holds of a finding whose advisory is not excluded.
pub open spec fn finding_kept(exclusions: Seq<Seq<char>>) -> spec_fn(
    (Seq<char>, Seq<char>, Seq<char>, Option<Seq<char>>, Seq<Seq<char>>),
) -> bool {
    |f: (Seq<char>, Seq<char>, Seq<char>, Option<Seq<char>>, Seq<Seq<char>>)| !exclusions.contains(
        f.0,
    )
}

/// Screening and then viewing is viewing and then screening.
pub proof fn lemma_findings_of_unexcluded(list: Seq<Vulnerability>, exclusions: Seq<Seq<char>>)
    ensures
        findings_of(unexcluded(list, exclusions)) == findings_of(list).filter(
            finding_kept(exclusions),
        ),
    decreases list.len(),
{
    reveal_with_fuel(Seq::filter, 2);
    if list.len() == 0 {
        assert(findings_of(list) =~= seq![]);
        assert(findings_of(unexcluded(list, exclusions)) =~= seq![]);
    } else {
        let a = list.drop_last();
        lemma_findings_of_unexcluded(a, exclusions);
        assert(findings_of(list).drop_last() =~= findings_of(a));
        assert(findings_of(list).last() == finding_of(list.last()));
        if exclusions.contains(list.last().id@) {
            assert(unexcluded(list, exclusions) == unexcluded(a, exclusions));
        } else {
            assert(unexcluded(list, exclusions) == unexcluded(a, exclusions).push(list.last()));
            assert(findings_of(unexcluded(list, exclusions)) =~= findings_of(
                unexcluded(a, exclusions),
            ).push(finding_of(list.last())));
        }
    }
}

/// The vulnerabilities of `list` whose advisory is not excluded, in order.
pub open spec fn unexcluded(list: Seq<Vulnerability>, exclusions: Seq<Seq<char>>) -> Seq<
    Vulnerability,
> {
    list.filter(not_excluded(exclusions))
}

/// Holds of a vulnerability whose advisory is not excluded.
pub open spec fn not_excluded(exclusions: Seq<Seq<char>>) -> spec_fn(Vulnerability) -> bool {
    |v: Vulnerability| !exclusions.contains(v.id@)
}

/// A report without the excluded advisories; `found` and `count` follow.
pub fn screen_report(report: &AuditReport, exclusions: &Vec<String>) -> (r: AuditReport)
    ensures
        r.wf(),
        r.list@.len() == unexcluded(report.list@, texts(exclusions@)).len(),
        forall|k: int|
            0 <= k < r.list@.len() ==> same_vulnerability(
                #[trigger] r.list@[k],
                unexcluded(report.list@, texts(exclusions@))[k],
            ),
{
    let ghost ex = texts(exclusions@);
    let mut list: Vec<Vulnerability> = Vec::new();
    let mut i: usize = 0;
    while i < report.list.len()
        invariant
            i <= report.list@.len(),
            ex == texts(exclusions@),
            list@.len() == unexcluded(report.list@.subrange(0, i as int), ex).len(),
            forall|k: int|
                0 <= k < list@.len() ==> same_vulnerability(
                    #[trigger] list@[k],
                    unexcluded(report.list@.subrange(0, i as int), ex)[k],
                ),
        decreases report.list@.len() - i,
    {
        let v = &report.list[i];
        let ghost before = report.list@.subrange(0, i as int);
        let ghost after = report.list@.subrange(0, i + 1);
        proof {
            assert(after.drop_last() =~= before);
            assert(after.last() == report.list@[i as int]);
            reveal_with_fuel(Seq::filter, 2);
            assert(unexcluded(after, ex) == if not_excluded(ex)(after.last()) {
                unexcluded(before, ex).push(after.last())
            } else {
                unexcluded(before, ex)
            });
        }
        if !listed(v.id.as_str(), exclusions) {
            let w = Vulnerability {
                id: owned(v.id.as_str()),
                package: owned(v.package.as_str()),
                version: owned(v.version.as_str()),
                score: match &v.score {
                    Some(s) => Some(owned(s.as_str())),
                    None => None,
                },
                categories: copy_texts(&v.categories),
            };
            list.push(w);
            proof {
                assert(unexcluded(after, ex) == unexcluded(before, ex).push(report.list@[i as int]));
            }
        } else {
            proof {
                assert(unexcluded(after, ex) == unexcluded(before, ex));
            }
        }
        i += 1;
    }
    assert(report.list@.subrange(0, report.list@.len() as int) =~= report.list@);
    let count = list.len();
    AuditReport { found: count > 0, count, list }
}

/// A copy of a list of strings.
pub fn copy_texts(v: &Vec<String>) -> (r: Vec<String>)
    ensures
        texts(r@) == texts(v@),
{
    let mut r: Vec<String> = Vec::new();
    let mut i: usize = 0;
    while i < v.len()
        invariant
            i <= v@.len(),
            texts(r@) == texts(v@).subrange(0, i as int),
        decreases v@.len() - i,
    {
        push_text(&mut r, v[i].as_str());
        i += 1;
        assert(texts(r@) =~= texts(v@).subrange(0, i as int));
    }
    assert(texts(v@).subrange(0, v@.len() as int) =~= texts(v@));
    r
}

/// An excluded advisory never survives screening.
pub proof fn lemma_excluded_never_reported(
    list: Seq<Vulnerability>,
    exclusions: Seq<Seq<char>>,
    id: Seq<char>,
)
    requires
        exclusions.contains(id),
    ensures
        forall|k: int|
            0 <= k < unexcluded(list, exclusions).len() ==> #[trigger] unexcluded(
                list,
                exclusions,
            )[k].id@ != id,
{
    let f = not_excluded(exclusions);
    assert forall|k: int| 0 <= k < unexcluded(list, exclusions).len() implies #[trigger] unexcluded(
        list,
        exclusions,
    )[k].id@ != id by {
        list.lemma_filter_pred(f, k);
    }
}

/// A vulnerability whose advisory is not excluded survives screening, so
/// the screened report has found something and `process_reports` refuses it.
pub proof fn lemma_unexcluded_finding_blocks(
    list: Seq<Vulnerability>,
    exclusions: Seq<Seq<char>>,
    k: int,
)
    requires
        0 <= k < list.len(),
        !exclusions.contains(list[k].id@),
    ensures
        unexcluded(list, exclusions).len() > 0,
        unexcluded(list, exclusions).contains(list[k]),
{
    list.lemma_filter_contains(not_excluded(exclusions), k);
}

/// `- <id> <package> <version> - categories <c1> <c2> ... - cvss <score>`,
/// with `unset` where there is no score.
pub open spec fn categories_text(cs: Seq<Seq<char>>) -> Seq<char>
    decreases cs.len(),
{
    if cs.len() == 0 {
        seq![]
    } else {
        categories_text(cs.drop_last()) + cs.last() + " "@
    }
}

pub open spec fn finding_line(v: Vulnerability) -> Seq<char> {
    "- "@ + v.id@ + " "@ + v.package@ + " "@ + v.version@ + " - categories "@ + categories_text(
        texts(v.categories@),
    ) + "- cvss "@ + match v.score {
        Some(s) => s@,
        None => "unset"@,
    }
}

/// The line that reports one vulnerability.
pub fn finding(v: &Vulnerability) -> (r: String)
    ensures
        r@ == finding_line(*v),
{
    let mut r = String::from_str("- ");
    r.append(v.id.as_str());
    r.append(" ");
    r.append(v.package.as_str());
    r.append(" ");
    r.append(v.version.as_str());
    r.append(" - categories ");
    let ghost head = r@;
    let mut i: usize = 0;
    while i < v.categories.len()
        invariant
            i <= v.categories@.len(),
            r@ == head + categories_text(texts(v.categories@).subrange(0, i as int)),
        decreases v.categories@.len() - i,
    {
        r.append(v.categories[i].as_str());
        r.append(" ");
        proof {
            let p = texts(v.categories@).subrange(0, i + 1);
            assert(p.drop_last() =~= texts(v.categories@).subrange(0, i as int));
        }
        i += 1;
    }
    assert(texts(v.categories@).subrange(0, v.categories@.len() as int) =~= texts(v.categories@));
    r.append("- cvss ");
    match &v.score {
        Some(s) => r.append(s.as_str()),
        None => r.append("unset"),
    }
    r
}

/// The lines of one report's findings.
pub open spec fn report_lines(list: Seq<Vulnerability>) -> Seq<Seq<char>> {
    list.map_values(|v: Vulnerability| finding_line(v))
}

/// The lines of every report's findings, report after report.
pub open spec fn all_findings(reports: Seq<AuditReport>) -> Seq<Seq<char>>
    decreases reports.len(),
{
    if reports.len() == 0 {
        seq![]
    } else {
        all_findings(reports.drop_last()) + report_lines(reports.last().list@)
    }
}

/// Every finding of every report, in order, for the operator to see at once.
pub fn findings(reports: &Vec<AuditReport>) -> (r: Vec<String>)
    ensures
        texts(r@) == all_findings(reports@),
{
    let mut r: Vec<String> = Vec::new();
    let mut a: usize = 0;
    while a < reports.len()
        invariant
            a <= reports@.len(),
            texts(r@) == all_findings(reports@.subrange(0, a as int)),
        decreases reports@.len() - a,
    {
        let ghost head = texts(r@);
        let mut b: usize = 0;
        while b < reports[a].list.len()
            invariant
                a < reports@.len(),
                b <= reports@[a as int].list@.len(),
                texts(r@) == head + report_lines(reports@[a as int].list@.subrange(0, b as int)),
            decreases reports@[a as int].list@.len() - b,
        {
            let line = finding(&reports[a].list[b]);
            let ghost lv = line@;
            let ghost old_r = r@;
            r.push(line);
            assert(texts(r@) =~= texts(old_r).push(lv));
            assert(report_lines(reports@[a as int].list@.subrange(0, b + 1)) =~= report_lines(
                reports@[a as int].list@.subrange(0, b as int),
            ).push(lv));
            b += 1;
            assert(texts(r@) =~= head + report_lines(
                reports@[a as int].list@.subrange(0, b as int),
            ));
        }
        assert(reports@[a as int].list@.subrange(0, b as int) =~= reports@[a as int].list@);
        assert(reports@.subrange(0, a + 1).drop_last() =~= reports@.subrange(0, a as int));
        a += 1;
    }
    assert(reports@.subrange(0, a as int) =~= reports@);
    r
}

/// Some report found a vulnerability.
pub open spec fn any_found(reports: Seq<AuditReport>) -> bool {
    exists|i: int| 0 <= i < reports.len() && #[trigger] reports[i].found
}

/// Passes exactly when none of the lockfiles has an un-excluded
/// vulnerability; otherwise the dependencies must be fixed first.
pub fn process_reports(reports: &Vec<AuditReport>) -> (r: Result<(), OBSCargoError>)
    ensures
        r is Ok <==> !any_found(reports@),
        r matches Err(e) ==> e.kind == OBSCargoErrorKind::AuditNeedsAction,
{
    let mut i: usize = 0;
    while i < reports.len()
        invariant
            i <= reports@.len(),
            forall|k: int| 0 <= k < i ==> !#[trigger] reports@[k].found,
        decreases reports@.len() - i,
    {
        if reports[i].found {
            return Err(
                OBSCargoError::new(
                    OBSCargoErrorKind::AuditNeedsAction,
                    String::from_str(
                        "Vulnerabilities found in application dependencies. These must be actioned to proceed with vendoring.",
                    ),
                ),
            );
        }
        i += 1;
    }
    Ok(())
}

/// Audits each lockfile against the database: each report holds what the
/// database finds in its lockfile, less the fixed exclusions and the
/// accepted risks, in order.
pub fn perform_cargo_audit(
    db: &rustsec::Database,
    lockfiles: &Vec<rustsec::Lockfile>,
    accepted: &Vec<String>,
) -> (r: Vec<AuditReport>)
    ensures
        r@.len() == lockfiles@.len(),
        forall|i: int| 0 <= i < r@.len() ==> (#[trigger] r@[i]).wf(),
        forall|i: int, k: int|
            0 <= i < r@.len() && 0 <= k < r@[i].list@.len() ==> !(fixed_exclusions() + texts(
                accepted@,
            )).contains(#[trigger] r@[i].list@[k].id@),
        forall|i: int|
            0 <= i < r@.len() ==> findings_of(#[trigger] r@[i].list@) == reported_findings(
                *db,
                lockfiles@[i],
            ).filter(finding_kept(fixed_exclusions() + texts(accepted@))),
{
    let exclusions = exclusion_list(accepted);
    let ghost ex = texts(exclusions@);
    let mut reports: Vec<AuditReport> = Vec::new();
    let mut i: usize = 0;
    while i < lockfiles.len()
        invariant
            i <= lockfiles@.len(),
            ex == texts(exclusions@),
            ex == fixed_exclusions() + texts(accepted@),
            reports@.len() == i,
            forall|j: int| 0 <= j < i ==> (#[trigger] reports@[j]).wf(),
            forall|j: int, k: int|
                0 <= j < i && 0 <= k < reports@[j].list@.len() ==> !ex.contains(
                    #[trigger] reports@[j].list@[k].id@,
                ),
            forall|j: int|
                0 <= j < i ==> findings_of(#[trigger] reports@[j].list@) == reported_findings(
                    *db,
                    lockfiles@[j],
                ).filter(finding_kept(ex)),
        decreases lockfiles@.len() - i,
    {
        let raw = generate_report(db, &lockfiles[i]);
        let screened = screen_report(&raw, &exclusions);
        proof {
            assert forall|k: int| 0 <= k < screened.list@.len() implies !ex.contains(
                #[trigger] screened.list@[k].id@,
            ) by {
                let f = not_excluded(ex);
                raw.list@.lemma_filter_pred(f, k);
                assert(same_vulnerability(screened.list@[k], unexcluded(raw.list@, ex)[k]));
            }
            assert(findings_of(screened.list@) =~= findings_of(unexcluded(raw.list@, ex)));
            lemma_findings_of_unexcluded(raw.list@, ex);
        }
        let ghost before = reports@;
        reports.push(screened);
        proof {
            assert forall|j: int| 0 <= j < i + 1 implies findings_of(
                #[trigger] reports@[j].list@,
            ) == reported_findings(*db, lockfiles@[j]).filter(finding_kept(ex)) by {
                if j < i {
                    assert(reports@[j] == before[j]);
                }
            }
        }
        i += 1;
    }
    reports
}

} // verus!
