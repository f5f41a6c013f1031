//! The pipeline orchestrator, as a state machine. The library decides; the
//! caller performs each action and reports back what happened as an event.
//!
//! `Discover → ReconcileLock → UpdateOrRespect → Fetch → Vendor → ReAudit →
//! Archive → Done`, with `Aborted(kind)` reachable from every stage. Stages
//! with nothing to do are passed over.
use vstd::prelude::*;
use vstd::string::*;
use crate::commands::{
    cargo_update, texts, vendor_options, vendor_options_spec, vendor_subcommand, UpdatePlan,
};
use crate::errors::OBSCargoErrorKind;
use crate::selector::{selector_ok, SelectorError};
use crate::text::owned;

verus! {

#[derive(Clone, Copy, Debug, PartialEq, Eq, Structural)]
pub enum Stage {
    Discover,
    ReconcileLock,
    UpdateOrRespect,
    Fetch,
    Vendor,
    ReAudit,
    Archive,
    Done,
    Aborted(OBSCargoErrorKind),
}

/// What the audit of the lockfiles concluded.
#[derive(Clone, Copy, Debug, PartialEq, Eq, Structural)]
pub enum AuditOutcome {
    /// No un-excluded vulnerability.
    Clean,
    /// Un-excluded vulnerabilities: a policy block.
    Blocked,
    /// The database or a lockfile could not be loaded.
    Failed,
}

/// What the caller observed while performing the last action.
#[derive(Clone, Copy, Debug, PartialEq, Eq, Structural)]
pub enum Event {
    /// Discovery: whether a root manifest was found, whether every manifest
    /// decoded as TOML of the expected shape, what they declare, and whether
    /// the lockfile exists.
    Discovered {
        manifest_found: bool,
        manifest_parses: bool,
        has_dependencies: bool,
        lockfile_present: bool,
    },
    LockGenerated { ok: bool },
    Updated { ok: bool },
    Fetched { ok: bool },
    Vendored { ok: bool },
    Audited { outcome: AuditOutcome },
    Archived { ok: bool },
}

/// Which update the configuration asks for.
#[derive(Clone, Copy, Debug, PartialEq, Eq, Structural)]
pub enum UpdateMode {
    NoUpdate,
    Whole,
    Selected,
}

/// The options of one run, validated once at entry.
#[derive(Clone, Debug)]
pub struct PipelineConfig {
    pub update_plan: UpdatePlan,
    pub respect_lockfile: bool,
    pub filter: bool,
    pub versioned_dirs: bool,
    /// Full paths of the extra manifests that the vendor step syncs.
    pub sync_manifests: Vec<String>,
}

pub open spec fn mode_of(p: UpdatePlan) -> UpdateMode {
    match p {
        UpdatePlan::Nothing => UpdateMode::NoUpdate,
        UpdatePlan::Whole => UpdateMode::Whole,
        UpdatePlan::Selected(_) => UpdateMode::Selected,
    }
}

/// Whether the whole project is updated: where asked, and always where the
/// platform filter is on, since filtered vendoring cannot verify the lock;
/// never where specific crates were named, which asks for those alone.
pub open spec fn whole_update(update: bool, filter: bool, crates: Seq<String>) -> bool {
    crates.len() == 0 && (update || filter)
}

impl PipelineConfig {
    /// Validates the options: selectors are parsed strictly, and naming
    /// crates turns the whole-project update off.
    pub fn new(
        update: bool,
        update_crates: &Vec<String>,
        respect_lockfile: bool,
        filter: bool,
        versioned_dirs: bool,
        sync_manifests: Vec<String>,
    ) -> (r: Result<PipelineConfig, SelectorError>)
        ensures
            match r {
                Ok(c) => {
                    &&& c.respect_lockfile == respect_lockfile
                    &&& c.filter == filter
                    &&& c.versioned_dirs == versioned_dirs
                    &&& c.sync_manifests@ == sync_manifests@
                    &&& mode_of(c.update_plan) == if whole_update(
                        update,
                        filter,
                        update_crates@,
                    ) {
                        UpdateMode::Whole
                    } else if update_crates@.len() > 0 {
                        UpdateMode::Selected
                    } else {
                        UpdateMode::NoUpdate
                    }
                },
                Err(_) => update_crates@.len() > 0,
            },
            r is Err <==> (update_crates@.len() > 0 && !forall|i: int|
                0 <= i < update_crates@.len() ==> selector_ok(#[trigger] update_crates@[i]@)),
    {
        let global = update_crates.len() == 0 && (update || filter);
        match cargo_update(global, update_crates) {
            Ok(plan) => Ok(
                PipelineConfig {
                    update_plan: plan,
                    respect_lockfile,
                    filter,
                    versioned_dirs,
                    sync_manifests,
                },
            ),
            Err(e) => Err(e),
        }
    }
}

/// The abstract state: the stage, whether any manifest has dependencies, and
/// whether the lockfile exists.
pub struct PState {
    pub stage: Stage,
    pub has_deps: bool,
    pub lock: bool,
}

pub open spec fn after_lock(mode: UpdateMode) -> Stage {
    if mode == UpdateMode::NoUpdate {
        Stage::Fetch
    } else {
        Stage::UpdateOrRespect
    }
}

pub open spec fn after_fetch(has_deps: bool) -> Stage {
    if has_deps {
        Stage::Vendor
    } else {
        Stage::ReAudit
    }
}

pub open spec fn after_audit(has_deps: bool) -> Stage {
    if has_deps {
        Stage::Archive
    } else {
        Stage::Done
    }
}

pub open spec fn ok_or(ok: bool, next: Stage, kind: OBSCargoErrorKind) -> Stage {
    if ok {
        next
    } else {
        Stage::Aborted(kind)
    }
}

/// The stage that follows `s.stage` on event `e`. An event that does not
/// belong to the stage is an internal invariant broken; `Done` and
/// `Aborted` are final.
pub open spec fn next_stage(s: PState, mode: UpdateMode, e: Event) -> Stage {
    match s.stage {
        Stage::Done => Stage::Done,
        Stage::Aborted(k) => Stage::Aborted(k),
        Stage::Discover => match e {
            Event::Discovered { manifest_found, manifest_parses, has_dependencies, lockfile_present } => {
                if !manifest_found {
                    Stage::Aborted(OBSCargoErrorKind::ManifestNotFound)
                } else if !manifest_parses {
                    Stage::Aborted(OBSCargoErrorKind::ManifestNotParseable)
                } else if !lockfile_present {
                    Stage::ReconcileLock
                } else {
                    after_lock(mode)
                }
            },
            _ => Stage::Aborted(OBSCargoErrorKind::InternalInvariantBroken),
        },
        Stage::ReconcileLock => match e {
            Event::LockGenerated { ok } => ok_or(ok, after_lock(mode), OBSCargoErrorKind::LockFileError),
            _ => Stage::Aborted(OBSCargoErrorKind::InternalInvariantBroken),
        },
        Stage::UpdateOrRespect => match e {
            Event::Updated { ok } => ok_or(ok, Stage::Fetch, OBSCargoErrorKind::VendorError),
            _ => Stage::Aborted(OBSCargoErrorKind::InternalInvariantBroken),
        },
        Stage::Fetch => match e {
            Event::Fetched { ok } => ok_or(ok, after_fetch(s.has_deps), OBSCargoErrorKind::VendorError),
            _ => Stage::Aborted(OBSCargoErrorKind::InternalInvariantBroken),
        },
        Stage::Vendor => match e {
            Event::Vendored { ok } => ok_or(ok, Stage::ReAudit, OBSCargoErrorKind::VendorError),
            _ => Stage::Aborted(OBSCargoErrorKind::InternalInvariantBroken),
        },
        Stage::ReAudit => match e {
            Event::Audited { outcome } => match outcome {
                AuditOutcome::Clean => after_audit(s.has_deps),
                AuditOutcome::Blocked => Stage::Aborted(OBSCargoErrorKind::AuditNeedsAction),
                AuditOutcome::Failed => Stage::Aborted(OBSCargoErrorKind::AuditError),
            },
            _ => Stage::Aborted(OBSCargoErrorKind::InternalInvariantBroken),
        },
        Stage::Archive => match e {
            Event::Archived { ok } => ok_or(ok, Stage::Done, OBSCargoErrorKind::VendorCompressionFailed),
            _ => Stage::Aborted(OBSCargoErrorKind::InternalInvariantBroken),
        },
    }
}

/// The state after event `e`: discovery records what it found, and a
/// generated lockfile exists from then on.
pub open spec fn next_state(s: PState, mode: UpdateMode, e: Event) -> PState {
    let stage = next_stage(s, mode, e);
    match (s.stage, e) {
        (
            Stage::Discover,
            Event::Discovered {
                manifest_found: _,
                manifest_parses: _,
                has_dependencies,
                lockfile_present,
            },
        ) => PState { stage, has_deps: has_dependencies, lock: lockfile_present },
        (Stage::ReconcileLock, Event::LockGenerated { ok }) => PState {
            stage,
            has_deps: s.has_deps,
            lock: ok,
        },
        _ => PState { stage, has_deps: s.has_deps, lock: s.lock },
    }
}

/// The state after a sequence of events.
pub open spec fn run(s: PState, mode: UpdateMode, events: Seq<Event>) -> PState
    decreases events.len(),
{
    if events.len() == 0 {
        s
    } else {
        next_state(run(s, mode, events.drop_last()), mode, events.last())
    }
}

pub open spec fn initial() -> PState {
    PState { stage: Stage::Discover, has_deps: false, lock: false }
}

/// What the caller is to do next.
#[derive(Clone, Debug)]
pub enum Action {
    /// Find the root and extra manifests, classify them, look for the lockfile.
    Discover,
    /// Generate the missing lockfile; a missing lock overrides the wish to
    /// respect it.
    GenerateLockfile,
    /// Update the whole project.
    UpdateAll { locked: bool },
    /// Update each selected crate (see the configuration's plan).
    UpdateSelected { locked: bool },
    Fetch { locked: bool },
    /// Run the vendor subcommand; `warn_unverified` where filtering keeps an
    /// existing lockfile from being verified.
    Vendor { subcommand: String, options: Vec<String>, warn_unverified: bool },
    /// Audit every lockfile of the run.
    Audit,
    /// Assemble the archive.
    Archive,
    /// The run succeeded.
    Finish,
    /// The run failed.
    Stop(OBSCargoErrorKind),
}

/// One run of the pipeline.
pub struct Pipeline {
    pub config: PipelineConfig,
    pub stage: Stage,
    pub has_dependencies: bool,
    pub lockfile_present: bool,
}

impl Pipeline {
    pub open spec fn state(&self) -> PState {
        PState { stage: self.stage, has_deps: self.has_dependencies, lock: self.lockfile_present }
    }

    pub open spec fn mode(&self) -> UpdateMode {
        mode_of(self.config.update_plan)
    }

    /// Whether update and fetch run `--locked`: where the lockfile is
    /// respected and no filter is on, since filtering cannot verify the lock
    /// and forces the update.
    pub open spec fn locked(&self) -> bool {
        self.config.respect_lockfile && !self.config.filter
    }

    pub fn new(config: PipelineConfig) -> (r: Pipeline)
        ensures
            r.state() == initial(),
            r.config == config,
    {
        Pipeline { config, stage: Stage::Discover, has_dependencies: false, lockfile_present: false }
    }

    fn update_mode(&self) -> (r: UpdateMode)
        ensures
            r == self.mode(),
    {
        match &self.config.update_plan {
            UpdatePlan::Nothing => UpdateMode::NoUpdate,
            UpdatePlan::Whole => UpdateMode::Whole,
            UpdatePlan::Selected(_) => UpdateMode::Selected,
        }
    }

    /// Feeds the outcome of the last action to the machine.
    pub fn advance(&mut self, e: Event)
        ensures
            final(self).state() == next_state(old(self).state(), old(self).mode(), e),
            final(self).config == old(self).config,
    {
        let mode = self.update_mode();
        let after_lock = if mode == UpdateMode::NoUpdate {
            Stage::Fetch
        } else {
            Stage::UpdateOrRespect
        };
        let has_deps = self.has_dependencies;
        let next = match self.stage {
            Stage::Done => Stage::Done,
            Stage::Aborted(k) => Stage::Aborted(k),
            Stage::Discover => match e {
                Event::Discovered {
                    manifest_found,
                    manifest_parses,
                    has_dependencies,
                    lockfile_present,
                } => {
                    self.has_dependencies = has_dependencies;
                    self.lockfile_present = lockfile_present;
                    if !manifest_found {
                        Stage::Aborted(OBSCargoErrorKind::ManifestNotFound)
                    } else if !manifest_parses {
                        Stage::Aborted(OBSCargoErrorKind::ManifestNotParseable)
                    } else if !lockfile_present {
                        Stage::ReconcileLock
                    } else {
                        after_lock
                    }
                },
                _ => Stage::Aborted(OBSCargoErrorKind::InternalInvariantBroken),
            },
            Stage::ReconcileLock => match e {
                Event::LockGenerated { ok } => {
                    self.lockfile_present = ok;
                    if ok {
                        after_lock
                    } else {
                        Stage::Aborted(OBSCargoErrorKind::LockFileError)
                    }
                },
                _ => Stage::Aborted(OBSCargoErrorKind::InternalInvariantBroken),
            },
            Stage::UpdateOrRespect => match e {
                Event::Updated { ok } => if ok {
                    Stage::Fetch
                } else {
                    Stage::Aborted(OBSCargoErrorKind::VendorError)
                },
                _ => Stage::Aborted(OBSCargoErrorKind::InternalInvariantBroken),
            },
            Stage::Fetch => match e {
                Event::Fetched { ok } => if !ok {
                    Stage::Aborted(OBSCargoErrorKind::VendorError)
                } else if has_deps {
                    Stage::Vendor
                } else {
                    Stage::ReAudit
                },
                _ => Stage::Aborted(OBSCargoErrorKind::InternalInvariantBroken),
            },
            Stage::Vendor => match e {
                Event::Vendored { ok } => if ok {
                    Stage::ReAudit
                } else {
                    Stage::Aborted(OBSCargoErrorKind::VendorError)
                },
                _ => Stage::Aborted(OBSCargoErrorKind::InternalInvariantBroken),
            },
            Stage::ReAudit => match e {
                Event::Audited { outcome } => match outcome {
                    AuditOutcome::Clean => if has_deps {
                        Stage::Archive
                    } else {
                        Stage::Done
                    },
                    AuditOutcome::Blocked => Stage::Aborted(OBSCargoErrorKind::AuditNeedsAction),
                    AuditOutcome::Failed => Stage::Aborted(OBSCargoErrorKind::AuditError),
                },
                _ => Stage::Aborted(OBSCargoErrorKind::InternalInvariantBroken),
            },
            Stage::Archive => match e {
                Event::Archived { ok } => if ok {
                    Stage::Done
                } else {
                    Stage::Aborted(OBSCargoErrorKind::VendorCompressionFailed)
                },
                _ => Stage::Aborted(OBSCargoErrorKind::InternalInvariantBroken),
            },
        };
        self.stage = next;
    }

    /// The action of the current stage.
    pub fn action(&self) -> (r: Action)
        ensures
            self.stage == Stage::Discover ==> r is Discover,
            self.stage == Stage::ReconcileLock ==> r is GenerateLockfile,
            self.stage == Stage::UpdateOrRespect ==> (if self.mode() == UpdateMode::Selected {
                r == (Action::UpdateSelected { locked: self.locked() })
            } else {
                r == (Action::UpdateAll { locked: self.locked() })
            }),
            self.stage == Stage::Fetch ==> r == (Action::Fetch { locked: self.locked() }),
            self.stage == Stage::Vendor ==> (r matches Action::Vendor {
                subcommand,
                options,
                warn_unverified,
            } && subcommand@ == (if self.config.filter {
                "vendor-filterer"@
            } else {
                "vendor"@
            }) && texts(options@) == vendor_options_spec(
                self.config.versioned_dirs,
                self.config.filter,
                texts(self.config.sync_manifests@),
                self.lockfile_present,
                self.config.respect_lockfile,
            ) && warn_unverified == (self.config.filter && self.lockfile_present
                && self.config.respect_lockfile)),
            self.stage == Stage::ReAudit ==> r is Audit,
            self.stage == Stage::Archive ==> r is Archive,
            self.stage == Stage::Done ==> r is Finish,
            self.stage matches Stage::Aborted(k) ==> r == Action::Stop(k),
    {
        let locked = self.config.respect_lockfile && !self.config.filter;
        match self.stage {
            Stage::Discover => Action::Discover,
            Stage::ReconcileLock => Action::GenerateLockfile,
            Stage::UpdateOrRespect => if self.update_mode() == UpdateMode::Selected {
                Action::UpdateSelected { locked }
            } else {
                Action::UpdateAll { locked }
            },
            Stage::Fetch => Action::Fetch { locked },
            Stage::Vendor => {
                let c = &self.config;
                Action::Vendor {
                    subcommand: owned(vendor_subcommand(c.filter)),
                    options: vendor_options(
                        c.versioned_dirs,
                        c.filter,
                        &c.sync_manifests,
                        self.lockfile_present,
                        c.respect_lockfile,
                    ),
                    warn_unverified: c.filter && self.lockfile_present && c.respect_lockfile,
                }
            },
            Stage::ReAudit => Action::Audit,
            Stage::Archive => Action::Archive,
            Stage::Done => Action::Finish,
            Stage::Aborted(k) => Action::Stop(k),
        }
    }
}

// ----- laws of the machine -----

pub proof fn lemma_run_append(s: PState, mode: UpdateMode, a: Seq<Event>, b: Seq<Event>)
    ensures
        run(s, mode, a + b) == run(run(s, mode, a), mode, b),
    decreases b.len(),
{
    if b.len() == 0 {
        assert(a + b =~= a);
    } else {
        assert((a + b).drop_last() =~= a + b.drop_last());
        assert((a + b).last() == b.last());
        lemma_run_append(s, mode, a, b.drop_last());
    }
}

/// `Done` and `Aborted` are final: no later event changes them.
pub proof fn lemma_final_stages_stay(s: PState, mode: UpdateMode, events: Seq<Event>)
    requires
        s.stage is Done || s.stage is Aborted,
    ensures
        run(s, mode, events).stage == s.stage,
    decreases events.len(),
{
    if events.len() > 0 {
        lemma_final_stages_stay(s, mode, events.drop_last());
    }
}

/// The archive stage is entered only from the audit, on a clean verdict.
pub proof fn lemma_archive_only_after_clean_audit(s: PState, mode: UpdateMode, e: Event)
    requires
        next_stage(s, mode, e) == Stage::Archive,
    ensures
        s.stage == Stage::ReAudit,
        e == (Event::Audited { outcome: AuditOutcome::Clean }),
{
}

/// Once the audit reports un-excluded vulnerabilities, the run is aborted as
/// needing action, whatever happens next: it never reaches the archive.
pub proof fn lemma_blocked_audit_never_archives(
    mode: UpdateMode,
    before: Seq<Event>,
    after: Seq<Event>,
)
    requires
        run(initial(), mode, before).stage == Stage::ReAudit,
    ensures
        run(
            initial(),
            mode,
            before.push(Event::Audited { outcome: AuditOutcome::Blocked }) + after,
        ).stage == Stage::Aborted(OBSCargoErrorKind::AuditNeedsAction),
{
    let blocked = before.push(Event::Audited { outcome: AuditOutcome::Blocked });
    assert(blocked.drop_last() =~= before);
    lemma_run_append(initial(), mode, blocked, after);
    lemma_final_stages_stay(run(initial(), mode, blocked), mode, after);
}

/// Discovery never reported a dependency.
pub open spec fn no_dependencies_found(events: Seq<Event>) -> bool {
    forall|i: int|
        0 <= i < events.len() ==> !(#[trigger] events[i] matches Event::Discovered {
            has_dependencies: true,
            ..
        })
}

proof fn lemma_no_dependencies_inv(mode: UpdateMode, events: Seq<Event>)
    requires
        no_dependencies_found(events),
    ensures
        !run(initial(), mode, events).has_deps,
        run(initial(), mode, events).stage != Stage::Vendor,
        run(initial(), mode, events).stage != Stage::Archive,
    decreases events.len(),
{
    if events.len() > 0 {
        let prefix = events.drop_last();
        assert forall|i: int| 0 <= i < prefix.len() implies !(#[trigger] prefix[i] matches Event::Discovered {
            has_dependencies: true,
            ..
        }) by {
            assert(prefix[i] == events[i]);
        }
        lemma_no_dependencies_inv(mode, prefix);
        assert(!(events[events.len() - 1] matches Event::Discovered {
            has_dependencies: true,
            ..
        }));
    }
}

/// Where no manifest has dependencies, the vendor step is passed over and
/// nothing is archived: a clean audit then ends the run in `Done`.
pub proof fn lemma_no_dependencies_skips_vendor(mode: UpdateMode, events: Seq<Event>)
    requires
        no_dependencies_found(events),
    ensures
        forall|k: int|
            0 <= k <= events.len() ==> #[trigger] run(initial(), mode, events.take(k)).stage
                != Stage::Vendor && run(initial(), mode, events.take(k)).stage != Stage::Archive,
{
    assert forall|k: int| 0 <= k <= events.len() implies #[trigger] run(
        initial(),
        mode,
        events.take(k),
    ).stage != Stage::Vendor && run(initial(), mode, events.take(k)).stage
        != Stage::Archive by {
        let t = events.take(k);
        assert forall|i: int| 0 <= i < t.len() implies !(#[trigger] t[i] matches Event::Discovered {
            has_dependencies: true,
            ..
        }) by {
            assert(t[i] == events[i]);
        }
        lemma_no_dependencies_inv(mode, t);
    }
}

/// Discovery always found a lockfile.
pub open spec fn lockfile_always_found(events: Seq<Event>) -> bool {
    forall|i: int|
        0 <= i < events.len() ==> !(#[trigger] events[i] matches Event::Discovered {
            lockfile_present: false,
            ..
        })
}

pub open spec fn lock_kept(s: PState) -> bool {
    &&& s.stage != Stage::ReconcileLock
    &&& s.stage != Stage::UpdateOrRespect
    &&& (s.stage != Stage::Discover && !(s.stage is Aborted)) ==> s.lock
}

proof fn lemma_lock_kept_inv(events: Seq<Event>)
    requires
        lockfile_always_found(events),
    ensures
        lock_kept(run(initial(), UpdateMode::NoUpdate, events)),
    decreases events.len(),
{
    if events.len() > 0 {
        let prefix = events.drop_last();
        assert forall|i: int| 0 <= i < prefix.len() implies !(#[trigger] prefix[i] matches Event::Discovered {
            lockfile_present: false,
            ..
        }) by {
            assert(prefix[i] == events[i]);
        }
        lemma_lock_kept_inv(prefix);
        assert(!(events[events.len() - 1] matches Event::Discovered {
            lockfile_present: false,
            ..
        }));
    }
}

/// With no update asked for and the lockfile present, a run never
/// regenerates nor updates the lockfile, and every stage after discovery
/// knows it to exist; with the lock respected and no filter, the fetch and
/// the vendor step then run `--locked` (see `Pipeline::action`), which asks
/// cargo to leave the lockfile as it is.
pub proof fn lemma_respected_lock_is_kept(events: Seq<Event>)
    requires
        lockfile_always_found(events),
    ensures
        forall|k: int|
            0 <= k <= events.len() ==> #[trigger] lock_kept(
                run(initial(), UpdateMode::NoUpdate, events.take(k)),
            ),
{
    assert forall|k: int| 0 <= k <= events.len() implies #[trigger] lock_kept(
        run(initial(), UpdateMode::NoUpdate, events.take(k)),
    ) by {
        let t = events.take(k);
        assert forall|i: int| 0 <= i < t.len() implies !(#[trigger] t[i] matches Event::Discovered {
            lockfile_present: false,
            ..
        }) by {
            assert(t[i] == events[i]);
        }
        lemma_lock_kept_inv(t);
    }
}

/// With an existing lockfile that is respected and no filter, the vendor
/// options carry `--locked`.
pub proof fn lemma_respected_lock_vendors_locked(versioned_dirs: bool, sync: Seq<Seq<char>>)
    ensures
        vendor_options_spec(versioned_dirs, false, sync, true, true).contains("--locked"@),
{
    let pre = (if versioned_dirs {
        seq!["--versioned-dirs"@]
    } else {
        seq![]
    }) + crate::commands::sync_flags(sync);
    let all = vendor_options_spec(versioned_dirs, false, sync, true, true);
    assert(all =~= pre + seq!["--locked"@]);
    assert(all[pre.len() as int] == "--locked"@);
}

/// With filtering on, the vendor options never carry `--locked`, and they
/// carry the platform flags.
pub proof fn lemma_filter_never_locked(
    versioned_dirs: bool,
    sync: Seq<Seq<char>>,
    lock_present: bool,
    respect_lockfile: bool,
)
    ensures
        vendor_options_spec(versioned_dirs, true, sync, lock_present, respect_lockfile)
            == (if versioned_dirs {
            seq!["--versioned-dirs"@]
        } else {
            seq![]
        }) + crate::commands::sync_flags(sync) + crate::commands::platform_flags(),
{
    assert(vendor_options_spec(versioned_dirs, true, sync, lock_present, respect_lockfile) =~= (
    if versioned_dirs {
        seq!["--versioned-dirs"@]
    } else {
        seq![]
    }) + crate::commands::sync_flags(sync) + crate::commands::platform_flags());
}

/// With the update on, a run that found its manifest and lockfile goes to
/// the update stage next, so a newer compatible release can enter the
/// lockfile.
pub proof fn lemma_update_reaches_update_stage(has_dependencies: bool)
    ensures
        next_state(
            initial(),
            UpdateMode::Whole,
            Event::Discovered {
                manifest_found: true,
                manifest_parses: true,
                has_dependencies,
                lockfile_present: true,
            },
        ).stage == Stage::UpdateOrRespect,
{
}

} // verus!
