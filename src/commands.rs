//! Arguments of the cargo subcommands that the service runs: `update`,
//! `fetch`, `generate-lockfile` and `vendor` (or `vendor-filterer`).
use vstd::prelude::*;
use vstd::string::*;
use crate::selector::{parse_update_selector, selector_meaning, selector_ok, SelectorError, UpdateSelector, VersionToken, VersionSpec, opt_version_view};
use crate::text::owned;

verus! {

/// The texts of a list of strings.
pub open spec fn texts(v: Seq<String>) -> Seq<Seq<char>> {
    v.map_values(|s: String| s@)
}

/// Appends `s` to `v`.
pub fn push_text(v: &mut Vec<String>, s: &str)
    ensures
        texts(final(v)@) == texts(old(v)@).push(s@),
{
    v.push(owned(s));
    assert(texts(v@) =~= texts(old(v)@).push(s@));
}

/// `--locked` where asked, nothing otherwise.
pub open spec fn locked_flag(locked: bool) -> Seq<Seq<char>> {
    if locked {
        seq!["--locked"@]
    } else {
        seq![]
    }
}

/// `--manifest-path <m>` unless `m` is empty.
pub open spec fn manifest_flag(m: Seq<char>) -> Seq<Seq<char>> {
    if m.len() == 0 {
        seq![]
    } else {
        seq!["--manifest-path"@, m]
    }
}

/// Arguments of `cargo generate-lockfile` for a manifest.
pub fn generate_lockfile_args(manifest: &str) -> (r: Vec<String>)
    ensures
        texts(r@) == manifest_flag(manifest@),
{
    let mut r: Vec<String> = Vec::new();
    if manifest.unicode_len() > 0 {
        push_text(&mut r, "--manifest-path");
        push_text(&mut r, manifest);
    }
    assert(texts(r@) =~= manifest_flag(manifest@));
    r
}

/// Arguments of a whole-project `cargo update`: the manifest, and
/// `--locked` where a lockfile exists and the caller respects it.
pub fn whole_update_args(manifest: &str, lock_present: bool, respect_lockfile: bool) -> (r: Vec<
    String,
>)
    ensures
        texts(r@) == manifest_flag(manifest@) + locked_flag(lock_present && respect_lockfile),
{
    let mut r = generate_lockfile_args(manifest);
    if lock_present && respect_lockfile {
        push_text(&mut r, "--locked");
    }
    assert(texts(r@) =~= manifest_flag(manifest@) + locked_flag(lock_present && respect_lockfile));
    r
}

/// What a version token adds to `cargo update`.
pub open spec fn version_flags(v: Option<VersionSpec>) -> Seq<Seq<char>> {
    match v {
        None => seq![],
        Some(VersionSpec::Recursive) => seq!["--recursive"@],
        Some(VersionSpec::Precise(p)) => seq!["--precise"@, p],
    }
}

/// Arguments of `cargo update` for one selector. `manifest_path` is where
/// the selector's manifest was found, `lock_beside` whether a lockfile sits
/// next to it; both matter only where the selector names a manifest.
pub fn selector_update_args(
    sel: &UpdateSelector,
    manifest_path: &str,
    lock_beside: bool,
    respect_lockfile: bool,
) -> (r: Vec<String>)
    ensures
        texts(r@) == seq![sel.name@] + version_flags(opt_version_view(sel.version)) + (
        if sel.manifest is Some {
            seq!["--manifest-path"@, manifest_path@] + locked_flag(lock_beside && respect_lockfile)
        } else {
            seq![]
        }),
{
    let mut r: Vec<String> = Vec::new();
    push_text(&mut r, sel.name.as_str());
    match &sel.version {
        Some(VersionToken::Recursive) => {
            push_text(&mut r, "--recursive");
        },
        Some(VersionToken::Precise(p)) => {
            push_text(&mut r, "--precise");
            push_text(&mut r, p.as_str());
        },
        None => {},
    }
    if sel.manifest.is_some() {
        push_text(&mut r, "--manifest-path");
        push_text(&mut r, manifest_path);
        if lock_beside && respect_lockfile {
            push_text(&mut r, "--locked");
        }
    }
    assert(texts(r@) =~= seq![sel.name@] + version_flags(opt_version_view(sel.version)) + (
    if sel.manifest is Some {
        seq!["--manifest-path"@, manifest_path@] + locked_flag(lock_beside && respect_lockfile)
    } else {
        seq![]
    }));
    r
}

/// Which `cargo update` runs.
#[derive(Clone, Debug)]
pub enum UpdatePlan {
    /// No update.
    Nothing,
    /// One whole-project update.
    Whole,
    /// One update per selector, in the order given.
    Selected(Vec<UpdateSelector>),
}

/// Decides the update: the whole project where asked; otherwise each given
/// selector, parsed strictly; otherwise none. Selectors are parsed only
/// where the whole-project update is off.
pub fn cargo_update(global_update: bool, crates: &Vec<String>) -> (r: Result<UpdatePlan, SelectorError>)
    ensures
        global_update ==> (r matches Ok(UpdatePlan::Whole)),
        !global_update && crates@.len() == 0 ==> (r matches Ok(UpdatePlan::Nothing)),
        !global_update && crates@.len() > 0 ==> (r is Ok <==> forall|i: int|
            0 <= i < crates@.len() ==> selector_ok(#[trigger] crates@[i]@)),
        !global_update && crates@.len() > 0 && r is Ok ==> (r matches Ok(UpdatePlan::Selected(_))),
        r matches Ok(UpdatePlan::Selected(sels)) ==> !global_update && sels@.len() == crates@.len()
            && forall|i: int| 0 <= i < sels@.len() ==> selector_meaning(crates@[i]@, #[trigger] sels@[i]),
{
    if global_update {
        return Ok(UpdatePlan::Whole);
    }
    if crates.len() == 0 {
        return Ok(UpdatePlan::Nothing);
    }
    let mut sels: Vec<UpdateSelector> = Vec::new();
    let mut i: usize = 0;
    while i < crates.len()
        invariant
            !global_update,
            i <= crates@.len(),
            sels@.len() == i,
            forall|k: int| 0 <= k < i ==> selector_ok(#[trigger] crates@[k]@),
            forall|k: int| 0 <= k < i ==> selector_meaning(crates@[k]@, #[trigger] sels@[k]),
        decreases crates@.len() - i,
    {
        match parse_update_selector(crates[i].as_str()) {
            Ok(sel) => {
                sels.push(sel);
            },
            Err(e) => {
                return Err(e);
            },
        }
        i += 1;
    }
    Ok(UpdatePlan::Selected(sels))
}

/// What `cargo fetch` needs: whether a lockfile must be generated first,
/// and its arguments.
#[derive(Clone, Debug)]
pub struct FetchPlan {
    pub generate_lockfile_first: bool,
    pub options: Vec<String>,
}

/// Plans `cargo fetch`. Without a lockfile one is generated first: a missing
/// lock overrides the wish to respect it for that one generation. The fetch
/// itself carries `--locked` where the caller respects the lockfile, which
/// then exists.
pub fn cargo_fetch(lock_present: bool, respect_lockfile: bool) -> (r: FetchPlan)
    ensures
        r.generate_lockfile_first == !lock_present,
        texts(r.options@) == locked_flag(respect_lockfile),
{
    let mut options: Vec<String> = Vec::new();
    if respect_lockfile {
        push_text(&mut options, "--locked");
    }
    assert(texts(options@) =~= locked_flag(respect_lockfile));
    FetchPlan { generate_lockfile_first: !lock_present, options }
}

/// `--sync <path>` for each extra manifest, in order.
pub open spec fn sync_flags(paths: Seq<Seq<char>>) -> Seq<Seq<char>>
    decreases paths.len(),
{
    if paths.len() == 0 {
        seq![]
    } else {
        sync_flags(paths.drop_last()) + seq!["--sync"@, paths.last()]
    }
}

/// The platform filter: Linux GNU targets, WASM, and every feature.
pub open spec fn platform_flags() -> Seq<Seq<char>> {
    seq!["--platform=*-unknown-linux-gnu"@, "--platform=wasm32-unknown-unknown"@, "--all-features"@]
}

/// The full option list of the vendor subcommand.
pub open spec fn vendor_options_spec(
    versioned_dirs: bool,
    filter: bool,
    sync: Seq<Seq<char>>,
    lock_present: bool,
    respect_lockfile: bool,
) -> Seq<Seq<char>> {
    (if versioned_dirs {
        seq!["--versioned-dirs"@]
    } else {
        seq![]
    }) + sync_flags(sync) + locked_flag(lock_present && !filter && respect_lockfile) + (if filter {
        platform_flags()
    } else {
        seq![]
    })
}

/// The vendor subcommand: the filtering variant where filtering is on.
pub fn vendor_subcommand(filter: bool) -> (r: &'static str)
    ensures
        r@ == (if filter {
            "vendor-filterer"@
        } else {
            "vendor"@
        }),
{
    if filter {
        "vendor-filterer"
    } else {
        "vendor"
    }
}

/// Options of the vendor subcommand. Lock verification is not available
/// while filtering, so `--locked` goes only to the plain vendor.
pub fn vendor_options(
    versioned_dirs: bool,
    filter: bool,
    sync: &Vec<String>,
    lock_present: bool,
    respect_lockfile: bool,
) -> (r: Vec<String>)
    ensures
        texts(r@) == vendor_options_spec(
            versioned_dirs,
            filter,
            texts(sync@),
            lock_present,
            respect_lockfile,
        ),
{
    let mut r: Vec<String> = Vec::new();
    if versioned_dirs {
        push_text(&mut r, "--versioned-dirs");
    }
    let ghost head = texts(r@);
    let mut i: usize = 0;
    while i < sync.len()
        invariant
            i <= sync@.len(),
            texts(r@) == head + sync_flags(texts(sync@).subrange(0, i as int)),
        decreases sync@.len() - i,
    {
        push_text(&mut r, "--sync");
        push_text(&mut r, sync[i].as_str());
        proof {
            let p = texts(sync@).subrange(0, i + 1);
            assert(p.drop_last() =~= texts(sync@).subrange(0, i as int));
        }
        i += 1;
        assert(texts(r@) =~= head + sync_flags(texts(sync@).subrange(0, i as int)));
    }
    assert(texts(sync@).subrange(0, sync@.len() as int) =~= texts(sync@));
    if lock_present && !filter && respect_lockfile {
        push_text(&mut r, "--locked");
    }
    if filter {
        push_text(&mut r, "--platform=*-unknown-linux-gnu");
        push_text(&mut r, "--platform=wasm32-unknown-unknown");
        push_text(&mut r, "--all-features");
    }
    assert(texts(r@) =~= vendor_options_spec(
        versioned_dirs,
        filter,
        texts(sync@),
        lock_present,
        respect_lockfile,
    ));
    r
}

/// Whether filtering overrides the wish to respect an existing lockfile, a
/// condition the service warns about.
pub fn filter_overrides_lock(filter: bool, lock_present: bool, respect_lockfile: bool) -> (r: bool)
    ensures
        r == (filter && lock_present && respect_lockfile),
{
    filter && lock_present && respect_lockfile
}

/// Options that only the vendor method reads.
#[derive(Clone, Copy, Debug, PartialEq, Eq, Structural)]
pub struct VendorArgs {
    /// Filter out non-Linux dependencies (loses lock verification).
    pub filter: bool,
    /// Name vendored directories with their versions.
    pub versioned_dirs: bool,
}

impl Default for VendorArgs {
    fn default() -> (r: VendorArgs)
        ensures
            r == (VendorArgs { filter: false, versioned_dirs: true }),
    {
        VendorArgs { filter: false, versioned_dirs: true }
    }
}

} // verus!
