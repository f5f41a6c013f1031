//! Decisions of the discovery step and of the home-registry method: which
//! manifest is the root, which extra manifests are acceptable, and what of a
//! private cargo home is left out of the registry archive.
use vstd::prelude::*;
use vstd::string::*;
use crate::commands::texts;
use crate::errors::{OBSCargoError, OBSCargoErrorKind};
use crate::manifest::{join_path, join_spec};
use crate::selector::manifest_file_name;
use crate::text::{ends_with, ends_with_spec};

verus! {

/// Picks the root manifest: `<root>/Cargo.toml` where it is a file, else the
/// first extra manifest under the root where it exists. With neither, no
/// manifest is found, which nothing can recover from.
pub fn root_manifest(
    root: &str,
    root_manifest_is_file: bool,
    extra: &Vec<String>,
    first_extra_exists: bool,
) -> (r: Result<String, OBSCargoError>)
    ensures
        root_manifest_is_file ==> (r matches Ok(m) && m@ == join_spec(root@, "Cargo.toml"@)),
        !root_manifest_is_file && extra@.len() > 0 && first_extra_exists ==> (r matches Ok(m)
            && m@ == join_spec(root@, extra@[0]@)),
        !root_manifest_is_file && !(extra@.len() > 0 && first_extra_exists) ==> (r matches Err(e)
            && e.kind == OBSCargoErrorKind::ManifestNotFound),
{
    if root_manifest_is_file {
        Ok(join_path(root, "Cargo.toml"))
    } else if extra.len() > 0 && first_extra_exists {
        Ok(join_path(root, extra[0].as_str()))
    } else {
        Err(
            OBSCargoError::new(
                OBSCargoErrorKind::ManifestNotFound,
                String::from_str("Failed to vendor as there are no manifest files to use."),
            ),
        )
    }
}

/// An extra manifest must name a `Cargo.toml`.
pub fn check_extra_manifest(m: &str) -> (r: Result<(), OBSCargoError>)
    ensures
        r is Ok <==> ends_with_spec(m@, manifest_file_name()),
        r matches Err(e) ==> e.kind == OBSCargoErrorKind::ManifestNotFound,
{
    if ends_with(m, "Cargo.toml") {
        Ok(())
    } else {
        let mut msg = String::from_str("Expected a valid manifest filename. Got ");
        msg.append(m);
        Err(OBSCargoError::new(OBSCargoErrorKind::ManifestNotFound, msg))
    }
}

/// The parts of a private cargo home that are removed before it is packed:
/// unpacked sources, installed binaries and the cache bookkeeping files.
pub fn registry_cleanup_paths(home: &str) -> (r: Vec<String>)
    ensures
        texts(r@) == seq![
            join_spec(join_spec(home@, "registry"@), "src"@),
            join_spec(home@, "bin"@),
            join_spec(home@, ".global-cache"@),
            join_spec(home@, ".package-cache"@),
            join_spec(home@, ".package-cache-mutate"@),
        ],
{
    let mut r: Vec<String> = Vec::new();
    let reg = join_path(home, "registry");
    r.push(join_path(reg.as_str(), "src"));
    r.push(join_path(home, "bin"));
    r.push(join_path(home, ".global-cache"));
    r.push(join_path(home, ".package-cache"));
    r.push(join_path(home, ".package-cache-mutate"));
    assert(texts(r@) =~= seq![
        join_spec(join_spec(home@, "registry"@), "src"@),
        join_spec(home@, "bin"@),
        join_spec(home@, ".global-cache"@),
        join_spec(home@, ".package-cache"@),
        join_spec(home@, ".package-cache-mutate"@),
    ]);
    r
}

} // verus!
