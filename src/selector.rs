//! Crate update selectors: `name[@version|@recursive][+path/Cargo.toml]`,
//! with `+` and `@` in either order, and the `cargo update` arguments that
//! each one asks for.
use vstd::prelude::*;
use vstd::string::*;
use crate::text::{
    ends_with, ends_with_spec, find_first_of, first_of, is_blank, is_blank_spec,
    lemma_first_of_bounds, owned, same_text,
};

verus! {

/// Whether `semver::Version::parse` accepts the text.
pub uninterp spec fn semver_accepts(s: Seq<char>) -> bool;

/// Relies on `semver::Version::parse`: `Ok` exactly for a valid SemVer
/// version; the answer depends on the text alone.
#[verifier::external_body]
fn is_semver(s: &str) -> (r: bool)
    ensures
        r == semver_accepts(s@),
{
    semver::Version::parse(s).is_ok()
}

/// What a selector asks of the version of its crate.
#[derive(Clone, Debug)]
pub enum VersionToken {
    /// `cargo update --recursive`.
    Recursive,
    /// `cargo update --precise <version>`.
    Precise(String),
}

pub enum VersionSpec {
    Recursive,
    Precise(Seq<char>),
}

impl View for VersionToken {
    type V = VersionSpec;

    open spec fn view(&self) -> VersionSpec {
        match self {
            VersionToken::Recursive => VersionSpec::Recursive,
            VersionToken::Precise(v) => VersionSpec::Precise(v@),
        }
    }
}

/// A parsed selector: the crate, what to do with its version, and the member
/// manifest it is updated in.
#[derive(Clone, Debug)]
pub struct UpdateSelector {
    pub name: String,
    pub version: Option<VersionToken>,
    pub manifest: Option<String>,
}

/// Why a selector was refused.
#[derive(Clone, Debug)]
pub enum SelectorError {
    /// The version token is neither `recursive` nor a SemVer version.
    InvalidVersion(String),
    /// The manifest path does not end in `Cargo.toml`.
    InvalidManifest(String),
}

pub open spec fn manifest_file_name() -> Seq<char> {
    "Cargo.toml"@
}

/// The three raw parts of a selector: the crate name, the version token and
/// the manifest token, each token absent where its delimiter is.
pub open spec fn selector_parts(s: Seq<char>) -> (Seq<char>, Option<Seq<char>>, Option<Seq<char>>) {
    let d = first_of(s, 0, '@', '+');
    if d >= s.len() {
        (s, None, None)
    } else {
        let name = s.subrange(0, d);
        let rest = s.subrange(d + 1, s.len() as int);
        if s[d] == '@' {
            let p = first_of(rest, 0, '+', '+');
            if p >= rest.len() {
                (name, Some(rest), None)
            } else {
                (name, Some(rest.subrange(0, p)), Some(rest.subrange(p + 1, rest.len() as int)))
            }
        } else {
            let q = first_of(rest, 0, '@', '@');
            if q >= rest.len() {
                (name, None, Some(rest))
            } else {
                (name, Some(rest.subrange(q + 1, rest.len() as int)), Some(rest.subrange(0, q)))
            }
        }
    }
}

/// A version token is accepted when blank, `recursive`, or SemVer.
pub open spec fn version_token_ok(t: Seq<char>, semver_ok: bool) -> bool {
    is_blank_spec(t) || t == "recursive"@ || semver_ok
}

/// What an accepted version token asks for.
pub open spec fn version_token_meaning(t: Seq<char>) -> Option<VersionSpec> {
    if is_blank_spec(t) {
        None
    } else if t == "recursive"@ {
        Some(VersionSpec::Recursive)
    } else {
        Some(VersionSpec::Precise(t))
    }
}

/// A manifest token is accepted when blank or a path to a `Cargo.toml`.
pub open spec fn manifest_token_ok(m: Seq<char>) -> bool {
    is_blank_spec(m) || ends_with_spec(m, manifest_file_name())
}

pub open spec fn opt_view(o: Option<String>) -> Option<Seq<char>> {
    match o {
        Some(s) => Some(s@),
        None => None,
    }
}

pub open spec fn opt_version_view(o: Option<VersionToken>) -> Option<VersionSpec> {
    match o {
        Some(v) => Some(v@),
        None => None,
    }
}

/// Splits a selector into its crate name, version token and manifest token.
pub fn split_selector(s: &str) -> (r: (String, Option<String>, Option<String>))
    ensures
        (r.0@, opt_view(r.1), opt_view(r.2)) == selector_parts(s@),
{
    proof {
        lemma_first_of_bounds(s@, 0, '@', '+');
    }
    let n = s.unicode_len();
    let d = find_first_of(s, 0, '@', '+');
    if d >= n {
        return (owned(s), None, None);
    }
    let name = owned(s.substring_char(0, d));
    let rest = s.substring_char(d + 1, n);
    let m = rest.unicode_len();
    if s.get_char(d) == '@' {
        proof {
            lemma_first_of_bounds(rest@, 0, '+', '+');
        }
        let p = find_first_of(rest, 0, '+', '+');
        if p >= m {
            (name, Some(owned(rest)), None)
        } else {
            (
                name,
                Some(owned(rest.substring_char(0, p))),
                Some(owned(rest.substring_char(p + 1, m))),
            )
        }
    } else {
        proof {
            lemma_first_of_bounds(rest@, 0, '@', '@');
        }
        let q = find_first_of(rest, 0, '@', '@');
        if q >= m {
            (name, None, Some(owned(rest)))
        } else {
            (
                name,
                Some(owned(rest.substring_char(q + 1, m))),
                Some(owned(rest.substring_char(0, q))),
            )
        }
    }
}

/// Classifies a version token, given whether it parses as SemVer.
pub fn classify_version(t: &str, semver_ok: bool) -> (r: Result<Option<VersionToken>, SelectorError>)
    ensures
        match r {
            Ok(v) => version_token_ok(t@, semver_ok) && opt_version_view(v)
                == version_token_meaning(t@),
            Err(e) => !version_token_ok(t@, semver_ok) && (e matches SelectorError::InvalidVersion(
                x,
            ) && x@ == t@),
        },
{
    if is_blank(t) {
        Ok(None)
    } else if same_text(t, "recursive") {
        Ok(Some(VersionToken::Recursive))
    } else if semver_ok {
        Ok(Some(VersionToken::Precise(owned(t))))
    } else {
        Err(SelectorError::InvalidVersion(owned(t)))
    }
}

/// Checks a manifest token.
pub fn classify_manifest(m: &str) -> (r: Result<Option<String>, SelectorError>)
    ensures
        match r {
            Ok(p) => manifest_token_ok(m@) && opt_view(p) == (if is_blank_spec(m@) {
                None
            } else {
                Some(m@)
            }),
            Err(e) => !manifest_token_ok(m@) && (e matches SelectorError::InvalidManifest(x)
                && x@ == m@),
        },
{
    if is_blank(m) {
        Ok(None)
    } else if ends_with(m, "Cargo.toml") {
        Ok(Some(owned(m)))
    } else {
        Err(SelectorError::InvalidManifest(owned(m)))
    }
}

/// Whether a selector is accepted, given its parts.
pub open spec fn selector_ok(s: Seq<char>) -> bool {
    let parts = selector_parts(s);
    (match parts.1 {
        Some(t) => version_token_ok(t, semver_accepts(t)),
        None => true,
    }) && (match parts.2 {
        Some(m) => manifest_token_ok(m),
        None => true,
    })
}

/// What an accepted selector `s` means, as `sel` holds it.
pub open spec fn selector_meaning(s: Seq<char>, sel: UpdateSelector) -> bool {
    let parts = selector_parts(s);
    &&& sel.name@ == parts.0
    &&& opt_version_view(sel.version) == match parts.1 {
        Some(t) => version_token_meaning(t),
        None => None,
    }
    &&& opt_view(sel.manifest) == match parts.2 {
        Some(m) => if is_blank_spec(m) {
            None
        } else {
            Some(m)
        },
        None => None,
    }
}

/// Parses one selector. The version token is checked before the manifest
/// token; either, if malformed, is a hard error.
pub fn parse_update_selector(s: &str) -> (r: Result<UpdateSelector, SelectorError>)
    ensures
        r is Ok <==> selector_ok(s@),
        r matches Ok(sel) ==> selector_meaning(s@, sel),
        r matches Err(SelectorError::InvalidVersion(t)) ==> selector_parts(s@).1 == Some(t@)
            && !version_token_ok(t@, semver_accepts(t@)),
        r matches Err(SelectorError::InvalidManifest(m)) ==> selector_parts(s@).2 == Some(m@)
            && !manifest_token_ok(m@),
{
    let (name, vtok, mtok) = split_selector(s);
    let version = match vtok {
        Some(t) => {
            let ok = is_semver(t.as_str());
            match classify_version(t.as_str(), ok) {
                Ok(v) => v,
                Err(e) => return Err(e),
            }
        },
        None => None,
    };
    let manifest = match mtok {
        Some(m) => match classify_manifest(m.as_str()) {
            Ok(p) => p,
            Err(e) => return Err(e),
        },
        None => None,
    };
    Ok(UpdateSelector { name, version, manifest })
}

} // verus!
