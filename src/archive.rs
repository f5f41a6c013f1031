//! The archive assembler's own decisions: the codec's file extension, the
//! output name, the ordered set of paths to pack, and the path of each entry
//! relative to the project root.
use vstd::prelude::*;
use vstd::string::*;
use crate::commands::texts;
use crate::errors::{OBSCargoError, OBSCargoErrorKind};
use crate::manifest::join_spec;
use crate::text::{owned, same_text};

verus! {

/// The outer stream filter of the archive.
#[derive(Clone, Copy, Debug, PartialEq, Eq, Structural)]
pub enum Compression {
    Gz,
    Xz,
    Zst,
    Bz2,
    /// A plain tarball.
    Not,
}

impl Default for Compression {
    fn default() -> (r: Compression)
        ensures
            r == Compression::Zst,
    {
        Compression::Zst
    }
}

/// Whether dependencies are vendored into a directory or kept as a home
/// registry.
#[derive(Clone, Copy, Debug, PartialEq, Eq, Structural)]
pub enum Method {
    Registry,
    Vendor,
}

impl Default for Method {
    fn default() -> (r: Method)
        ensures
            r == Method::Vendor,
    {
        Method::Vendor
    }
}

pub open spec fn extension_spec(c: Compression) -> Seq<char> {
    match c {
        Compression::Gz => "tar.gz"@,
        Compression::Xz => "tar.xz"@,
        Compression::Zst => "tar.zst"@,
        Compression::Bz2 => "tar.bz2"@,
        Compression::Not => "tar"@,
    }
}

/// The file extension that goes with a codec.
pub fn extension(c: Compression) -> (r: &'static str)
    ensures
        r@ == extension_spec(c),
{
    match c {
        Compression::Gz => "tar.gz",
        Compression::Xz => "tar.xz",
        Compression::Zst => "tar.zst",
        Compression::Bz2 => "tar.bz2",
        Compression::Not => "tar",
    }
}

/// The short name of a codec.
pub fn compression_name(c: Compression) -> (r: &'static str)
    ensures
        r@ == match c {
            Compression::Gz => "gz"@,
            Compression::Xz => "xz"@,
            Compression::Zst => "zst"@,
            Compression::Bz2 => "bz2"@,
            Compression::Not => "not"@,
        },
{
    match c {
        Compression::Gz => "gz",
        Compression::Xz => "xz",
        Compression::Zst => "zst",
        Compression::Bz2 => "bz2",
        Compression::Not => "not",
    }
}

pub open spec fn archive_name_spec(method: Method, tag: Option<Seq<char>>, c: Compression) -> Seq<
    char,
> {
    (match method {
        Method::Vendor => "vendor"@,
        Method::Registry => "registry"@,
    }) + match tag {
        Some(t) => "-"@ + t,
        None => seq![],
    } + "."@ + extension_spec(c)
}

/// `<vendor|registry>[-<tag>].<ext>`.
pub fn archive_file_name(method: Method, tag: Option<&str>, c: Compression) -> (r: String)
    ensures
        r@ == archive_name_spec(
            method,
            match tag {
                Some(t) => Some(t@),
                None => None,
            },
            c,
        ),
{
    let mut r = match method {
        Method::Vendor => String::from_str("vendor"),
        Method::Registry => String::from_str("registry"),
    };
    match tag {
        Some(t) => {
            r.append("-");
            r.append(t);
        },
        None => {},
    }
    r.append(".");
    r.append(extension(c));
    r
}

/// `s` without repeats, each kept where it first occurs.
pub open spec fn first_occurrences(s: Seq<Seq<char>>) -> Seq<Seq<char>>
    decreases s.len(),
{
    if s.len() == 0 {
        seq![]
    } else {
        let d = first_occurrences(s.drop_last());
        if d.contains(s.last()) {
            d
        } else {
            d.push(s.last())
        }
    }
}

fn contains_text(v: &Vec<String>, x: &str) -> (r: bool)
    ensures
        r == texts(v@).contains(x@),
{
    let mut i: usize = 0;
    while i < v.len()
        invariant
            i <= v@.len(),
            forall|k: int| 0 <= k < i ==> v@[k]@ != x@,
        decreases v@.len() - i,
    {
        if same_text(v[i].as_str(), x) {
            assert(texts(v@)[i as int] == x@);
            return true;
        }
        i += 1;
    }
    assert(!texts(v@).contains(x@)) by {
        if texts(v@).contains(x@) {
            let k = choose|k: int| 0 <= k < v@.len() && texts(v@)[k] == x@;
            assert(v@[k]@ == x@);
        }
    }
    false
}

/// The paths to pack: the generated configuration, the vendor directory,
/// then the lockfiles, each path once, in that order.
pub fn archive_paths(cargo_config: &str, vendor_dir: &str, lockfiles: &Vec<String>) -> (r: Vec<
    String,
>)
    ensures
        texts(r@) == first_occurrences(seq![cargo_config@, vendor_dir@] + texts(lockfiles@)),
{
    let ghost all = seq![cargo_config@, vendor_dir@] + texts(lockfiles@);
    let mut r: Vec<String> = Vec::new();
    r.push(owned(cargo_config));
    assert(all.take(1).drop_last() =~= seq![]);
    assert(first_occurrences(all.take(1).drop_last()) =~= seq![]);
    assert(all.take(1).last() == cargo_config@);
    assert(texts(r@) =~= first_occurrences(all.take(1)));
    assert(all.take(2).drop_last() =~= all.take(1));
    if !contains_text(&r, vendor_dir) {
        r.push(owned(vendor_dir));
    }
    assert(texts(r@) =~= first_occurrences(all.take(2)));
    let mut i: usize = 0;
    while i < lockfiles.len()
        invariant
            all == seq![cargo_config@, vendor_dir@] + texts(lockfiles@),
            i <= lockfiles@.len(),
            texts(r@) == first_occurrences(all.take(i + 2)),
        decreases lockfiles@.len() - i,
    {
        let x: &str = lockfiles[i].as_str();
        assert(x@ == all[i + 2]);
        assert(all.take(i + 3).drop_last() =~= all.take(i + 2));
        if !contains_text(&r, x) {
            let ghost before = r@;
            r.push(owned(x));
            assert(texts(r@) =~= texts(before).push(x@));
        }
        i += 1;
    }
    assert(all.take((lockfiles@.len() + 2) as int) =~= all);
    r
}

/// The path of `p` inside `root`, as `Path::strip_prefix` takes it: whole
/// components only; `None` where `p` is not inside `root`.
pub open spec fn relative_spec(p: Seq<char>, root: Seq<char>) -> Option<Seq<char>> {
    if root.len() == 0 {
        Some(p)
    } else if root.last() == '/' {
        if root.len() <= p.len() && p.take(root.len() as int) == root {
            Some(p.skip(root.len() as int))
        } else {
            None
        }
    } else if p == root {
        Some(seq![])
    } else if root.len() < p.len() && p.take(root.len() as int) == root && p[root.len() as int]
        == '/' {
        Some(p.skip((root.len() + 1) as int))
    } else {
        None
    }
}

fn prefix_matches(p: &str, root: &str) -> (r: bool)
    requires
        root@.len() <= p@.len(),
    ensures
        r == (p@.take(root@.len() as int) == root@),
{
    let m = root.unicode_len();
    let mut i: usize = 0;
    while i < m
        invariant
            m == root@.len(),
            m <= p@.len(),
            i <= m,
            forall|k: int| 0 <= k < i ==> p@[k] == root@[k],
        decreases m - i,
    {
        if p.get_char(i) != root.get_char(i) {
            assert(p@.take(m as int)[i as int] != root@[i as int]);
            return false;
        }
        i += 1;
    }
    assert(p@.take(m as int) =~= root@);
    true
}

/// The archive path of an entry: its path relative to the project root. An
/// entry outside the root means a path was built wrongly upstream, which is
/// a bug and not the user's to fix.
pub fn entry_path(p: &str, root: &str) -> (r: Result<String, OBSCargoError>)
    ensures
        match relative_spec(p@, root@) {
            Some(rel) => r matches Ok(s) && s@ == rel,
            None => r matches Err(e) && e.kind == OBSCargoErrorKind::InternalInvariantBroken,
        },
{
    let n = p.unicode_len();
    let m = root.unicode_len();
    if m == 0 {
        return Ok(owned(p));
    } else if root.get_char(m - 1) == '/' {
        if m <= n && prefix_matches(p, root) {
            return Ok(owned(p.substring_char(m, n)));
        }
    } else if same_text(p, root) {
        return Ok(String::new());
    } else if m < n && prefix_matches(p, root) && p.get_char(m) == '/' {
        return Ok(owned(p.substring_char(m + 1, n)));
    }
    let mut msg = String::from_str("THIS IS A BUG. Unable to proceed. ");
    msg.append(p);
    msg.append(" is not within ");
    msg.append(root);
    Err(OBSCargoError::new(OBSCargoErrorKind::InternalInvariantBroken, msg))
}

/// Joining an entry's relative path back onto the root gives the entry's
/// path: the archive keeps each path as it was under the root.
pub proof fn lemma_entry_path_round_trip(p: Seq<char>, root: Seq<char>)
    requires
        relative_spec(p, root) matches Some(rel) && rel.len() > 0,
    ensures
        join_spec(root, relative_spec(p, root)->Some_0) == p,
{
    let rel = relative_spec(p, root)->Some_0;
    if root.len() == 0 {
        assert(seq![] + p =~= p);
    } else if root.last() == '/' {
        assert(p =~= p.take(root.len() as int) + p.skip(root.len() as int));
    } else if p == root {
    } else {
        assert(p =~= p.take(root.len() as int) + "/"@ + p.skip((root.len() + 1) as int)) by {
            reveal_strlit("/");
        }
        if root.len() > 0 {
            assert(root.last() != '/');
        }
    }
}

} // verus!
