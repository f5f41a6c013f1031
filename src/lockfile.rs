//! Lockfile snapshots: the digest of a lockfile's bytes at a point in time,
//! and what changed between two snapshots of the same path.
use vstd::prelude::*;
use vstd::string::*;
use crate::text::owned;

verus! {

/// The BLAKE3 digest of a byte string.
pub uninterp spec fn blake3_of(bytes: Seq<u8>) -> Seq<u8>;

/// Relies on `blake3::hash`: the 32-byte BLAKE3 digest of the input, a
/// function of the bytes alone.
#[verifier::external_body]
fn blake3_digest(bytes: &[u8]) -> (r: Vec<u8>)
    ensures
        r@ == blake3_of(bytes@),
        r@.len() == 32,
{
    blake3::hash(bytes).as_bytes().to_vec()
}

/// A lockfile's path and the digest of its bytes; no digest where there was
/// no lockfile, which is unlike any digest.
#[derive(Clone, Debug)]
pub struct LockState {
    pub path: String,
    pub digest: Option<Vec<u8>>,
}

pub open spec fn digest_view(d: Option<Vec<u8>>) -> Option<Seq<u8>> {
    match d {
        Some(v) => Some(v@),
        None => None,
    }
}

/// Takes a snapshot of the lockfile at `path`, given its bytes where it
/// exists.
pub fn snapshot(path: &str, contents: Option<&[u8]>) -> (r: LockState)
    ensures
        r.path@ == path@,
        digest_view(r.digest) == match contents {
            Some(b) => Some(blake3_of(b@)),
            None => None,
        },
{
    let digest = match contents {
        Some(b) => Some(blake3_digest(b)),
        None => None,
    };
    LockState { path: owned(path), digest }
}

/// How a lockfile changed between two snapshots.
#[derive(Clone, Copy, Debug, PartialEq, Eq, Structural)]
pub enum LockDiff {
    /// Same digest before and after.
    Unchanged,
    /// Both present, digests differ.
    Changed,
    /// Absent before, present after: it was generated.
    Created,
    /// Absent after the operation.
    Missing,
}

pub open spec fn diff_spec(before: Option<Seq<u8>>, after: Option<Seq<u8>>) -> LockDiff {
    match (before, after) {
        (_, None) => LockDiff::Missing,
        (None, Some(_)) => LockDiff::Created,
        (Some(a), Some(b)) => if a == b {
            LockDiff::Unchanged
        } else {
            LockDiff::Changed
        },
    }
}

fn same_bytes(a: &Vec<u8>, b: &Vec<u8>) -> (r: bool)
    ensures
        r == (a@ == b@),
{
    if a.len() != b.len() {
        return false;
    }
    let mut i: usize = 0;
    while i < a.len()
        invariant
            a@.len() == b@.len(),
            i <= a@.len(),
            forall|k: int| 0 <= k < i ==> a@[k] == b@[k],
        decreases a@.len() - i,
    {
        if a[i] != b[i] {
            return false;
        }
        i += 1;
    }
    assert(a@ =~= b@);
    true
}

/// Compares two snapshots of one lockfile.
pub fn diff(before: &LockState, after: &LockState) -> (r: LockDiff)
    ensures
        r == diff_spec(digest_view(before.digest), digest_view(after.digest)),
{
    match (&before.digest, &after.digest) {
        (_, None) => LockDiff::Missing,
        (None, Some(_)) => LockDiff::Created,
        (Some(a), Some(b)) => if same_bytes(a, b) {
            LockDiff::Unchanged
        } else {
            LockDiff::Changed
        },
    }
}

/// Whether the change deserves a warning: the lockfile changed under an
/// operation that was meant to keep it.
pub fn unexpected_change(d: LockDiff, lock_preserving: bool) -> (r: bool)
    ensures
        r == (lock_preserving && d == LockDiff::Changed),
{
    lock_preserving && d == LockDiff::Changed
}

/// Two snapshots of the same bytes compare as unchanged: the digest is a
/// function of the content alone, so an untouched lockfile never reads as
/// changed.
pub proof fn lemma_same_bytes_unchanged(before: Seq<u8>, after: Seq<u8>)
    requires
        before == after,
    ensures
        diff_spec(Some(blake3_of(before)), Some(blake3_of(after))) == LockDiff::Unchanged,
{
}

} // verus!
