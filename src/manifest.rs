//! The manifest inspector: which dependency tables a manifest declares,
//! whether it is a workspace, and the members a workspace names.
//!
//! A manifest reaches the library already decoded: each dependency table is
//! held as the list of its keys, absent where the table is.
use vstd::prelude::*;
use vstd::string::*;
use crate::commands::texts;
use crate::text::{ends_with, ends_with_spec, owned, same_text};

verus! {

/// The dependency tables of a manifest or of a `[workspace]` table.
#[derive(Clone, Debug)]
pub struct TomlManifest {
    pub dependencies: Option<Vec<String>>,
    pub dev_dependencies: Option<Vec<String>>,
    pub build_dependencies: Option<Vec<String>>,
    /// The platforms under `[target]` whose own `dependencies`,
    /// `dev-dependencies` or `build-dependencies` table holds an entry; a
    /// platform whose tables are all empty or absent is not listed.
    pub target: Option<Vec<String>>,
}

/// The `[workspace]` table.
#[derive(Clone, Debug)]
pub struct WorkspaceTable {
    pub members: Option<Vec<String>>,
    pub default_members: Option<Vec<String>>,
    /// `[workspace.dependencies]` and its siblings.
    pub extra: Option<TomlManifest>,
}

/// A manifest that is a workspace.
#[derive(Clone, Debug)]
pub struct WorkspaceTomlManifest {
    pub workspace: WorkspaceTable,
}

/// A whole manifest: its own dependency tables, and its `[workspace]` table
/// where it has one (an empty one counts).
#[derive(Clone, Debug)]
pub struct CargoManifest {
    pub tables: TomlManifest,
    pub workspace: Option<WorkspaceTable>,
}

/// A table that is there and holds at least one entry.
pub open spec fn table_nonempty(t: Option<Vec<String>>) -> bool {
    match t {
        Some(v) => v@.len() > 0,
        None => false,
    }
}

/// Any of the four dependency tables holds an entry.
pub open spec fn declares_dependencies(m: TomlManifest) -> bool {
    table_nonempty(m.dependencies) || table_nonempty(m.dev_dependencies) || table_nonempty(
        m.build_dependencies,
    ) || table_nonempty(m.target)
}

fn nonempty(t: &Option<Vec<String>>) -> (r: bool)
    ensures
        r == table_nonempty(*t),
{
    match t {
        Some(v) => v.len() > 0,
        None => false,
    }
}

impl TomlManifest {
    /// Whether any of the four dependency tables holds an entry.
    pub fn declares_dependencies(&self) -> (r: bool)
        ensures
            r == declares_dependencies(*self),
    {
        nonempty(&self.dependencies) || nonempty(&self.dev_dependencies) || nonempty(
            &self.build_dependencies,
        ) || nonempty(&self.target)
    }
}

/// The workspace declares dependencies of its own.
pub open spec fn workspace_declares(ws: WorkspaceTable) -> bool {
    match ws.extra {
        Some(t) => declares_dependencies(t),
        None => false,
    }
}

impl WorkspaceTable {
    /// Whether the workspace declares dependencies of its own.
    pub fn declares_dependencies(&self) -> (r: bool)
        ensures
            r == workspace_declares(*self),
    {
        match &self.extra {
            Some(t) => t.declares_dependencies(),
            None => false,
        }
    }
}

/// Whether the manifest has a `[workspace]` table.
pub fn is_workspace(m: &CargoManifest) -> (r: bool)
    ensures
        r == m.workspace is Some,
{
    m.workspace.is_some()
}

/// Whether the manifest's own tables declare a dependency.
pub fn has_dependencies(m: &CargoManifest) -> (r: bool)
    ensures
        r == declares_dependencies(m.tables),
{
    m.tables.declares_dependencies()
}

/// The verdict on a manifest: its own dependencies, or, for a workspace, the
/// verdict on the workspace and its members.
pub open spec fn manifest_verdict(m: CargoManifest, workspace_verdict: bool) -> bool {
    declares_dependencies(m.tables) || (m.workspace is Some && workspace_verdict)
}

/// Combines a manifest's own tables with the verdict on its workspace
/// (ignored where the manifest is not a workspace).
pub fn manifest_has_dependencies(m: &CargoManifest, workspace_verdict: bool) -> (r: bool)
    ensures
        r == manifest_verdict(*m, workspace_verdict),
{
    has_dependencies(m) || (is_workspace(m) && workspace_verdict)
}

// ----- ordering of member entries -----

/// Lexicographic order of texts by code point, the order of `str`.
pub open spec fn text_lt(a: Seq<char>, b: Seq<char>) -> bool
    decreases a.len(),
{
    if a.len() == 0 {
        b.len() > 0
    } else if b.len() == 0 {
        false
    } else if a[0] != b[0] {
        (a[0] as int) < (b[0] as int)
    } else {
        text_lt(a.drop_first(), b.drop_first())
    }
}

pub proof fn lemma_text_lt_total(a: Seq<char>, b: Seq<char>)
    requires
        a != b,
    ensures
        text_lt(a, b) || text_lt(b, a),
    decreases a.len(),
{
    if a.len() > 0 && b.len() > 0 && a[0] == b[0] {
        if a.drop_first() == b.drop_first() {
            assert(a =~= seq![a[0]] + a.drop_first());
            assert(b =~= seq![b[0]] + b.drop_first());
        }
        lemma_text_lt_total(a.drop_first(), b.drop_first());
    } else if a.len() > 0 && b.len() > 0 {
        assert((a[0] as int) != (b[0] as int));
    } else if a.len() == 0 && b.len() == 0 {
        assert(a =~= b);
    }
}

pub proof fn lemma_text_lt_transitive(a: Seq<char>, b: Seq<char>, c: Seq<char>)
    requires
        text_lt(a, b),
        text_lt(b, c),
    ensures
        text_lt(a, c),
    decreases a.len(),
{
    if a.len() > 0 && b.len() > 0 && c.len() > 0 && a[0] == b[0] && b[0] == c[0] {
        lemma_text_lt_transitive(a.drop_first(), b.drop_first(), c.drop_first());
    }
}

/// Whether `a` comes strictly before `b`.
pub fn text_less(a: &str, b: &str) -> (r: bool)
    ensures
        r == text_lt(a@, b@),
{
    let n = a.unicode_len();
    let m = b.unicode_len();
    let mut i: usize = 0;
    assert(a@.skip(0) =~= a@);
    assert(b@.skip(0) =~= b@);
    while i < n && i < m
        invariant
            n == a@.len(),
            m == b@.len(),
            i <= n,
            i <= m,
            text_lt(a@, b@) == text_lt(a@.skip(i as int), b@.skip(i as int)),
        decreases n - i,
    {
        let x = a.get_char(i);
        let y = b.get_char(i);
        if x != y {
            assert(a@.skip(i as int)[0] == x);
            assert(b@.skip(i as int)[0] == y);
            return (x as u32) < (y as u32);
        }
        assert(a@.skip(i as int).drop_first() =~= a@.skip(i + 1));
        assert(b@.skip(i as int).drop_first() =~= b@.skip(i + 1));
        i += 1;
    }
    m > i
}

/// Strictly increasing, so also free of repeats.
pub open spec fn strictly_sorted(s: Seq<Seq<char>>) -> bool {
    forall|i: int, j: int| 0 <= i < j < s.len() ==> text_lt(#[trigger] s[i], #[trigger] s[j])
}

/// Inserts `x` into a strictly sorted list unless it is there already.
fn insert_sorted(v: &mut Vec<String>, x: &str)
    requires
        strictly_sorted(texts(old(v)@)),
    ensures
        strictly_sorted(texts(final(v)@)),
        texts(final(v)@).to_set() == texts(old(v)@).to_set().insert(x@),
{
    let ghost s0 = texts(v@);
    let mut i: usize = 0;
    while i < v.len()
        invariant
            v@ == old(v)@,
            s0 == texts(v@),
            i <= v@.len(),
            forall|k: int| 0 <= k < i ==> text_lt(#[trigger] s0[k], x@),
        ensures
            v@ == old(v)@,
            i <= v@.len(),
            forall|k: int| 0 <= k < i ==> text_lt(#[trigger] s0[k], x@),
            i < v@.len() ==> !text_lt(s0[i as int], x@),
        decreases v@.len() - i,
    {
        if !text_less(v[i].as_str(), x) {
            break;
        }
        i += 1;
    }
    if i < v.len() && same_text(v[i].as_str(), x) {
        assert(s0[i as int] == x@);
        assert(s0.to_set().insert(x@) =~= s0.to_set());
        return;
    }
    proof {
        if i < s0.len() {
            assert(!text_lt(s0[i as int], x@));
            assert(s0[i as int] != x@);
            lemma_text_lt_total(s0[i as int], x@);
        }
    }
    v.insert(i, owned(x));
    let ghost s1 = texts(v@);
    assert(s1 =~= s0.insert(i as int, x@));
    assert forall|a: int, b: int| 0 <= a < b < s1.len() implies text_lt(
        #[trigger] s1[a],
        #[trigger] s1[b],
    ) by {
        if b < i {
        } else if b == i {
        } else if a < i {
            assert(s1[a] == s0[a] && s1[b] == s0[b - 1]);
        } else if a == i {
            if b - 1 > i {
                lemma_text_lt_transitive(x@, s0[i as int], s0[b - 1]);
            }
        } else {
        }
    }
    assert(s1.to_set() =~= s0.to_set().insert(x@)) by {
        assert forall|y: Seq<char>| s1.to_set().contains(y) <==> s0.to_set().insert(x@).contains(
            y,
        ) by {
            if s1.to_set().contains(y) {
                let k = choose|k: int| 0 <= k < s1.len() && s1[k] == y;
                if k < i {
                    assert(s0[k] == y);
                } else if k > i {
                    assert(s0[k - 1] == y);
                }
            }
            if s0.to_set().contains(y) {
                let k = choose|k: int| 0 <= k < s0.len() && s0[k] == y;
                if k < i {
                    assert(s1[k] == y);
                } else {
                    assert(s1[k + 1] == y);
                }
            }
            if y == x@ {
                assert(s1[i as int] == y);
            }
        }
    }
}

/// The entries of an optional list, as a set of texts.
pub open spec fn entry_set(o: Option<Vec<String>>) -> Set<Seq<char>> {
    match o {
        Some(v) => texts(v@).to_set(),
        None => Set::empty(),
    }
}

fn insert_all(acc: &mut Vec<String>, o: &Option<Vec<String>>)
    requires
        strictly_sorted(texts(old(acc)@)),
    ensures
        strictly_sorted(texts(final(acc)@)),
        texts(final(acc)@).to_set() == texts(old(acc)@).to_set().union(entry_set(*o)),
{
    match o {
        Some(v) => {
            let mut i: usize = 0;
            while i < v.len()
                invariant
                    i <= v@.len(),
                    strictly_sorted(texts(acc@)),
                    texts(acc@).to_set() == texts(old(acc)@).to_set().union(
                        texts(v@.subrange(0, i as int)).to_set(),
                    ),
                decreases v@.len() - i,
            {
                insert_sorted(acc, v[i].as_str());
                proof {
                    let a = texts(v@.subrange(0, i as int));
                    let b = texts(v@.subrange(0, i + 1));
                    assert(b =~= a.push(v@[i as int]@));
                    a.lemma_push_to_set_commute(v@[i as int]@);
                    assert(texts(acc@).to_set() =~= texts(old(acc)@).to_set().union(
                        b.to_set(),
                    ));
                }
                i += 1;
            }
            assert(v@.subrange(0, v@.len() as int) =~= v@);
        },
        None => {
            assert(texts(acc@).to_set() =~= texts(acc@).to_set().union(
                Set::<Seq<char>>::empty(),
            ));
        },
    }
}

/// The member entries of a workspace: `members` and `default-members`
/// together, sorted, each once.
pub fn workspace_members(ws: &WorkspaceTable) -> (r: Vec<String>)
    ensures
        strictly_sorted(texts(r@)),
        texts(r@).to_set() == entry_set(ws.members).union(entry_set(ws.default_members)),
{
    let mut acc: Vec<String> = Vec::new();
    assert(texts(acc@).to_set() =~= Set::<Seq<char>>::empty());
    insert_all(&mut acc, &ws.members);
    insert_all(&mut acc, &ws.default_members);
    assert(Set::<Seq<char>>::empty().union(entry_set(ws.members)) =~= entry_set(ws.members));
    acc
}

/// What inspection found of one manifest: whether it is a workspace,
/// whether it (or, for a workspace, any member) has dependencies, and the
/// member entries of a workspace, sorted and each once.
#[derive(Clone, Debug)]
pub struct ManifestDescriptor {
    pub path: String,
    pub is_workspace: bool,
    pub has_dependencies: bool,
    pub members: Vec<String>,
}

/// Classifies a decoded manifest, given the verdict on its workspace
/// members (ignored where it is not a workspace).
pub fn classify(path: &str, m: &CargoManifest, workspace_verdict: bool) -> (r: ManifestDescriptor)
    ensures
        r.path@ == path@,
        r.is_workspace == m.workspace is Some,
        r.has_dependencies == manifest_verdict(*m, workspace_verdict),
        strictly_sorted(texts(r.members@)),
        texts(r.members@).to_set() == match m.workspace {
            Some(ws) => entry_set(ws.members).union(entry_set(ws.default_members)),
            None => Set::empty(),
        },
{
    let members = match &m.workspace {
        Some(ws) => workspace_members(ws),
        None => {
            let v: Vec<String> = Vec::new();
            assert(texts(v@).to_set() =~= Set::<Seq<char>>::empty());
            v
        },
    };
    ManifestDescriptor {
        path: owned(path),
        is_workspace: is_workspace(m),
        has_dependencies: manifest_has_dependencies(m, workspace_verdict),
        members,
    }
}

// ----- workspace members -----

/// Whether a member entry is the workspace's own directory.
pub fn is_self_member(entry: &str) -> (r: bool)
    ensures
        r == (entry@ == "."@),
{
    same_text(entry, ".")
}

/// `dir/name`, with no separator doubled.
pub open spec fn join_spec(dir: Seq<char>, name: Seq<char>) -> Seq<char> {
    if dir.len() == 0 || dir.last() == '/' {
        dir + name
    } else {
        dir + "/"@ + name
    }
}

pub fn join_path(dir: &str, name: &str) -> (r: String)
    ensures
        r@ == join_spec(dir@, name@),
{
    let n = dir.unicode_len();
    let mut r = owned(dir);
    if n == 0 || dir.get_char(n - 1) == '/' {
        r.append(name);
    } else {
        r.append("/");
        r.append(name);
    }
    r
}

/// A path whose last component is `Cargo.toml`.
pub open spec fn names_manifest(p: Seq<char>) -> bool {
    p == "Cargo.toml"@ || ends_with_spec(p, "/Cargo.toml"@)
}

/// What a path matched by a member glob stands for.
#[derive(Clone, Debug)]
pub enum MemberPath {
    /// A directory: its `Cargo.toml`, which must exist.
    InDirectory(String),
    /// A manifest named directly.
    Direct(String),
    /// Anything else, which the workspace does not count.
    Ignored,
}

/// Resolves a path that a member glob matched.
pub fn member_manifest(path: &str, is_dir: bool) -> (r: MemberPath)
    ensures
        is_dir ==> (r matches MemberPath::InDirectory(m) && m@ == join_spec(
            path@,
            "Cargo.toml"@,
        )),
        !is_dir && names_manifest(path@) ==> (r matches MemberPath::Direct(m) && m@ == path@),
        !is_dir && !names_manifest(path@) ==> r is Ignored,
{
    if is_dir {
        MemberPath::InDirectory(join_path(path, "Cargo.toml"))
    } else if same_text(path, "Cargo.toml") || ends_with(path, "/Cargo.toml") {
        MemberPath::Direct(owned(path))
    } else {
        MemberPath::Ignored
    }
}

/// The verdict on a workspace: its own tables, a member entry that is the
/// workspace itself, or any manifest that a member entry matched.
pub open spec fn workspace_verdict(
    own: bool,
    entries: Seq<Seq<char>>,
    verdicts: Seq<Seq<bool>>,
) -> bool {
    own || exists|i: int|
        0 <= i < entries.len() && #[trigger] entry_has_dependencies(entries[i], verdicts[i])
}

/// A member entry that is the workspace itself, or that matched a manifest
/// with dependencies.
pub open spec fn entry_has_dependencies(entry: Seq<char>, verdicts: Seq<bool>) -> bool {
    entry == "."@ || exists|j: int| 0 <= j < verdicts.len() && #[trigger] verdicts[j]
}

pub open spec fn verdict_views(v: Seq<Vec<bool>>) -> Seq<Seq<bool>> {
    v.map_values(|x: Vec<bool>| x@)
}

fn any_true(v: &Vec<bool>) -> (r: bool)
    ensures
        r == exists|j: int| 0 <= j < v@.len() && #[trigger] v@[j],
{
    let mut j: usize = 0;
    while j < v.len()
        invariant
            j <= v@.len(),
            forall|k: int| 0 <= k < j ==> !#[trigger] v@[k],
        decreases v@.len() - j,
    {
        if v[j] {
            return true;
        }
        j += 1;
    }
    false
}

/// Whether a workspace has dependencies. `entries` are its member entries
/// (see `workspace_members`), and `member_verdicts[i]` the verdicts on the
/// manifests that `entries[i]` matched.
pub fn workspace_has_dependencies(
    ws: &WorkspaceTable,
    entries: &Vec<String>,
    member_verdicts: &Vec<Vec<bool>>,
) -> (r: bool)
    requires
        entries@.len() == member_verdicts@.len(),
    ensures
        r == workspace_verdict(
            workspace_declares(*ws),
            texts(entries@),
            verdict_views(member_verdicts@),
        ),
{
    let ghost own = workspace_declares(*ws);
    let ghost es = texts(entries@);
    let ghost vs = verdict_views(member_verdicts@);
    if ws.declares_dependencies() {
        return true;
    }
    let mut i: usize = 0;
    while i < entries.len()
        invariant
            !own,
            es == texts(entries@),
            vs == verdict_views(member_verdicts@),
            entries@.len() == member_verdicts@.len(),
            i <= entries@.len(),
            forall|k: int| 0 <= k < i ==> !#[trigger] entry_has_dependencies(es[k], vs[k]),
        decreases entries@.len() - i,
    {
        if is_self_member(entries[i].as_str()) || any_true(&member_verdicts[i]) {
            assert(entry_has_dependencies(es[i as int], vs[i as int]));
            return true;
        }
        i += 1;
    }
    false
}

/// A manifest with no dependency entries in any of its four tables, and no
/// workspace, has no dependencies, whatever is said of workspaces.
pub proof fn lemma_no_tables_no_dependencies(m: CargoManifest, workspace_verdict: bool)
    requires
        !table_nonempty(m.tables.dependencies),
        !table_nonempty(m.tables.dev_dependencies),
        !table_nonempty(m.tables.build_dependencies),
        !table_nonempty(m.tables.target),
        m.workspace is None,
    ensures
        !manifest_verdict(m, workspace_verdict),
{
}

/// A workspace has dependencies as soon as one manifest that a member entry
/// matched has them, whatever its own tables hold.
pub proof fn lemma_member_dependencies_propagate(
    own: bool,
    entries: Seq<Seq<char>>,
    verdicts: Seq<Seq<bool>>,
    i: int,
    j: int,
)
    requires
        verdicts.len() == entries.len(),
        0 <= i < entries.len(),
        0 <= j < verdicts[i].len(),
        verdicts[i][j],
    ensures
        workspace_verdict(own, entries, verdicts),
{
    assert(entry_has_dependencies(entries[i], verdicts[i]));
}

} // verus!
