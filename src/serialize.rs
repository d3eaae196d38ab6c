//! Writing a configuration document: from the configuration model to a tree
//! of TOML values that reads back as the same document, and on to text.
use vstd::prelude::*;
use crate::model::{
    Full, FullView, GitTarget, ImportFault, PlatformBuild, PlatformBuildProfile, PropertiesTree,
    RepoSource, SingleValue, TreeView, ValueMap,
};
use crate::parse::{
    builds_spec, document_spec, lookup, lookup_from, platform_spec, profile_spec, repo_source_spec,
    singles_spec, tree_spec, Entries,
};
use crate::strmap::{entries_view, lemma_entry_in_view, lemma_view_of_prefix, names_unique, StrMap};
use crate::text::owned;
use crate::toml_text::{depth_within, lemma_depth_grows, toml_writing, write_toml, TomlNode, MAX_TREE_DEPTH};

verus! {

/// Every entry of a table holds at most `k` levels of tables.
pub open spec fn entries_within(es: Seq<(String, TomlNode)>, k: nat) -> bool {
    forall|i: int| 0 <= i < es.len() ==> depth_within(#[trigger] es[i].1, k)
}

/// A table whose entries are within `k` levels is within `k + 1`.
proof fn lemma_table_within(es: Vec<(String, TomlNode)>, k: nat)
    requires
        entries_within(es@, k),
    ensures
        depth_within(TomlNode::Table(es), k + 1),
{
}

/// The leaf that a single value is written as.
pub open spec fn leaf_spec(v: SingleValue) -> TomlNode {
    match v {
        SingleValue::String(s) => TomlNode::Text(s),
        SingleValue::Integer(i) => TomlNode::Integer(i),
        SingleValue::Boolean(b) => TomlNode::Boolean(b),
    }
}

fn leaf(v: &SingleValue) -> (r: TomlNode)
    ensures
        r == leaf_spec(*v),
{
    match v {
        SingleValue::String(s) => TomlNode::Text(s.clone()),
        SingleValue::Integer(i) => TomlNode::Integer(*i),
        SingleValue::Boolean(b) => TomlNode::Boolean(*b),
    }
}

/// The branch name, tag name or revision of a target.
pub open spec fn target_text(t: GitTarget) -> String {
    match t {
        GitTarget::Branch(s) => s,
        GitTarget::Tag(s) => s,
        GitTarget::Rev(s) => s,
    }
}

/// A source table holds exactly `path`, or exactly `git` and the target
/// under its kind.
pub open spec fn source_table_is(es: Seq<(String, TomlNode)>, src: RepoSource) -> bool {
    match src {
        RepoSource::LocalPath(p) => es.len() == 1 && es[0].0@ == "path"@ && es[0].1 == TomlNode::Text(p),
        RepoSource::RemoteGit { url, target } => {
            &&& es.len() == 2
            &&& es[0].0@ == "git"@
            &&& es[0].1 == TomlNode::Text(url)
            &&& es[1].0@ == target.spec_kind()
            &&& es[1].1 == TomlNode::Text(target_text(target))
        },
    }
}

/// A properties tree with nothing in it.
pub open spec fn tree_is_empty(t: TreeView) -> bool {
    &&& t.shared == Map::<Seq<char>, SingleValue>::empty()
    &&& t.debug == Map::<Seq<char>, SingleValue>::empty()
    &&& t.release == Map::<Seq<char>, SingleValue>::empty()
    &&& t.contextual == Map::<Seq<char>, Map<Seq<char>, SingleValue>>::empty()
}

/// The `sel4` table: the three sources in order, then `config` when the
/// configuration tree is not empty and `build_dir` when one is set.
pub open spec fn sel4_table_is(s4: Seq<(String, TomlNode)>, f: Full) -> bool {
    &&& s4.len() == 3 + (if tree_is_empty(f.sel4.config@) { 0int } else { 1int }) + (if f.sel4.build_dir is Some { 1int } else { 0int })
    &&& s4[0].0@ == "kernel"@ && (s4[0].1 matches TomlNode::Table(k) && source_table_is(k@, f.sel4.sources.kernel))
    &&& s4[1].0@ == "tools"@ && (s4[1].1 matches TomlNode::Table(k) && source_table_is(k@, f.sel4.sources.tools))
    &&& s4[2].0@ == "util_libs"@ && (s4[2].1 matches TomlNode::Table(k) && source_table_is(k@, f.sel4.sources.util_libs))
    &&& (lookup(s4, "config"@) is Some <==> !tree_is_empty(f.sel4.config@))
    &&& lookup(s4, "build_dir"@) == match f.sel4.build_dir {
        Some(d) => Some(TomlNode::Text(d)),
        None => None,
    }
}

/// The top-level table: `sel4` first, then `build` when some platform has
/// build settings and `metadata` when the metadata tree is not empty.
pub open spec fn document_table_is(top: Seq<(String, TomlNode)>, f: Full) -> bool {
    &&& top.len() == 1 + (if f.build@ == Map::<Seq<char>, PlatformBuild>::empty() { 0int } else { 1int }) + (if tree_is_empty(f.metadata@) { 0int } else { 1int })
    &&& top[0].0@ == "sel4"@ && (top[0].1 matches TomlNode::Table(s4) && sel4_table_is(s4@, f))
    &&& (lookup(top, "build"@) is Some <==> f.build@ != Map::<Seq<char>, PlatformBuild>::empty())
    &&& (lookup(top, "metadata"@) is Some <==> !tree_is_empty(f.metadata@))
}

/// A list of entries with unique names is empty exactly when its map is.
proof fn lemma_empty_iff<V>(s: Seq<(String, V)>)
    requires
        names_unique(s),
    ensures
        (s.len() == 0) == (entries_view(s) == Map::<Seq<char>, V>::empty()),
{
    if s.len() > 0 {
        lemma_entry_in_view(s, 0);
        assert(!Map::<Seq<char>, V>::empty().contains_key(s[0].0@));
    } else {
        assert(entries_view(s) =~= Map::<Seq<char>, V>::empty());
    }
}

/// Writes a map of single values as a table of leaves.
pub fn encode_singles(m: &ValueMap) -> (r: Entries)
    ensures
        singles_spec(r@) == Ok::<Map<Seq<char>, SingleValue>, ImportFault>(m@),
        r@.len() == m.spec_entries().len(),
        entries_within(r@, 0),
{
    let es = m.entries();
    let n = es.len();
    let mut r: Entries = Vec::new();
    let mut i: usize = 0;
    assert(es@.take(0) =~= Seq::<(String, SingleValue)>::empty());
    assert(entries_view(es@.take(0)) =~= Map::<Seq<char>, SingleValue>::empty());
    while i < n
        invariant
            n == es@.len(),
            i <= n,
            r@.len() == i,
            entries_within(r@, 0),
            es@ == m.spec_entries(),
            crate::strmap::names_unique(es@),
            singles_spec(r@) == Ok::<Map<Seq<char>, SingleValue>, ImportFault>(entries_view(es@.take(i as int))),
        decreases n - i,
    {
        let ghost before = r@;
        r.push((es[i].0.clone(), leaf(&es[i].1)));
        proof {
            assert(r@.drop_last() =~= before);
            lemma_view_of_prefix(es@, i as int);
        }
        i = i + 1;
    }
    assert(es@.take(n as int) =~= es@);
    r
}

proof fn lemma_reserved_free(t: &PropertiesTree, k: Seq<char>)
    requires
        t.wf(),
        t.shared@.contains_key(k) || t.contextual@.contains_key(k),
    ensures
        k != "debug"@,
        k != "release"@,
{
}

/// Writes a properties tree as a table: the shared values, the debug and
/// release overlays when not empty, then each contextual overlay.
pub fn encode_tree(t: &PropertiesTree) -> (r: Entries)
    requires
        t.wf(),
    ensures
        tree_spec(r@) == Ok::<TreeView, ImportFault>(t@),
        (r@.len() == 0) == tree_is_empty(t@),
        entries_within(r@, 1),
{
    let mut r: Entries = Vec::new();
    let se = t.shared.entries();
    let n = se.len();
    let mut i: usize = 0;
    assert(se@.take(0) =~= Seq::<(String, SingleValue)>::empty());
    assert(entries_view(se@.take(0)) =~= Map::<Seq<char>, SingleValue>::empty());
    assert(TreeView::empty() == (TreeView {
        shared: entries_view(se@.take(0)),
        debug: Map::empty(),
        release: Map::empty(),
        contextual: Map::empty(),
    }));
    while i < n
        invariant
            n == se@.len(),
            i <= n,
            r@.len() == i,
            entries_within(r@, 1),
            se@ == t.shared.spec_entries(),
            crate::strmap::names_unique(se@),
            t.wf(),
            tree_spec(r@) == Ok::<TreeView, ImportFault>(
                TreeView {
                    shared: entries_view(se@.take(i as int)),
                    debug: Map::empty(),
                    release: Map::empty(),
                    contextual: Map::empty(),
                },
            ),
        decreases n - i,
    {
        let ghost before = r@;
        r.push((se[i].0.clone(), leaf(&se[i].1)));
        proof {
            assert(r@.drop_last() =~= before);
            lemma_view_of_prefix(se@, i as int);
            lemma_entry_in_view(se@, i as int);
            lemma_reserved_free(t, se@[i as int].0@);
        }
        i = i + 1;
    }
    assert(se@.take(n as int) =~= se@);
    proof {
        reveal_strlit("debug");
        reveal_strlit("release");
    }
    let ghost after_shared = r@;
    if !t.debug.is_empty() {
        let d = encode_singles(&t.debug);
        r.push((owned("debug"), TomlNode::Table(d)));
        assert(r@.drop_last() =~= after_shared);
    }
    let ghost after_debug = r@;
    assert(tree_spec(r@) == Ok::<TreeView, ImportFault>(
        TreeView { shared: t.shared@, debug: t.debug@, release: Map::empty(), contextual: Map::empty() },
    ));
    if !t.release.is_empty() {
        let d = encode_singles(&t.release);
        let key = owned("release");
        proof {
            reveal_strlit("debug");
            reveal_strlit("release");
            assert("release"@.len() != "debug"@.len());
        }
        r.push((key, TomlNode::Table(d)));
        assert(r@.drop_last() =~= after_debug);
        assert(r@.last().0@ == "release"@);
    }
    assert(tree_spec(r@) == Ok::<TreeView, ImportFault>(
        TreeView { shared: t.shared@, debug: t.debug@, release: t.release@, contextual: Map::empty() },
    ));
    let ghost fixed = r@.len();
    proof {
        lemma_empty_iff(se@);
        assert(fixed == (se@.len() + (if t.debug@ == Map::<Seq<char>, SingleValue>::empty() { 0int } else { 1int })
            + (if t.release@ == Map::<Seq<char>, SingleValue>::empty() { 0int } else { 1int })));
    }
    let ce = t.contextual.entries();
    let cn = ce.len();
    let mut j: usize = 0;
    assert(ce@.take(0) =~= Seq::<(String, ValueMap)>::empty());
    assert(entries_view(ce@.take(0)).map_values(|m: ValueMap| m@) =~= Map::<Seq<char>, Map<Seq<char>, SingleValue>>::empty());
    while j < cn
        invariant
            cn == ce@.len(),
            j <= cn,
            r@.len() == fixed + j,
            entries_within(r@, 1),
            ce@ == t.contextual.spec_entries(),
            crate::strmap::names_unique(ce@),
            t.wf(),
            tree_spec(r@) == Ok::<TreeView, ImportFault>(
                TreeView {
                    shared: t.shared@,
                    debug: t.debug@,
                    release: t.release@,
                    contextual: entries_view(ce@.take(j as int)).map_values(|m: ValueMap| m@),
                },
            ),
        decreases cn - j,
    {
        let ghost before = r@;
        let sub = encode_singles(&ce[j].1);
        r.push((ce[j].0.clone(), TomlNode::Table(sub)));
        proof {
            assert(r@.drop_last() =~= before);
            lemma_view_of_prefix(ce@, j as int);
            lemma_entry_in_view(ce@, j as int);
            lemma_reserved_free(t, ce@[j as int].0@);
            let prev = entries_view(ce@.take(j as int));
            assert(prev.insert(ce@[j as int].0@, ce@[j as int].1).map_values(|m: ValueMap| m@)
                =~= prev.map_values(|m: ValueMap| m@).insert(ce@[j as int].0@, ce@[j as int].1@));
        }
        j = j + 1;
    }
    assert(ce@.take(cn as int) =~= ce@);
    proof {
        lemma_empty_iff(ce@);
        if ce@.len() > 0 {
            lemma_entry_in_view(ce@, 0);
            assert(t@.contextual.contains_key(ce@[0].0@));
        } else {
            assert(t@.contextual =~= Map::<Seq<char>, Map<Seq<char>, SingleValue>>::empty());
        }
    }
    r
}


/// Looking up a name after one more entry: an earlier entry wins, else the
/// new one if it carries the name.
proof fn lemma_lookup_push(s: Seq<(String, TomlNode)>, e: (String, TomlNode), k: Seq<char>, i: int)
    requires
        0 <= i <= s.len(),
    ensures
        lookup_from(s.push(e), k, i) == (match lookup_from(s, k, i) {
            Some(n) => Some(n),
            None => if e.0@ == k {
                Some(e.1)
            } else {
                None
            },
        }),
    decreases s.len() - i,
{
    if i < s.len() {
        assert(s.push(e)[i] == s[i]);
        lemma_lookup_push(s, e, k, i + 1);
    } else {
        assert(s.push(e)[i] == e);
        assert(lookup_from(s.push(e), k, i + 1) is None);
    }
}

fn push_entry(r: &mut Entries, key: String, n: TomlNode)
    ensures
        final(r)@ == old(r)@.push((key, n)),
        forall|k: nat| entries_within(old(r)@, k) && depth_within(n, k) ==> #[trigger] entries_within(final(r)@, k),
        forall|k: Seq<char>| #[trigger] lookup(final(r)@, k) == (match lookup(old(r)@, k) {
            Some(m) => Some(m),
            None => if key@ == k {
                Some(n)
            } else {
                None
            },
        }),
{
    let ghost before = r@;
    let ghost e = (key, n);
    r.push((key, n));
    proof {
        assert forall|k: Seq<char>| #[trigger] lookup(r@, k) == (match lookup(before, k) {
            Some(m) => Some(m),
            None => if e.0@ == k {
                Some(e.1)
            } else {
                None
            },
        }) by {
            lemma_lookup_push(before, e, k, 0);
        }
    }
}

/// The names that the document's tables use are all different where they
/// share a table.
proof fn lemma_distinct_words()
    ensures
        "path"@ != "git"@,
        "path"@ != "branch"@,
        "path"@ != "tag"@,
        "path"@ != "rev"@,
        "git"@ != "branch"@,
        "git"@ != "tag"@,
        "git"@ != "rev"@,
        "branch"@ != "tag"@,
        "branch"@ != "rev"@,
        "tag"@ != "rev"@,
        "make_root_task"@ != "root_task_image"@,
        "cross_compiler_prefix"@ != "toolchain_dir"@,
        "cross_compiler_prefix"@ != "debug"@,
        "cross_compiler_prefix"@ != "release"@,
        "toolchain_dir"@ != "debug"@,
        "toolchain_dir"@ != "release"@,
        "debug"@ != "release"@,
        "sel4"@ != "build"@,
        "sel4"@ != "metadata"@,
        "build"@ != "metadata"@,
        "kernel"@ != "tools"@,
        "kernel"@ != "util_libs"@,
        "kernel"@ != "config"@,
        "kernel"@ != "build_dir"@,
        "tools"@ != "util_libs"@,
        "tools"@ != "config"@,
        "tools"@ != "build_dir"@,
        "util_libs"@ != "config"@,
        "util_libs"@ != "build_dir"@,
        "config"@ != "build_dir"@,
{
    reveal_strlit("path");
    reveal_strlit("git");
    reveal_strlit("branch");
    reveal_strlit("tag");
    reveal_strlit("rev");
    reveal_strlit("make_root_task");
    reveal_strlit("root_task_image");
    reveal_strlit("cross_compiler_prefix");
    reveal_strlit("toolchain_dir");
    reveal_strlit("debug");
    reveal_strlit("release");
    reveal_strlit("sel4");
    reveal_strlit("build");
    reveal_strlit("metadata");
    reveal_strlit("kernel");
    reveal_strlit("tools");
    reveal_strlit("util_libs");
    reveal_strlit("config");
    reveal_strlit("build_dir");
    assert("git"@[0] != "tag"@[0]);
    assert("git"@[0] != "rev"@[0]);
    assert("tag"@[0] != "rev"@[0]);
    assert("kernel"@[0] != "config"@[0]);
    assert("util_libs"@[0] != "build_dir"@[0]);
    assert("path"@.len() != "git"@.len());
    assert("path"@.len() != "branch"@.len());
    assert("path"@.len() != "tag"@.len());
    assert("path"@.len() != "rev"@.len());
    assert("git"@.len() != "branch"@.len());
    assert("branch"@.len() != "tag"@.len());
    assert("branch"@.len() != "rev"@.len());
    assert("make_root_task"@.len() != "root_task_image"@.len());
    assert("cross_compiler_prefix"@.len() != "toolchain_dir"@.len());
    assert("cross_compiler_prefix"@.len() != "debug"@.len());
    assert("cross_compiler_prefix"@.len() != "release"@.len());
    assert("toolchain_dir"@.len() != "debug"@.len());
    assert("toolchain_dir"@.len() != "release"@.len());
    assert("debug"@.len() != "release"@.len());
    assert("sel4"@.len() != "build"@.len());
    assert("sel4"@.len() != "metadata"@.len());
    assert("build"@.len() != "metadata"@.len());
    assert("kernel"@.len() != "tools"@.len());
    assert("kernel"@.len() != "util_libs"@.len());
    assert("kernel"@.len() != "build_dir"@.len());
    assert("tools"@.len() != "util_libs"@.len());
    assert("tools"@.len() != "config"@.len());
    assert("tools"@.len() != "build_dir"@.len());
    assert("util_libs"@.len() != "config"@.len());
    assert("config"@.len() != "build_dir"@.len());
}

/// Writes a source descriptor as a table: a `path`, or a `git` url and the
/// target under its kind.
pub fn encode_source(src: &RepoSource) -> (r: Entries)
    ensures
        repo_source_spec(r@) == Ok::<RepoSource, ImportFault>(*src),
        source_table_is(r@, *src),
        entries_within(r@, 0),
{
    proof {
        lemma_distinct_words();
    }
    let mut r: Entries = Vec::new();
    match src {
        RepoSource::LocalPath(p) => {
            push_entry(&mut r, owned("path"), TomlNode::Text(p.clone()));
            assert(lookup(Seq::<(String, TomlNode)>::empty(), "path"@) is None);
            assert(lookup(r@, "path"@) == Some(TomlNode::Text(*p)));
            assert(r@.len() == 1);
        },
        RepoSource::RemoteGit { url, target } => {
            push_entry(&mut r, owned("git"), TomlNode::Text(url.clone()));
            let v = match target {
                GitTarget::Branch(b) => b.clone(),
                GitTarget::Tag(b) => b.clone(),
                GitTarget::Rev(b) => b.clone(),
            };
            push_entry(&mut r, owned(target.kind()), TomlNode::Text(v));
            let ghost e = Seq::<(String, TomlNode)>::empty();
            assert(lookup(e, "path"@) is None);
            assert(lookup(e, "branch"@) is None);
            assert(lookup(e, "tag"@) is None);
            assert(lookup(e, "rev"@) is None);
            assert(lookup(e, "git"@) is None);
            assert(lookup(r@, "path"@) is None);
            assert(lookup(r@, "git"@) == Some(TomlNode::Text(*url)));
            match target {
                GitTarget::Branch(b) => {
                    assert(lookup(r@, "branch"@) == Some(TomlNode::Text(*b)));
                    assert(lookup(r@, "tag"@) is None);
                    assert(lookup(r@, "rev"@) is None);
                },
                GitTarget::Tag(b) => {
                    assert(lookup(r@, "tag"@) == Some(TomlNode::Text(*b)));
                    assert(lookup(r@, "branch"@) is None);
                    assert(lookup(r@, "rev"@) is None);
                },
                GitTarget::Rev(b) => {
                    assert(lookup(r@, "rev"@) == Some(TomlNode::Text(*b)));
                    assert(lookup(r@, "branch"@) is None);
                    assert(lookup(r@, "tag"@) is None);
                },
            }
        },
    }
    r
}

fn encode_profile(p: &PlatformBuildProfile) -> (r: Entries)
    ensures
        crate::parse::opt_string_spec(r@, "make_root_task"@) == Ok::<Option<String>, ImportFault>(p.make_root_task),
        crate::parse::req_string_spec(r@, "root_task_image"@) == Ok::<String, ImportFault>(p.root_task_image),
        entries_within(r@, 0),
{
    proof {
        lemma_distinct_words();
    }
    let mut r: Entries = Vec::new();
    if let Some(m) = &p.make_root_task {
        push_entry(&mut r, owned("make_root_task"), TomlNode::Text(m.clone()));
    }
    push_entry(&mut r, owned("root_task_image"), TomlNode::Text(p.root_task_image.clone()));
    r
}

fn push_profile(r: &mut Entries, key: &str, p: &Option<PlatformBuildProfile>)
    ensures
        forall|k: Seq<char>| k != key@ ==> #[trigger] lookup(final(r)@, k) == lookup(old(r)@, k),
        lookup(old(r)@, key@) is None ==> profile_spec(final(r)@, key@) == Ok::<Option<PlatformBuildProfile>, ImportFault>(*p),
        entries_within(old(r)@, 1) ==> entries_within(final(r)@, 1),
{
    if let Some(prof) = p {
        let t = encode_profile(prof);
        push_entry(r, owned(key), TomlNode::Table(t));
    }
}

/// Writes one platform's build settings as a table.
pub fn encode_platform(pb: &PlatformBuild) -> (r: Entries)
    ensures
        platform_spec(r@) == Ok::<PlatformBuild, ImportFault>(*pb),
        entries_within(r@, 1),
{
    proof {
        lemma_distinct_words();
    }
    let mut r: Entries = Vec::new();
    if let Some(c) = &pb.cross_compiler_prefix {
        push_entry(&mut r, owned("cross_compiler_prefix"), TomlNode::Text(c.clone()));
    }
    if let Some(d) = &pb.toolchain_dir {
        push_entry(&mut r, owned("toolchain_dir"), TomlNode::Text(d.clone()));
    }
    push_profile(&mut r, "debug", &pb.debug_build_profile);
    push_profile(&mut r, "release", &pb.release_build_profile);
    r
}

/// Writes the platforms' build settings as the `build` table.
pub fn encode_build(m: &StrMap<PlatformBuild>) -> (r: Entries)
    ensures
        builds_spec(r@) == Ok::<Map<Seq<char>, PlatformBuild>, ImportFault>(m@),
        (r@.len() == 0) == (m@ == Map::<Seq<char>, PlatformBuild>::empty()),
        entries_within(r@, 2),
{
    let es = m.entries();
    let n = es.len();
    let mut r: Entries = Vec::new();
    let mut i: usize = 0;
    assert(es@.take(0) =~= Seq::<(String, PlatformBuild)>::empty());
    assert(entries_view(es@.take(0)) =~= Map::<Seq<char>, PlatformBuild>::empty());
    while i < n
        invariant
            n == es@.len(),
            i <= n,
            es@ == m.spec_entries(),
            r@.len() == i,
            entries_within(r@, 2),
            crate::strmap::names_unique(es@),
            builds_spec(r@) == Ok::<Map<Seq<char>, PlatformBuild>, ImportFault>(entries_view(es@.take(i as int))),
        decreases n - i,
    {
        let ghost before = r@;
        let t = encode_platform(&es[i].1);
        r.push((es[i].0.clone(), TomlNode::Table(t)));
        proof {
            assert(r@.drop_last() =~= before);
            lemma_view_of_prefix(es@, i as int);
        }
        i = i + 1;
    }
    assert(es@.take(n as int) =~= es@);
    proof {
        lemma_empty_iff(es@);
    }
    r
}

impl Full {
    /// The document as a tree of TOML values, which reads back as the same
    /// document.
    fn sel4_entries(&self) -> (s4: Entries)
        requires
            self.wf(),
        ensures
            sel4_table_is(s4@, *self),
            entries_within(s4@, 2),
            crate::parse::sel4_table_spec(s4@) matches Ok(raw) && {
                &&& repo_source_spec(raw.0) == Ok::<RepoSource, ImportFault>(self.sel4.sources.kernel)
                &&& repo_source_spec(raw.1) == Ok::<RepoSource, ImportFault>(self.sel4.sources.tools)
                &&& repo_source_spec(raw.2) == Ok::<RepoSource, ImportFault>(self.sel4.sources.util_libs)
                &&& tree_spec(raw.3) == Ok::<TreeView, ImportFault>(self.sel4.config@)
                &&& raw.4 == self.sel4.build_dir
            },
    {
        proof {
            lemma_distinct_words();
        }
        let mut s4: Entries = Vec::new();
        let kernel = encode_source(&self.sel4.sources.kernel);
        let tools = encode_source(&self.sel4.sources.tools);
        let util_libs = encode_source(&self.sel4.sources.util_libs);
        proof {
            lemma_table_within(kernel, 0);
            lemma_table_within(tools, 0);
            lemma_table_within(util_libs, 0);
            lemma_depth_grows(TomlNode::Table(kernel), 1, 2);
            lemma_depth_grows(TomlNode::Table(tools), 1, 2);
            lemma_depth_grows(TomlNode::Table(util_libs), 1, 2);
            assert(entries_within(s4@, 2));
        }
        push_entry(&mut s4, owned("kernel"), TomlNode::Table(kernel));
        assert(entries_within(s4@, 2));
        push_entry(&mut s4, owned("tools"), TomlNode::Table(tools));
        assert(entries_within(s4@, 2));
        push_entry(&mut s4, owned("util_libs"), TomlNode::Table(util_libs));
        assert(entries_within(s4@, 2));
        let config = encode_tree(&self.sel4.config);
        if config.len() > 0 {
            proof {
                lemma_table_within(config, 1);
            }
            push_entry(&mut s4, owned("config"), TomlNode::Table(config));
            assert(entries_within(s4@, 2));
        } else {
            assert(config@ =~= Seq::<(String, TomlNode)>::empty());
        }
        if let Some(d) = &self.sel4.build_dir {
            push_entry(&mut s4, owned("build_dir"), TomlNode::Text(d.clone()));
            assert(entries_within(s4@, 2));
        }
        s4
    }

    /// The document as a tree of TOML values, laid out as `document_table_is`
    /// says, which reads back as the same document.
    pub fn to_toml(&self) -> (r: TomlNode)
        requires
            self.wf(),
        ensures
            document_spec(r) == Ok::<FullView, ImportFault>(self@),
            r matches TomlNode::Table(top) && document_table_is(top@, *self),
            depth_within(r, 4),
    {
        proof {
            lemma_distinct_words();
        }
        let s4 = self.sel4_entries();
        let mut top: Entries = Vec::new();
        proof {
            lemma_table_within(s4, 2);
            assert(entries_within(top@, 3));
        }
        push_entry(&mut top, owned("sel4"), TomlNode::Table(s4));
        assert(entries_within(top@, 3));
        let build = encode_build(&self.build);
        if build.len() > 0 {
            proof {
                lemma_table_within(build, 2);
            }
            push_entry(&mut top, owned("build"), TomlNode::Table(build));
            assert(entries_within(top@, 3));
        } else {
            assert(build@ =~= Seq::<(String, TomlNode)>::empty());
        }
        let metadata = encode_tree(&self.metadata);
        if metadata.len() > 0 {
            proof {
                lemma_table_within(metadata, 1);
                lemma_depth_grows(TomlNode::Table(metadata), 2, 3);
            }
            push_entry(&mut top, owned("metadata"), TomlNode::Table(metadata));
            assert(entries_within(top@, 3));
        } else {
            assert(metadata@ =~= Seq::<(String, TomlNode)>::empty());
        }
        proof {
            lemma_table_within(top, 3);
        }
        TomlNode::Table(top)
    }

    /// The document as TOML text: what the `toml` crate writes for the tree
    /// that `to_toml` lays out, which reads back as the same document.
    pub fn to_toml_string(&self) -> (r: Result<String, String>)
        requires
            self.wf(),
        ensures
            r is Ok,
            exists|n: TomlNode| {
                &&& document_spec(n) == Ok::<FullView, ImportFault>(self@)
                &&& n matches TomlNode::Table(top) && document_table_is(top@, *self)
                &&& match r {
                    Ok(text) => toml_writing(n) == Some(text@),
                    Err(_) => false,
                }
            },
    {
        let n = self.to_toml();
        proof {
            lemma_depth_grows(n, 4, MAX_TREE_DEPTH as nat);
        }
        write_toml(&n)
    }
}

impl SingleValue {
    /// The leaf this value is written as.
    pub fn to_toml(&self) -> (r: TomlNode)
        ensures
            r == leaf_spec(*self),
            crate::parse::single_of(r) == Some(*self),
    {
        leaf(self)
    }
}

} // verus!
