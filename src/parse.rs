//! Reading a configuration document: from a tree of TOML values to the
//! configuration model, with an error that names what is wrong.
use vstd::prelude::*;
use crate::model::{
    Full, ImportError, ImportFault, PlatformBuild, PlatformBuildProfile, PropertiesTree, RepoSource,
    GitTarget, SeL4, SeL4Sources, SingleValue, TreeView, ValueMap, outcome_is,
};
use crate::strmap::StrMap;
use crate::text::{owned, str_eq};
use crate::toml_text::TomlNode;

verus! {

/// Entries of a TOML table.
pub type Entries = Vec<(String, TomlNode)>;

/// The value under `k` in the entries from position `i` on, first match.
pub open spec fn lookup_from(es: Seq<(String, TomlNode)>, k: Seq<char>, i: int) -> Option<TomlNode>
    decreases es.len() - i,
{
    if i < 0 || i >= es.len() {
        None
    } else if es[i].0@ == k {
        Some(es[i].1)
    } else {
        lookup_from(es, k, i + 1)
    }
}

/// The value under `k` in a table.
pub open spec fn lookup(es: Seq<(String, TomlNode)>, k: Seq<char>) -> Option<TomlNode> {
    lookup_from(es, k, 0)
}

/// The name of a TOML value's type.
pub open spec fn kind_word(n: TomlNode) -> &'static str {
    match n {
        TomlNode::Text(_) => "string",
        TomlNode::Integer(_) => "integer",
        TomlNode::Boolean(_) => "boolean",
        TomlNode::Table(_) => "table",
        TomlNode::Other(s) => s,
    }
}

/// The single value that a leaf stands for, if it is one.
pub open spec fn single_of(n: TomlNode) -> Option<SingleValue> {
    match n {
        TomlNode::Text(s) => Some(SingleValue::String(s)),
        TomlNode::Integer(i) => Some(SingleValue::Integer(i)),
        TomlNode::Boolean(b) => Some(SingleValue::Boolean(b)),
        _ => None,
    }
}

/// A table whose every entry is a single value, as a map; the first entry
/// that is not one is a type mismatch under its name.
pub open spec fn singles_spec(es: Seq<(String, TomlNode)>) -> Result<Map<Seq<char>, SingleValue>, ImportFault>
    decreases es.len(),
{
    if es.len() == 0 {
        Ok(Map::empty())
    } else {
        match singles_spec(es.drop_last()) {
            Err(e) => Err(e),
            Ok(m) => match single_of(es.last().1) {
                Some(v) => Ok(m.insert(es.last().0@, v)),
                None => Err(ImportFault::NonSingleValue(kind_word(es.last().1)@)),
            },
        }
    }
}

/// One entry of a properties table sorted into its bucket: `debug` and
/// `release` must be tables and become the profile overlays, another table
/// becomes a contextual overlay, anything else must be a single value.
pub open spec fn tree_step(t: TreeView, k: Seq<char>, v: TomlNode) -> Result<TreeView, ImportFault> {
    if k == "debug"@ || k == "release"@ {
        match v {
            TomlNode::Table(es) => match singles_spec(es@) {
                Ok(m) => Ok(
                    if k == "debug"@ {
                        TreeView { debug: m, ..t }
                    } else {
                        TreeView { release: m, ..t }
                    },
                ),
                Err(e) => Err(e),
            },
            _ => Err(ImportFault::TypeMismatch(k, "table"@, kind_word(v)@)),
        }
    } else {
        match v {
            TomlNode::Table(es) => match singles_spec(es@) {
                Ok(m) => Ok(TreeView { contextual: t.contextual.insert(k, m), ..t }),
                Err(e) => Err(e),
            },
            _ => match single_of(v) {
                Some(sv) => Ok(TreeView { shared: t.shared.insert(k, sv), ..t }),
                None => Err(ImportFault::NonSingleValue(kind_word(v)@)),
            },
        }
    }
}

/// A properties table sorted into a properties tree, entry by entry.
pub open spec fn tree_spec(es: Seq<(String, TomlNode)>) -> Result<TreeView, ImportFault>
    decreases es.len(),
{
    if es.len() == 0 {
        Ok(TreeView::empty())
    } else {
        match tree_spec(es.drop_last()) {
            Err(e) => Err(e),
            Ok(t) => tree_step(t, es.last().0@, es.last().1),
        }
    }
}

/// An optional string property.
pub open spec fn opt_string_spec(es: Seq<(String, TomlNode)>, k: Seq<char>) -> Result<Option<String>, ImportFault> {
    match lookup(es, k) {
        None => Ok(None),
        Some(TomlNode::Text(s)) => Ok(Some(s)),
        Some(n) => Err(ImportFault::TypeMismatch(k, "string"@, kind_word(n)@)),
    }
}

/// A required string property.
pub open spec fn req_string_spec(es: Seq<(String, TomlNode)>, k: Seq<char>) -> Result<String, ImportFault> {
    match lookup(es, k) {
        None => Err(ImportFault::MissingProperty(k, "string"@)),
        Some(TomlNode::Text(s)) => Ok(s),
        Some(n) => Err(ImportFault::TypeMismatch(k, "string"@, kind_word(n)@)),
    }
}

/// A required table property.
pub open spec fn req_table_spec(es: Seq<(String, TomlNode)>, k: Seq<char>) -> Result<Seq<(String, TomlNode)>, ImportFault> {
    match lookup(es, k) {
        None => Err(ImportFault::MissingProperty(k, "table"@)),
        Some(TomlNode::Table(t)) => Ok(t@),
        Some(n) => Err(ImportFault::TypeMismatch(k, "table"@, kind_word(n)@)),
    }
}

/// An optional table property; an absent one reads as an empty table.
pub open spec fn opt_table_spec(es: Seq<(String, TomlNode)>, k: Seq<char>) -> Result<Seq<(String, TomlNode)>, ImportFault> {
    match lookup(es, k) {
        None => Ok(Seq::empty()),
        Some(TomlNode::Table(t)) => Ok(t@),
        Some(n) => Err(ImportFault::TypeMismatch(k, "table"@, kind_word(n)@)),
    }
}

/// The names of the entries other than `k`, in order.
pub open spec fn other_names(es: Seq<(String, TomlNode)>, k: Seq<char>) -> Seq<Seq<char>>
    decreases es.len(),
{
    if es.len() == 0 {
        Seq::empty()
    } else if es.last().0@ == k {
        other_names(es.drop_last(), k)
    } else {
        other_names(es.drop_last(), k).push(es.last().0@)
    }
}

/// A source descriptor: a `path` alone, or a `git` url with exactly one of
/// `branch`, `tag` and `rev`.
pub open spec fn repo_source_spec(es: Seq<(String, TomlNode)>) -> Result<RepoSource, ImportFault> {
    match opt_string_spec(es, "path"@) {
        Err(e) => Err(e),
        Ok(Some(p)) => if es.len() > 1 {
            Err(ImportFault::UnsupportedProperties(other_names(es, "path"@)))
        } else {
            Ok(RepoSource::LocalPath(p))
        },
        Ok(None) => match req_string_spec(es, "git"@) {
            Err(e) => Err(e),
            Ok(url) => match opt_string_spec(es, "branch"@) {
                Err(e) => Err(e),
                Ok(b) => match opt_string_spec(es, "tag"@) {
                    Err(e) => Err(e),
                    Ok(t) => match opt_string_spec(es, "rev"@) {
                        Err(e) => Err(e),
                        Ok(r) => match (b, t, r) {
                            (Some(b), None, None) => Ok(RepoSource::RemoteGit { url, target: GitTarget::Branch(b) }),
                            (None, Some(t), None) => Ok(RepoSource::RemoteGit { url, target: GitTarget::Tag(t) }),
                            (None, None, Some(r)) => Ok(RepoSource::RemoteGit { url, target: GitTarget::Rev(r) }),
                            _ => Err(ImportFault::MissingProperty("branch or tag or rev"@, "string"@)),
                        },
                    },
                },
            },
        },
    }
}

/// The build profile under `k`, if the platform has one.
pub open spec fn profile_spec(es: Seq<(String, TomlNode)>, k: Seq<char>) -> Result<Option<PlatformBuildProfile>, ImportFault> {
    match lookup(es, k) {
        None => Ok(None),
        Some(TomlNode::Table(t)) => match opt_string_spec(t@, "make_root_task"@) {
            Err(e) => Err(e),
            Ok(m) => match req_string_spec(t@, "root_task_image"@) {
                Err(e) => Err(e),
                Ok(i) => Ok(Some(PlatformBuildProfile { make_root_task: m, root_task_image: i })),
            },
        },
        Some(n) => Err(ImportFault::TypeMismatch(k, "table"@, kind_word(n)@)),
    }
}

/// The build settings of one platform.
pub open spec fn platform_spec(es: Seq<(String, TomlNode)>) -> Result<PlatformBuild, ImportFault> {
    match opt_string_spec(es, "cross_compiler_prefix"@) {
        Err(e) => Err(e),
        Ok(c) => match opt_string_spec(es, "toolchain_dir"@) {
            Err(e) => Err(e),
            Ok(d) => match profile_spec(es, "debug"@) {
                Err(e) => Err(e),
                Ok(dp) => match profile_spec(es, "release"@) {
                    Err(e) => Err(e),
                    Ok(rp) => Ok(PlatformBuild {
                        cross_compiler_prefix: c,
                        toolchain_dir: d,
                        debug_build_profile: dp,
                        release_build_profile: rp,
                    }),
                },
            },
        },
    }
}

/// The `build` table: each entry a platform's settings.
pub open spec fn builds_spec(es: Seq<(String, TomlNode)>) -> Result<Map<Seq<char>, PlatformBuild>, ImportFault>
    decreases es.len(),
{
    if es.len() == 0 {
        Ok(Map::empty())
    } else {
        match builds_spec(es.drop_last()) {
            Err(e) => Err(e),
            Ok(m) => match es.last().1 {
                TomlNode::Table(t) => match platform_spec(t@) {
                    Err(e) => Err(e),
                    Ok(pb) => Ok(m.insert(es.last().0@, pb)),
                },
                n => Err(ImportFault::TypeMismatch(es.last().0@, "table"@, kind_word(n)@)),
            },
        }
    }
}

/// Once a prefix of a table fails, the whole table fails the same way.
proof fn lemma_singles_fail(s: Seq<(String, TomlNode)>, j: int)
    requires
        0 <= j <= s.len(),
        singles_spec(s.take(j)) is Err,
    ensures
        singles_spec(s) == singles_spec(s.take(j)),
    decreases s.len() - j,
{
    if j < s.len() {
        assert(s.take(j + 1).drop_last() =~= s.take(j));
        lemma_singles_fail(s, j + 1);
    } else {
        assert(s.take(j) =~= s);
    }
}

/// Once a prefix of a properties table fails, the whole table fails the same way.
proof fn lemma_tree_fail(s: Seq<(String, TomlNode)>, j: int)
    requires
        0 <= j <= s.len(),
        tree_spec(s.take(j)) is Err,
    ensures
        tree_spec(s) == tree_spec(s.take(j)),
    decreases s.len() - j,
{
    if j < s.len() {
        assert(s.take(j + 1).drop_last() =~= s.take(j));
        lemma_tree_fail(s, j + 1);
    } else {
        assert(s.take(j) =~= s);
    }
}

/// Once a prefix of the build table fails, the whole table fails the same way.
proof fn lemma_builds_fail(s: Seq<(String, TomlNode)>, j: int)
    requires
        0 <= j <= s.len(),
        builds_spec(s.take(j)) is Err,
    ensures
        builds_spec(s) == builds_spec(s.take(j)),
    decreases s.len() - j,
{
    if j < s.len() {
        assert(s.take(j + 1).drop_last() =~= s.take(j));
        lemma_builds_fail(s, j + 1);
    } else {
        assert(s.take(j) =~= s);
    }
}

fn lookup_node<'a>(es: &'a Entries, key: &str) -> (r: Option<&'a TomlNode>)
    ensures
        match r {
            Some(n) => lookup(es@, key@) == Some(*n),
            None => lookup(es@, key@) is None,
        },
{
    let n = es.len();
    let mut i: usize = 0;
    while i < n
        invariant
            n == es@.len(),
            i <= n,
            lookup(es@, key@) == lookup_from(es@, key@, i as int),
        decreases n - i,
    {
        if str_eq(es[i].0.as_str(), key) {
            return Some(&es[i].1);
        }
        i = i + 1;
    }
    None
}

/// The name of a TOML value's type.
pub fn node_type(n: &TomlNode) -> (r: &'static str)
    ensures
        r == kind_word(*n),
{
    match n {
        TomlNode::Text(_) => "string",
        TomlNode::Integer(_) => "integer",
        TomlNode::Boolean(_) => "boolean",
        TomlNode::Table(_) => "table",
        TomlNode::Other(s) => s,
    }
}

fn mismatch(name: &str, expected: &'static str, found: &TomlNode) -> (r: ImportError)
    ensures
        r@ == ImportFault::TypeMismatch(name@, expected@, kind_word(*found)@),
{
    ImportError::TypeMismatch { name: owned(name), expected, found: node_type(found) }
}

fn missing(name: &str, expected_type: &'static str) -> (r: ImportError)
    ensures
        r@ == ImportFault::MissingProperty(name@, expected_type@),
{
    ImportError::MissingProperty { name: owned(name), expected_type }
}

fn optional_string(es: &Entries, key: &str) -> (r: Result<Option<String>, ImportError>)
    ensures
        outcome_is(r, opt_string_spec(es@, key@)),
{
    match lookup_node(es, key) {
        None => Ok(None),
        Some(TomlNode::Text(s)) => Ok(Some(s.clone())),
        Some(other) => Err(mismatch(key, "string", other)),
    }
}

fn required_string(es: &Entries, key: &str) -> (r: Result<String, ImportError>)
    ensures
        outcome_is(r, req_string_spec(es@, key@)),
{
    match lookup_node(es, key) {
        None => Err(missing(key, "string")),
        Some(TomlNode::Text(s)) => Ok(s.clone()),
        Some(other) => Err(mismatch(key, "string", other)),
    }
}

fn required_table<'a>(es: &'a Entries, key: &str) -> (r: Result<&'a Entries, ImportError>)
    ensures
        match r {
            Ok(t) => req_table_spec(es@, key@) == Ok::<Seq<(String, TomlNode)>, ImportFault>(t@),
            Err(e) => req_table_spec(es@, key@) == Err::<Seq<(String, TomlNode)>, ImportFault>(e@),
        },
{
    match lookup_node(es, key) {
        None => Err(missing(key, "table")),
        Some(TomlNode::Table(t)) => Ok(t),
        Some(other) => Err(mismatch(key, "table", other)),
    }
}

/// A table whose every entry must be a single value, as a map.
pub fn singles(es: &Entries) -> (r: Result<ValueMap, ImportError>)
    ensures
        match r {
            Ok(m) => singles_spec(es@) == Ok::<Map<Seq<char>, SingleValue>, ImportFault>(m@),
            Err(e) => singles_spec(es@) == Err::<Map<Seq<char>, SingleValue>, ImportFault>(e@),
        },
{
    let mut m = StrMap::new();
    let n = es.len();
    let mut i: usize = 0;
    assert(es@.take(0) =~= Seq::<(String, TomlNode)>::empty());
    while i < n
        invariant
            n == es@.len(),
            i <= n,
            singles_spec(es@.take(i as int)) == Ok::<Map<Seq<char>, SingleValue>, ImportFault>(m@),
        decreases n - i,
    {
        let e = &es[i];
        assert(es@.take(i + 1).drop_last() =~= es@.take(i as int));
        assert(es@.take(i + 1).last() == es@[i as int]);
        let v = match &e.1 {
            TomlNode::Text(s) => SingleValue::String(s.clone()),
            TomlNode::Integer(x) => SingleValue::Integer(*x),
            TomlNode::Boolean(b) => SingleValue::Boolean(*b),
            other => {
                proof {
                    lemma_singles_fail(es@, i + 1);
                }
                return Err(ImportError::NonSingleValue { found: node_type(other) });
            },
        };
        m.insert(e.0.clone(), v);
        i = i + 1;
    }
    assert(es@.take(n as int) =~= es@);
    Ok(m)
}


/// The `sel4` table's parts: the three source tables, the configuration
/// table, and the optional pre-built directory.
pub open spec fn sel4_part_spec(es: Seq<(String, TomlNode)>) -> Result<(Seq<(String, TomlNode)>, Seq<(String, TomlNode)>, Seq<(String, TomlNode)>, Seq<(String, TomlNode)>, Option<String>), ImportFault> {
    match lookup(es, "sel4"@) {
        Some(TomlNode::Table(s4)) => sel4_table_spec(s4@),
        _ => Err(ImportFault::MissingProperty("sel4"@, "table"@)),
    }
}

/// The parts of the `sel4` table itself.
pub open spec fn sel4_table_spec(s4: Seq<(String, TomlNode)>) -> Result<(Seq<(String, TomlNode)>, Seq<(String, TomlNode)>, Seq<(String, TomlNode)>, Seq<(String, TomlNode)>, Option<String>), ImportFault> {
    match req_table_spec(s4, "kernel"@) {
        Err(e) => Err(e),
        Ok(k) => match req_table_spec(s4, "tools"@) {
            Err(e) => Err(e),
            Ok(t) => match req_table_spec(s4, "util_libs"@) {
                Err(e) => Err(e),
                Ok(u) => match opt_table_spec(s4, "config"@) {
                    Err(e) => Err(e),
                    Ok(c) => match opt_string_spec(s4, "build_dir"@) {
                        Err(e) => Err(e),
                        Ok(d) => Ok((k, t, u, c, d)),
                    },
                },
            },
        },
    }
}

/// The `build` table, empty when absent.
pub open spec fn build_part_spec(es: Seq<(String, TomlNode)>) -> Result<Map<Seq<char>, PlatformBuild>, ImportFault> {
    match lookup(es, "build"@) {
        None => Ok(Map::empty()),
        Some(TomlNode::Table(b)) => builds_spec(b@),
        Some(n) => Err(ImportFault::TypeMismatch("build"@, "table"@, kind_word(n)@)),
    }
}

/// A whole document read from its tree: first the shape of the `sel4`,
/// `build` and `metadata` tables, then the sources, the configuration tree
/// and the metadata tree.
pub open spec fn document_spec(top: TomlNode) -> Result<crate::model::FullView, ImportFault> {
    match top {
        TomlNode::Table(es) => match sel4_part_spec(es@) {
            Err(e) => Err(e),
            Ok(raw) => match build_part_spec(es@) {
                Err(e) => Err(e),
                Ok(b) => match opt_table_spec(es@, "metadata"@) {
                    Err(e) => Err(e),
                    Ok(md) => match repo_source_spec(raw.0) {
                        Err(e) => Err(e),
                        Ok(kernel) => match repo_source_spec(raw.1) {
                            Err(e) => Err(e),
                            Ok(tools) => match repo_source_spec(raw.2) {
                                Err(e) => Err(e),
                                Ok(util_libs) => match tree_spec(raw.3) {
                                    Err(e) => Err(e),
                                    Ok(config) => match tree_spec(md) {
                                        Err(e) => Err(e),
                                        Ok(metadata) => Ok(crate::model::FullView {
                                            sources: SeL4Sources { kernel, tools, util_libs },
                                            build_dir: raw.4,
                                            config,
                                            build: b,
                                            metadata,
                                        }),
                                    },
                                },
                            },
                        },
                    },
                },
            },
        },
        n => Err(ImportFault::TypeMismatch("top-level"@, "table"@, kind_word(n)@)),
    }
}

/// A tree read from a table never holds `debug` or `release` as a shared
/// name or a contextual overlay.
pub proof fn lemma_tree_reserved(es: Seq<(String, TomlNode)>)
    ensures
        tree_spec(es) matches Ok(t) ==> {
            &&& !t.shared.contains_key("debug"@)
            &&& !t.shared.contains_key("release"@)
            &&& !t.contextual.contains_key("debug"@)
            &&& !t.contextual.contains_key("release"@)
        },
    decreases es.len(),
{
    if es.len() > 0 {
        lemma_tree_reserved(es.drop_last());
    }
}

/// Sorts a properties table into a properties tree.
pub fn structure_property_tree(es: &Entries) -> (r: Result<PropertiesTree, ImportError>)
    ensures
        r matches Ok(t) ==> t.wf(),
        match r {
            Ok(t) => tree_spec(es@) == Ok::<TreeView, ImportFault>(t@),
            Err(e) => tree_spec(es@) == Err::<TreeView, ImportFault>(e@),
        },
{
    let mut t = PropertiesTree::new();
    let n = es.len();
    let mut i: usize = 0;
    assert(es@.take(0) =~= Seq::<(String, TomlNode)>::empty());
    while i < n
        invariant
            n == es@.len(),
            i <= n,
            tree_spec(es@.take(i as int)) == Ok::<TreeView, ImportFault>(t@),
        decreases n - i,
    {
        let e = &es[i];
        let k = e.0.as_str();
        assert(es@.take(i + 1).drop_last() =~= es@.take(i as int));
        assert(es@.take(i + 1).last() == es@[i as int]);
        let is_debug = str_eq(k, "debug");
        if is_debug || str_eq(k, "release") {
            match &e.1 {
                TomlNode::Table(sub) => match singles(sub) {
                    Ok(m) => {
                        if is_debug {
                            t.debug = m;
                        } else {
                            t.release = m;
                        }
                    },
                    Err(err) => {
                        proof {
                            lemma_tree_fail(es@, i + 1);
                        }
                        return Err(err);
                    },
                },
                other => {
                    proof {
                        lemma_tree_fail(es@, i + 1);
                    }
                    return Err(mismatch(k, "table", other));
                },
            }
        } else {
            match &e.1 {
                TomlNode::Table(sub) => match singles(sub) {
                    Ok(m) => {
                        let ghost old_ctx = t.contextual@;
                        let ghost mv = m@;
                        t.contextual.insert(e.0.clone(), m);
                        assert(t.contextual@.map_values(|m: ValueMap| m@) =~= old_ctx.map_values(
                            |m: ValueMap| m@,
                        ).insert(k@, mv));
                    },
                    Err(err) => {
                        proof {
                            lemma_tree_fail(es@, i + 1);
                        }
                        return Err(err);
                    },
                },
                TomlNode::Text(s) => t.shared.insert(e.0.clone(), SingleValue::String(s.clone())),
                TomlNode::Integer(x) => t.shared.insert(e.0.clone(), SingleValue::Integer(*x)),
                TomlNode::Boolean(b) => t.shared.insert(e.0.clone(), SingleValue::Boolean(*b)),
                other => {
                    proof {
                        lemma_tree_fail(es@, i + 1);
                    }
                    return Err(ImportError::NonSingleValue { found: node_type(other) });
                },
            }
        }
        i = i + 1;
    }
    assert(es@.take(n as int) =~= es@);
    proof {
        lemma_tree_reserved(es@);
        assert(t@.contextual.dom() == t.contextual@.dom());
    }
    Ok(t)
}

/// Reads a source descriptor.
pub fn parse_repo_source(es: &Entries) -> (r: Result<RepoSource, ImportError>)
    ensures
        outcome_is(r, repo_source_spec(es@)),
{
    let path = match optional_string(es, "path") {
        Ok(p) => p,
        Err(e) => return Err(e),
    };
    if let Some(p) = path {
        if es.len() > 1 {
            let mut extra_keys: Vec<String> = Vec::new();
            let n = es.len();
            let mut i: usize = 0;
            assert(es@.take(0) =~= Seq::<(String, TomlNode)>::empty());
            while i < n
                invariant
                    n == es@.len(),
                    i <= n,
                    extra_keys@.map_values(|k: String| k@) == other_names(es@.take(i as int), "path"@),
                decreases n - i,
            {
                assert(es@.take(i + 1).drop_last() =~= es@.take(i as int));
                if !str_eq(es[i].0.as_str(), "path") {
                    let ghost before = extra_keys@;
                    extra_keys.push(es[i].0.clone());
                    assert(extra_keys@.map_values(|k: String| k@) =~= before.map_values(
                        |k: String| k@,
                    ).push(es@[i as int].0@));
                }
                i = i + 1;
            }
            assert(es@.take(n as int) =~= es@);
            return Err(ImportError::UnsupportedProperties { extra_keys });
        }
        return Ok(RepoSource::LocalPath(p));
    }
    let url = match required_string(es, "git") {
        Ok(u) => u,
        Err(e) => return Err(e),
    };
    let branch = match optional_string(es, "branch") {
        Ok(b) => b,
        Err(e) => return Err(e),
    };
    let tag = match optional_string(es, "tag") {
        Ok(t) => t,
        Err(e) => return Err(e),
    };
    let rev = match optional_string(es, "rev") {
        Ok(r) => r,
        Err(e) => return Err(e),
    };
    match (branch, tag, rev) {
        (Some(b), None, None) => Ok(RepoSource::RemoteGit { url, target: GitTarget::Branch(b) }),
        (None, Some(t), None) => Ok(RepoSource::RemoteGit { url, target: GitTarget::Tag(t) }),
        (None, None, Some(r)) => Ok(RepoSource::RemoteGit { url, target: GitTarget::Rev(r) }),
        _ => Err(missing("branch or tag or rev", "string")),
    }
}

fn parse_build_profile(es: &Entries, key: &str) -> (r: Result<Option<PlatformBuildProfile>, ImportError>)
    ensures
        outcome_is(r, profile_spec(es@, key@)),
{
    match lookup_node(es, key) {
        None => Ok(None),
        Some(TomlNode::Table(t)) => {
            let make_root_task = match optional_string(t, "make_root_task") {
                Ok(m) => m,
                Err(e) => return Err(e),
            };
            let root_task_image = match required_string(t, "root_task_image") {
                Ok(i) => i,
                Err(e) => return Err(e),
            };
            Ok(Some(PlatformBuildProfile { make_root_task, root_task_image }))
        },
        Some(other) => Err(mismatch(key, "table", other)),
    }
}

/// Reads one platform's build settings.
pub fn parse_platform_build(es: &Entries) -> (r: Result<PlatformBuild, ImportError>)
    ensures
        outcome_is(r, platform_spec(es@)),
{
    let cross_compiler_prefix = match optional_string(es, "cross_compiler_prefix") {
        Ok(c) => c,
        Err(e) => return Err(e),
    };
    let toolchain_dir = match optional_string(es, "toolchain_dir") {
        Ok(d) => d,
        Err(e) => return Err(e),
    };
    let debug_build_profile = match parse_build_profile(es, "debug") {
        Ok(p) => p,
        Err(e) => return Err(e),
    };
    let release_build_profile = match parse_build_profile(es, "release") {
        Ok(p) => p,
        Err(e) => return Err(e),
    };
    Ok(PlatformBuild { cross_compiler_prefix, toolchain_dir, debug_build_profile, release_build_profile })
}

/// Reads the `build` table: a platform's settings under each name.
pub fn parse_build(es: &Entries) -> (r: Result<StrMap<PlatformBuild>, ImportError>)
    ensures
        match r {
            Ok(m) => builds_spec(es@) == Ok::<Map<Seq<char>, PlatformBuild>, ImportFault>(m@),
            Err(e) => builds_spec(es@) == Err::<Map<Seq<char>, PlatformBuild>, ImportFault>(e@),
        },
{
    let mut m = StrMap::new();
    let n = es.len();
    let mut i: usize = 0;
    assert(es@.take(0) =~= Seq::<(String, TomlNode)>::empty());
    while i < n
        invariant
            n == es@.len(),
            i <= n,
            builds_spec(es@.take(i as int)) == Ok::<Map<Seq<char>, PlatformBuild>, ImportFault>(m@),
        decreases n - i,
    {
        let e = &es[i];
        assert(es@.take(i + 1).drop_last() =~= es@.take(i as int));
        assert(es@.take(i + 1).last() == es@[i as int]);
        match &e.1 {
            TomlNode::Table(t) => match parse_platform_build(t) {
                Ok(pb) => m.insert(e.0.clone(), pb),
                Err(err) => {
                    proof {
                        lemma_builds_fail(es@, i + 1);
                    }
                    return Err(err);
                },
            },
            other => {
                proof {
                    lemma_builds_fail(es@, i + 1);
                }
                return Err(mismatch(e.0.as_str(), "table", other));
            },
        }
        i = i + 1;
    }
    assert(es@.take(n as int) =~= es@);
    Ok(m)
}


fn optional_table<'a>(es: &'a Entries, key: &str) -> (r: Result<Option<&'a Entries>, ImportError>)
    ensures
        match r {
            Ok(Some(t)) => opt_table_spec(es@, key@) == Ok::<Seq<(String, TomlNode)>, ImportFault>(t@),
            Ok(None) => opt_table_spec(es@, key@) == Ok::<Seq<(String, TomlNode)>, ImportFault>(Seq::empty()),
            Err(e) => opt_table_spec(es@, key@) == Err::<Seq<(String, TomlNode)>, ImportFault>(e@),
        },
{
    match lookup_node(es, key) {
        None => Ok(None),
        Some(TomlNode::Table(t)) => Ok(Some(t)),
        Some(other) => Err(mismatch(key, "table", other)),
    }
}

fn optional_tree(t: Option<&Entries>) -> (r: Result<PropertiesTree, ImportError>)
    ensures
        r matches Ok(tree) ==> tree.wf(),
        match r {
            Ok(tree) => tree_spec(match t { Some(es) => es@, None => Seq::empty() }) == Ok::<TreeView, ImportFault>(tree@),
            Err(e) => tree_spec(match t { Some(es) => es@, None => Seq::empty() }) == Err::<TreeView, ImportFault>(e@),
        },
{
    match t {
        Some(es) => structure_property_tree(es),
        None => Ok(PropertiesTree::new()),
    }
}

/// Reads a whole document from its tree.
pub fn parse_document(top: &TomlNode) -> (r: Result<Full, ImportError>)
    ensures
        r matches Ok(f) ==> f.wf(),
        match r {
            Ok(f) => document_spec(*top) == Ok::<crate::model::FullView, ImportFault>(f@),
            Err(e) => document_spec(*top) == Err::<crate::model::FullView, ImportFault>(e@),
        },
{
    let es = match top {
        TomlNode::Table(es) => es,
        other => return Err(mismatch("top-level", "table", other)),
    };
    let s4 = match lookup_node(es, "sel4") {
        Some(TomlNode::Table(s4)) => s4,
        _ => return Err(missing("sel4", "table")),
    };
    let kernel = match required_table(s4, "kernel") {
        Ok(t) => t,
        Err(e) => return Err(e),
    };
    let tools = match required_table(s4, "tools") {
        Ok(t) => t,
        Err(e) => return Err(e),
    };
    let util_libs = match required_table(s4, "util_libs") {
        Ok(t) => t,
        Err(e) => return Err(e),
    };
    let config = match optional_table(s4, "config") {
        Ok(t) => t,
        Err(e) => return Err(e),
    };
    let build_dir = match optional_string(s4, "build_dir") {
        Ok(d) => d,
        Err(e) => return Err(e),
    };
    let build = match lookup_node(es, "build") {
        None => StrMap::new(),
        Some(TomlNode::Table(b)) => match parse_build(b) {
            Ok(m) => m,
            Err(e) => return Err(e),
        },
        Some(other) => return Err(mismatch("build", "table", other)),
    };
    let metadata = match optional_table(es, "metadata") {
        Ok(t) => t,
        Err(e) => return Err(e),
    };
    let kernel = match parse_repo_source(kernel) {
        Ok(s) => s,
        Err(e) => return Err(e),
    };
    let tools = match parse_repo_source(tools) {
        Ok(s) => s,
        Err(e) => return Err(e),
    };
    let util_libs = match parse_repo_source(util_libs) {
        Ok(s) => s,
        Err(e) => return Err(e),
    };
    let config = match optional_tree(config) {
        Ok(t) => t,
        Err(e) => return Err(e),
    };
    let metadata = match optional_tree(metadata) {
        Ok(t) => t,
        Err(e) => return Err(e),
    };
    let f = Full {
        sel4: SeL4 { sources: SeL4Sources { kernel, tools, util_libs }, build_dir, config },
        build,
        metadata,
    };
    Ok(f)
}

impl SingleValue {
    /// Reads a leaf as a single value; any other TOML value is refused.
    pub fn from_toml(t: &TomlNode) -> (r: Result<SingleValue, ImportError>)
        ensures
            match r {
                Ok(v) => single_of(*t) == Some(v),
                Err(e) => single_of(*t) is None && e@ == ImportFault::NonSingleValue(kind_word(*t)@),
            },
    {
        match t {
            TomlNode::Text(s) => Ok(SingleValue::String(s.clone())),
            TomlNode::Integer(i) => Ok(SingleValue::Integer(*i)),
            TomlNode::Boolean(b) => Ok(SingleValue::Boolean(*b)),
            other => Err(ImportError::NonSingleValue { found: node_type(other) }),
        }
    }
}

} // verus!
