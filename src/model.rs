//! The configuration model: single values, layered properties trees, source
//! descriptors, per-platform build settings and the whole document.
use vstd::prelude::*;
use crate::strmap::{entries_view, lemma_view_of_prefix, names_unique, StrMap};
use crate::text::{relative_to, relative_to_spec, opt_text};

verus! {

/// A configuration leaf: a string, a 64-bit signed integer or a boolean.
#[derive(Clone, Debug, PartialEq)]
pub enum SingleValue {
    String(String),
    Integer(i64),
    Boolean(bool),
}

impl SingleValue {
    /// A copy of this value.
    pub fn duplicate(&self) -> (r: SingleValue)
        ensures
            r == *self,
    {
        match self {
            SingleValue::String(s) => SingleValue::String(s.clone()),
            SingleValue::Integer(i) => SingleValue::Integer(*i),
            SingleValue::Boolean(b) => SingleValue::Boolean(*b),
        }
    }
}

/// A map from names to single values.
pub type ValueMap = StrMap<SingleValue>;

/// Puts every entry of `other` into `target`, in place of what `target` held
/// under the same name.
pub fn overlay(target: &mut ValueMap, other: &ValueMap)
    ensures
        final(target)@ == old(target)@.union_prefer_right(other@),
{
    let es = other.entries();
    let n = es.len();
    let ghost start = target@;
    let mut i: usize = 0;
    assert(es@.take(0) =~= Seq::<(String, SingleValue)>::empty());
    assert(entries_view(es@.take(0)) =~= Map::<Seq<char>, SingleValue>::empty());
    assert(start.union_prefer_right(Map::empty()) =~= start);
    while i < n
        invariant
            n == es@.len(),
            i <= n,
            names_unique(es@),
            es@ == other.spec_entries(),
            target@ == start.union_prefer_right(entries_view(es@.take(i as int))),
        decreases n - i,
    {
        let k = es[i].0.clone();
        let v = es[i].1.duplicate();
        target.insert(k, v);
        proof {
            lemma_view_of_prefix(es@, i as int);
            assert(target@ =~= start.union_prefer_right(entries_view(es@.take(i + 1))));
        }
        i = i + 1;
    }
    assert(es@.take(n as int) =~= es@);
}

/// A copy of a map of single values.
pub fn copy_values(m: &ValueMap) -> (r: ValueMap)
    ensures
        r@ == m@,
{
    let mut r = StrMap::new();
    overlay(&mut r, m);
    assert(r@ =~= m@);
    r
}

/// Where a git source is pinned: a branch, a tag or a revision.
#[derive(Debug, Clone, PartialEq, Eq, Hash)]
pub enum GitTarget {
    Branch(String),
    Rev(String),
    Tag(String),
}

impl GitTarget {
    /// The word that names the kind of target.
    pub open spec fn spec_kind(self) -> Seq<char> {
        match self {
            GitTarget::Branch(_) => "branch"@,
            GitTarget::Rev(_) => "rev"@,
            GitTarget::Tag(_) => "tag"@,
        }
    }

    /// The branch name, tag name or revision.
    pub open spec fn spec_value(self) -> Seq<char> {
        match self {
            GitTarget::Branch(s) => s@,
            GitTarget::Rev(s) => s@,
            GitTarget::Tag(s) => s@,
        }
    }

    /// The word that names the kind of target.
    pub fn kind(&self) -> (r: &'static str)
        ensures
            r@ == self.spec_kind(),
    {
        match self {
            GitTarget::Branch(_) => "branch",
            GitTarget::Rev(_) => "rev",
            GitTarget::Tag(_) => "tag",
        }
    }

    /// The branch name, tag name or revision.
    pub fn value(&self) -> (r: &str)
        ensures
            r@ == self.spec_value(),
    {
        match self {
            GitTarget::Branch(s) => s.as_str(),
            GitTarget::Rev(s) => s.as_str(),
            GitTarget::Tag(s) => s.as_str(),
        }
    }

    /// A copy of this target.
    pub fn duplicate(&self) -> (r: GitTarget)
        ensures
            r == *self,
    {
        match self {
            GitTarget::Branch(s) => GitTarget::Branch(s.clone()),
            GitTarget::Rev(s) => GitTarget::Rev(s.clone()),
            GitTarget::Tag(s) => GitTarget::Tag(s.clone()),
        }
    }
}

/// Where one of the seL4 source trees comes from.
#[derive(Debug, Clone, PartialEq, Eq, Hash)]
pub enum RepoSource {
    LocalPath(String),
    RemoteGit { url: String, target: GitTarget },
}

impl RepoSource {
    /// The source with a relative local path evaluated against `base`.
    pub open spec fn spec_relative_to(self, base: Option<Seq<char>>) -> RepoSourceView {
        match self {
            RepoSource::LocalPath(p) => RepoSourceView::LocalPath(relative_to_spec(p@, base)),
            RepoSource::RemoteGit { url, target } => RepoSourceView::RemoteGit {
                url: url@,
                target,
            },
        }
    }

    /// The source as plain values.
    pub open spec fn view(self) -> RepoSourceView {
        match self {
            RepoSource::LocalPath(p) => RepoSourceView::LocalPath(p@),
            RepoSource::RemoteGit { url, target } => RepoSourceView::RemoteGit {
                url: url@,
                target,
            },
        }
    }

    /// The source with a relative local path evaluated against `base`, when
    /// one is given.
    pub fn relative_to(&self, base: &Option<String>) -> (r: RepoSource)
        ensures
            r@ == self.spec_relative_to(opt_text(*base)),
    {
        match self {
            RepoSource::LocalPath(p) => RepoSource::LocalPath(relative_to(p, base)),
            RepoSource::RemoteGit { url, target } => RepoSource::RemoteGit {
                url: url.clone(),
                target: target.duplicate(),
            },
        }
    }
}

/// A source descriptor as plain values.
pub enum RepoSourceView {
    LocalPath(Seq<char>),
    RemoteGit { url: Seq<char>, target: GitTarget },
}

/// The three seL4 source trees.
#[derive(Debug, Clone, PartialEq, Eq, Hash)]
pub struct SeL4Sources {
    pub kernel: RepoSource,
    pub tools: RepoSource,
    pub util_libs: RepoSource,
}

/// The three seL4 source trees as plain values.
pub struct SeL4SourcesView {
    pub kernel: RepoSourceView,
    pub tools: RepoSourceView,
    pub util_libs: RepoSourceView,
}

impl SeL4Sources {
    /// The sources as plain values.
    pub open spec fn view(self) -> SeL4SourcesView {
        SeL4SourcesView { kernel: self.kernel@, tools: self.tools@, util_libs: self.util_libs@ }
    }

    /// Each source with a relative local path evaluated against `base`.
    pub open spec fn spec_relative_to(self, base: Option<Seq<char>>) -> SeL4SourcesView {
        SeL4SourcesView {
            kernel: self.kernel.spec_relative_to(base),
            tools: self.tools.spec_relative_to(base),
            util_libs: self.util_libs.spec_relative_to(base),
        }
    }

    /// Each source with a relative local path evaluated against `base`, when
    /// one is given.
    pub fn relative_to(&self, base: &Option<String>) -> (r: SeL4Sources)
        ensures
            r@ == self.spec_relative_to(opt_text(*base)),
    {
        SeL4Sources {
            kernel: self.kernel.relative_to(base),
            tools: self.tools.relative_to(base),
            util_libs: self.util_libs.relative_to(base),
        }
    }
}

/// One build profile of a platform: how to make the root task, and where its
/// image is.
#[derive(Debug, Clone, PartialEq, Eq, Default, Hash)]
pub struct PlatformBuildProfile {
    pub make_root_task: Option<String>,
    pub root_task_image: String,
}

/// The build settings of one platform.
#[derive(Debug, Clone, PartialEq, Eq, Default, Hash)]
pub struct PlatformBuild {
    pub cross_compiler_prefix: Option<String>,
    pub toolchain_dir: Option<String>,
    pub debug_build_profile: Option<PlatformBuildProfile>,
    pub release_build_profile: Option<PlatformBuildProfile>,
}

/// A layered bag of named values: shared ones, debug and release overlays,
/// and overlays that apply under a named architecture or platform.
#[derive(Debug, PartialEq)]
pub struct PropertiesTree {
    pub shared: ValueMap,
    pub debug: ValueMap,
    pub release: ValueMap,
    pub contextual: StrMap<ValueMap>,
}

/// A properties tree as maps.
pub struct TreeView {
    pub shared: Map<Seq<char>, SingleValue>,
    pub debug: Map<Seq<char>, SingleValue>,
    pub release: Map<Seq<char>, SingleValue>,
    pub contextual: Map<Seq<char>, Map<Seq<char>, SingleValue>>,
}

impl TreeView {
    /// A tree with nothing in it.
    pub open spec fn empty() -> TreeView {
        TreeView {
            shared: Map::empty(),
            debug: Map::empty(),
            release: Map::empty(),
            contextual: Map::empty(),
        }
    }
}

impl PropertiesTree {
    /// The tree as maps.
    pub open spec fn view(&self) -> TreeView {
        TreeView {
            shared: self.shared@,
            debug: self.debug@,
            release: self.release@,
            contextual: self.contextual@.map_values(|m: ValueMap| m@),
        }
    }

    /// The names `debug` and `release` are reserved for the profile overlays:
    /// they name neither a shared value nor a contextual overlay.
    pub open spec fn wf(&self) -> bool {
        &&& !self.shared@.contains_key("debug"@)
        &&& !self.shared@.contains_key("release"@)
        &&& !self.contextual@.contains_key("debug"@)
        &&& !self.contextual@.contains_key("release"@)
    }

    /// A tree with nothing in it.
    pub fn new() -> (r: PropertiesTree)
        ensures
            r@ == TreeView::empty(),
            r.wf(),
    {
        let r = PropertiesTree {
            shared: StrMap::new(),
            debug: StrMap::new(),
            release: StrMap::new(),
            contextual: StrMap::new(),
        };
        assert(r.contextual@.map_values(|m: ValueMap| m@) =~= Map::empty());
        r
    }
}

/// The `sel4` part of a document: sources, an optional pre-built directory,
/// and the kernel configuration.
#[derive(Debug, PartialEq)]
pub struct SeL4 {
    pub sources: SeL4Sources,
    pub build_dir: Option<String>,
    pub config: PropertiesTree,
}

impl SeL4 {
    pub fn new(sources: SeL4Sources, build_dir: Option<String>, config: PropertiesTree) -> (r: SeL4)
        ensures
            r.sources == sources,
            r.build_dir == build_dir,
            r.config == config,
    {
        SeL4 { sources, build_dir, config }
    }
}

/// A whole configuration document.
#[derive(Debug, PartialEq)]
pub struct Full {
    pub sel4: SeL4,
    pub build: StrMap<PlatformBuild>,
    pub metadata: PropertiesTree,
}

impl Full {
    /// Both properties trees keep their reserved names free.
    pub open spec fn wf(&self) -> bool {
        self.sel4.config.wf() && self.metadata.wf()
    }
}

/// What can go wrong when importing a configuration document.
#[derive(Debug)]
pub enum ImportError {
    TomlDeserializeError(String),
    TypeMismatch { name: String, expected: &'static str, found: &'static str },
    MissingProperty { name: String, expected_type: &'static str },
    NonSingleValue { found: &'static str },
    UnsupportedProperties { extra_keys: Vec<String> },
    InvalidSeL4Source,
    NoBuildSupplied { platform: String, profile: &'static str },
    /// The text nests arrays, tables or dotted keys deeper than `limit`,
    /// more than can be read without exhausting the stack.
    NestingTooDeep { limit: u64 },
}

} // verus!

verus! {

/// An import error as plain values: its kind and the names it carries.
pub enum ImportFault {
    TomlDeserialize,
    /// The property's name, the type expected and the type found.
    TypeMismatch(Seq<char>, Seq<char>, Seq<char>),
    /// The property's name and the type expected.
    MissingProperty(Seq<char>, Seq<char>),
    /// The type found where a single value was expected.
    NonSingleValue(Seq<char>),
    UnsupportedProperties(Seq<Seq<char>>),
    InvalidSeL4Source,
    NoBuildSupplied(Seq<char>),
    /// The nesting limit that the text goes past.
    NestingTooDeep(u64),
}

impl ImportError {
    /// The error as plain values.
    pub open spec fn view(&self) -> ImportFault {
        match *self {
            ImportError::TomlDeserializeError(_) => ImportFault::TomlDeserialize,
            ImportError::TypeMismatch { name, expected, found } => ImportFault::TypeMismatch(
                name@,
                expected@,
                found@,
            ),
            ImportError::MissingProperty { name, expected_type } => ImportFault::MissingProperty(
                name@,
                expected_type@,
            ),
            ImportError::NonSingleValue { found } => ImportFault::NonSingleValue(found@),
            ImportError::UnsupportedProperties { extra_keys } => ImportFault::UnsupportedProperties(
                extra_keys@.map_values(|k: String| k@),
            ),
            ImportError::InvalidSeL4Source => ImportFault::InvalidSeL4Source,
            ImportError::NoBuildSupplied { platform, .. } => ImportFault::NoBuildSupplied(platform@),
            ImportError::NestingTooDeep { limit } => ImportFault::NestingTooDeep(limit),
        }
    }
}

/// `r` is the outcome that `s` describes: the same value, or an error with
/// the same plain values.
pub open spec fn outcome_is<T>(r: Result<T, ImportError>, s: Result<T, ImportFault>) -> bool {
    match r {
        Ok(v) => s == Ok::<T, ImportFault>(v),
        Err(e) => s == Err::<T, ImportFault>(e@),
    }
}

/// A whole document as plain values.
pub struct FullView {
    pub sources: SeL4Sources,
    pub build_dir: Option<String>,
    pub config: TreeView,
    pub build: Map<Seq<char>, PlatformBuild>,
    pub metadata: TreeView,
}

impl Full {
    /// The document as plain values.
    pub open spec fn view(&self) -> FullView {
        FullView {
            sources: self.sel4.sources,
            build_dir: self.sel4.build_dir,
            config: self.sel4.config@,
            build: self.build@,
            metadata: self.metadata@,
        }
    }
}

} // verus!
