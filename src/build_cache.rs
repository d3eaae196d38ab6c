//! The build cache: the build-tool options derived from a resolved
//! configuration, the content-addressed build directory, and the plan of
//! configure and build steps.
use vstd::prelude::*;
use vstd::string::*;
use crate::arch::Arch;
use crate::contextualize::{BuildView, Contextualized};
use crate::model::{RepoSource, RepoSourceView, SingleValue, ValueMap};
use crate::order::{canonical_pairs, lex_lt, pair_view, sorted_pairs};
use crate::strmap::{entries_view, keys_sorted, lemma_entry_in_view, lemma_view_of_prefix, names_unique, StrMap};
use crate::text::{bool_text, decimal_text, hex_digits, hex_text, int_text, join_path, join_spec, opt_text, owned};

verus! {

/// The build description used for a library build.
pub const CMAKELISTS_LIB: &'static str = "cmake_minimum_required(VERSION 3.7.2)
include(${KERNEL_PATH}/configs/seL4Config.cmake)
project(libsel4 C ASM)
set(configure_string \"\")
config_option(LibSel4FunctionAttributes LIBSEL4_FUNCTION_ATTRIBUTE \"Function attributes\" DEFAULT public)
add_config_library(libsel4 \"${configure_string}\")
add_subdirectory(${KERNEL_PATH} kernel)
add_subdirectory(${KERNEL_PATH}/libsel4 libsel4)
";

/// The build description used for a kernel image build.
pub const CMAKELISTS_KERNEL: &'static str = "cmake_minimum_required(VERSION 3.7.2)
include(${KERNEL_PATH}/configs/seL4Config.cmake)
project(sel4_kernel C ASM)
add_subdirectory(${KERNEL_PATH} kernel)
add_subdirectory(${KERNEL_PATH}/libsel4 libsel4)
add_subdirectory($ENV{UTIL_LIBS_SOURCE_PATH} $ENV{UTIL_LIBS_BIN_PATH})
include(${KERNEL_PATH}/tools/helpers.cmake)
DeclareRootserver($ENV{ROOT_TASK_PATH})
";

/// Whether the build makes the static library or the kernel images.
#[derive(Copy, Clone, Debug, PartialEq, Eq, Structural)]
pub enum SeL4BuildMode {
    Kernel,
    Lib,
}

/// What a build produces: the library's build directory, or the kernel
/// image and, on some architectures, a separate root task image.
#[derive(Debug, Clone, PartialEq, Eq)]
pub enum SeL4BuildOutcome {
    StaticLib { build_dir: String },
    Kernel { build_dir: String, kernel_path: String, root_image_path: Option<String> },
}

/// Why a build cannot be planned.
#[derive(Debug, Clone, PartialEq, Eq, Structural)]
pub enum BuildError {
    /// A kernel build needs the profile's root task image.
    MissingRootTask,
    /// The configuration has no `KernelSel4Arch`.
    MissingSel4Arch,
    /// The configuration names `KernelPlatform` itself, which the kernel build derives.
    ExplicitKernelPlatform,
    /// The configuration has neither `KernelX86Platform` nor `KernelARMPlatform`.
    MissingKernelPlatform,
    /// Kernel images are only laid out for x86 and Arm.
    UnsupportedArch,
}

/// The text a single value is handed to the build tool as.
pub open spec fn value_text_spec(v: SingleValue) -> Seq<char> {
    match v {
        SingleValue::String(s) => s@,
        SingleValue::Integer(i) => decimal_text(i as int),
        SingleValue::Boolean(b) => if b {
            "true"@
        } else {
            "false"@
        },
    }
}

/// The text a single value is handed to the build tool as.
pub fn value_text(v: &SingleValue) -> (r: String)
    ensures
        r@ == value_text_spec(*v),
{
    match v {
        SingleValue::String(s) => s.clone(),
        SingleValue::Integer(i) => int_text(*i),
        SingleValue::Boolean(b) => bool_text(*b),
    }
}

/// A single value as text that also names its kind: `s`, `i` or `b`, then
/// the value's text.
pub open spec fn typed_text_spec(v: SingleValue) -> Seq<char> {
    match v {
        SingleValue::String(_) => "s"@ + value_text_spec(v),
        SingleValue::Integer(_) => "i"@ + value_text_spec(v),
        SingleValue::Boolean(_) => "b"@ + value_text_spec(v),
    }
}

/// A single value as text that also names its kind.
pub fn typed_text(v: &SingleValue) -> (r: String)
    ensures
        r@ == typed_text_spec(*v),
{
    let mut r = match v {
        SingleValue::String(_) => owned("s"),
        SingleValue::Integer(_) => owned("i"),
        SingleValue::Boolean(_) => owned("b"),
    };
    let t = value_text(v);
    r.append(t.as_str());
    r
}

/// The options that do not come from the kernel configuration: the cross
/// compiler prefix if any, the toolchain file and kernel path, and for a
/// library build the function attributes.
pub open spec fn base_options(cross: Option<Seq<char>>, kernel_dir: Seq<char>, mode: SeL4BuildMode) -> Map<Seq<char>, Seq<char>> {
    let m0 = match cross {
        Some(p) => Map::<Seq<char>, Seq<char>>::empty().insert("CROSS_COMPILER_PREFIX"@, p),
        None => Map::<Seq<char>, Seq<char>>::empty(),
    };
    let m1 = m0.insert("CMAKE_TOOLCHAIN_FILE"@, join_spec(kernel_dir, "gcc.cmake"@)).insert(
        "KERNEL_PATH"@,
        kernel_dir,
    );
    if mode == SeL4BuildMode::Lib {
        m1.insert("LibSel4FunctionAttributes"@, "public"@)
    } else {
        m1
    }
}

/// The build-tool options: the base options with every resolved kernel
/// configuration entry laid over them as text.
pub open spec fn cmake_options_spec(c: Contextualized, kernel_dir: Seq<char>, mode: SeL4BuildMode) -> Map<Seq<char>, Seq<char>> {
    base_options(opt_text(c.build.cross_compiler_prefix), kernel_dir, mode).union_prefer_right(
        c.sel4_config@.map_values(|v: SingleValue| value_text_spec(v)),
    )
}

/// The build-tool options for a resolved configuration.
pub fn cmake_options(config: &Contextualized, kernel_dir: &str, mode: SeL4BuildMode) -> (r: StrMap<String>)
    ensures
        r@.map_values(|s: String| s@) == cmake_options_spec(*config, kernel_dir@, mode),
{
    let mut r: StrMap<String> = StrMap::new();
    if let Some(prefix) = &config.build.cross_compiler_prefix {
        r.insert(owned("CROSS_COMPILER_PREFIX"), prefix.clone());
    }
    r.insert(owned("CMAKE_TOOLCHAIN_FILE"), join_path(kernel_dir, "gcc.cmake"));
    r.insert(owned("KERNEL_PATH"), owned(kernel_dir));
    if mode == SeL4BuildMode::Lib {
        r.insert(owned("LibSel4FunctionAttributes"), owned("public"));
    }
    let ghost base = base_options(opt_text(config.build.cross_compiler_prefix), kernel_dir@, mode);
    assert(r@.map_values(|s: String| s@) =~= base);
    let es = config.sel4_config.entries();
    let n = es.len();
    let mut i: usize = 0;
    assert(es@.take(0) =~= Seq::<(String, SingleValue)>::empty());
    assert(entries_view(es@.take(0)) =~= Map::<Seq<char>, SingleValue>::empty());
    assert(base.union_prefer_right(
        Map::<Seq<char>, SingleValue>::empty().map_values(|v: SingleValue| value_text_spec(v)),
    ) =~= base);
    while i < n
        invariant
            n == es@.len(),
            i <= n,
            names_unique(es@),
            es@ == config.sel4_config.spec_entries(),
            r@.map_values(|s: String| s@) == base.union_prefer_right(
                entries_view(es@.take(i as int)).map_values(|v: SingleValue| value_text_spec(v)),
            ),
        decreases n - i,
    {
        let ghost before = r@;
        let k = es[i].0.clone();
        let v = value_text(&es[i].1);
        r.insert(k, v);
        proof {
            lemma_view_of_prefix(es@, i as int);
            let key = es@[i as int].0@;
            let val = es@[i as int].1;
            let prev = entries_view(es@.take(i as int));
            assert(r@.map_values(|s: String| s@) =~= before.map_values(|s: String| s@).insert(
                key,
                value_text_spec(val),
            ));
            assert(prev.insert(key, val).map_values(|v: SingleValue| value_text_spec(v))
                =~= prev.map_values(|v: SingleValue| value_text_spec(v)).insert(
                key,
                value_text_spec(val),
            ));
            assert(r@.map_values(|s: String| s@) =~= base.union_prefer_right(
                entries_view(es@.take(i + 1)).map_values(|v: SingleValue| value_text_spec(v)),
            ));
        }
        i = i + 1;
    }
    assert(es@.take(n as int) =~= es@);
    r
}


/// Each pair's name and text, one after another.
pub open spec fn pair_texts(s: Seq<(Seq<char>, Seq<char>)>) -> Seq<Seq<char>>
    decreases s.len(),
{
    if s.len() == 0 {
        Seq::empty()
    } else {
        pair_texts(s.drop_last()) + seq![s.last().0, s.last().1]
    }
}

/// An optional text, empty when absent.
pub open spec fn or_empty(o: Option<Seq<char>>) -> Seq<char> {
    match o {
        Some(s) => s,
        None => Seq::empty(),
    }
}

/// The parts that the build directory's digest is taken over: the build
/// description, the options sorted by name, the kernel configuration and the
/// metadata as text that names each value's kind, sorted by name, the
/// context with the sources, the source directories and the build settings.
pub open spec fn key_parts_spec(
    template: Seq<char>,
    options: Map<Seq<char>, Seq<char>>,
    config: Map<Seq<char>, Seq<char>>,
    metadata: Map<Seq<char>, Seq<char>>,
    context: Seq<Seq<char>>,
    dirs: Seq<Seq<char>>,
    build: BuildView,
) -> Seq<Seq<char>> {
    seq![template] + pair_texts(canonical_pairs(options)) + pair_texts(canonical_pairs(config))
        + context + pair_texts(
        canonical_pairs(metadata),
    ) + dirs + seq![
        or_empty(build.cross_compiler_prefix),
        or_empty(build.toolchain_dir),
        match build.root_task {
            Some(t) => t.image_path,
            None => Seq::empty(),
        },
        match build.root_task {
            Some(t) => or_empty(t.make_command),
            None => Seq::empty(),
        },
    ]
}

/// The words that name a source descriptor.
pub open spec fn source_words(s: RepoSourceView) -> Seq<Seq<char>> {
    match s {
        RepoSourceView::LocalPath(p) => seq!["path"@, p],
        RepoSourceView::RemoteGit { url, target } => seq!["git"@, url, target.spec_kind(), target.spec_value()],
    }
}

/// The words that name a build context: architecture, seL4 architecture,
/// platform, profile, base directory and the resolved sources.
pub open spec fn context_words(c: Contextualized) -> Seq<Seq<char>> {
    seq![
        c.context.arch.spec_name(),
        c.context.sel4_arch.spec_name(),
        c.context.platform.0@,
        if c.context.is_debug { "debug"@ } else { "release"@ },
        if c.context.base_dir is Some { "base"@ } else { "nobase"@ },
        or_empty(opt_text(c.context.base_dir)),
    ] + source_words(c.sel4_sources.kernel@) + source_words(c.sel4_sources.tools@) + source_words(
        c.sel4_sources.util_libs@,
    )
}

fn push_context(parts: &mut Vec<String>, c: &Contextualized)
    ensures
        final(parts)@.map_values(|p: String| p@) == old(parts)@.map_values(|p: String| p@)
            + context_words(*c),
{
    let ghost start = parts@.map_values(|p: String| p@);
    push_text(parts, c.context.arch.name());
    push_text(parts, c.context.sel4_arch.name());
    push_text(parts, c.context.platform.name());
    push_text(parts, if c.context.is_debug { owned("debug") } else { owned("release") });
    push_text(parts, if c.context.base_dir.is_some() { owned("base") } else { owned("nobase") });
    push_text(parts, text_or_empty(&c.context.base_dir));
    let ghost mid = parts@.map_values(|p: String| p@);
    assert(mid =~= start + seq![
        c.context.arch.spec_name(),
        c.context.sel4_arch.spec_name(),
        c.context.platform.0@,
        if c.context.is_debug { "debug"@ } else { "release"@ },
        if c.context.base_dir is Some { "base"@ } else { "nobase"@ },
        or_empty(opt_text(c.context.base_dir)),
    ]);
    push_source(parts, &c.sel4_sources.kernel);
    push_source(parts, &c.sel4_sources.tools);
    push_source(parts, &c.sel4_sources.util_libs);
    assert(parts@.map_values(|p: String| p@) =~= start + context_words(*c));
}

fn push_source(parts: &mut Vec<String>, s: &RepoSource)
    ensures
        final(parts)@.map_values(|p: String| p@) == old(parts)@.map_values(|p: String| p@)
            + source_words(s@),
{
    let ghost start = parts@.map_values(|p: String| p@);
    match s {
        RepoSource::LocalPath(p) => {
            push_text(parts, owned("path"));
            push_text(parts, p.clone());
        },
        RepoSource::RemoteGit { url, target } => {
            push_text(parts, owned("git"));
            push_text(parts, url.clone());
            push_text(parts, owned(target.kind()));
            push_text(parts, owned(target.value()));
        },
    }
    assert(parts@.map_values(|p: String| p@) =~= start + source_words(s@));
}

fn push_pairs(parts: &mut Vec<String>, es: &Vec<(String, String)>)
    ensures
        final(parts)@.map_values(|p: String| p@) == old(parts)@.map_values(|p: String| p@)
            + pair_texts(pair_view(es@)),
{
    let n = es.len();
    let mut i: usize = 0;
    let ghost start = parts@.map_values(|p: String| p@);
    assert(pair_view(es@.take(0)) =~= Seq::<(Seq<char>, Seq<char>)>::empty());
    assert(start + Seq::<Seq<char>>::empty() =~= start);
    while i < n
        invariant
            n == es@.len(),
            i <= n,
            parts@.map_values(|p: String| p@) == start + pair_texts(pair_view(es@.take(i as int))),
        decreases n - i,
    {
        let ghost before = parts@.map_values(|p: String| p@);
        parts.push(es[i].0.clone());
        parts.push(es[i].1.clone());
        assert(pair_view(es@.take(i + 1)).drop_last() =~= pair_view(es@.take(i as int)));
        assert(parts@.map_values(|p: String| p@) =~= before + seq![es@[i as int].0@, es@[i as int].1@]);
        assert(start + pair_texts(pair_view(es@.take(i + 1))) =~= start + pair_texts(pair_view(es@.take(i as int))) + seq![es@[i as int].0@, es@[i as int].1@]);
        i = i + 1;
    }
    assert(es@.take(n as int) =~= es@);
}

fn push_text(parts: &mut Vec<String>, t: String)
    ensures
        final(parts)@.map_values(|p: String| p@) == old(parts)@.map_values(|p: String| p@).push(t@),
{
    parts.push(t);
    assert(parts@.map_values(|p: String| p@) =~= old(parts)@.map_values(|p: String| p@).push(t@));
}

fn text_or_empty(o: &Option<String>) -> (r: String)
    ensures
        r@ == or_empty(opt_text(*o)),
{
    match o {
        Some(s) => s.clone(),
        None => String::new(),
    }
}

/// The values of a map of single values as text that names their kind.
pub fn typed_values(m: &ValueMap) -> (r: StrMap<String>)
    ensures
        r@.map_values(|s: String| s@) == m@.map_values(|v: SingleValue| typed_text_spec(v)),
{
    let mut r: StrMap<String> = StrMap::new();
    let es = m.entries();
    let n = es.len();
    let mut i: usize = 0;
    assert(es@.take(0) =~= Seq::<(String, SingleValue)>::empty());
    assert(r@.map_values(|s: String| s@) =~= entries_view(es@.take(0)).map_values(|v: SingleValue| typed_text_spec(v)));
    while i < n
        invariant
            n == es@.len(),
            i <= n,
            names_unique(es@),
            es@ == m.spec_entries(),
            r@.map_values(|s: String| s@) == entries_view(es@.take(i as int)).map_values(|v: SingleValue| typed_text_spec(v)),
        decreases n - i,
    {
        let ghost before = r@;
        let k = es[i].0.clone();
        let v = typed_text(&es[i].1);
        r.insert(k, v);
        proof {
            lemma_view_of_prefix(es@, i as int);
            let key = es@[i as int].0@;
            let val = es@[i as int].1;
            let prev = entries_view(es@.take(i as int));
            assert(r@.map_values(|s: String| s@) =~= before.map_values(|s: String| s@).insert(key, typed_text_spec(val)));
            assert(prev.insert(key, val).map_values(|v: SingleValue| typed_text_spec(v)) =~= prev.map_values(|v: SingleValue| typed_text_spec(v)).insert(key, typed_text_spec(val)));
        }
        i = i + 1;
    }
    assert(es@.take(n as int) =~= es@);
    r
}

/// The parts that the build directory's digest is taken over.
pub fn key_parts(
    template: &str,
    options: &StrMap<String>,
    c: &Contextualized,
    kernel_dir: &str,
    tools_dir: &str,
    util_libs_dir: &str,
) -> (r: Vec<String>)
    ensures
        r@.map_values(|p: String| p@) == key_parts_spec(
            template@,
            options@.map_values(|s: String| s@),
            c.sel4_config@.map_values(|v: SingleValue| typed_text_spec(v)),
            c.metadata@.map_values(|v: SingleValue| typed_text_spec(v)),
            context_words(*c),
            seq![kernel_dir@, tools_dir@, util_libs_dir@],
            c.build@,
        ),
{
    let mut parts: Vec<String> = Vec::new();
    assert(parts@.map_values(|p: String| p@) =~= Seq::<Seq<char>>::empty());
    push_text(&mut parts, owned(template));
    let sorted_options = sorted_pairs(options);
    push_pairs(&mut parts, &sorted_options);
    let config = typed_values(&c.sel4_config);
    let sorted_config = sorted_pairs(&config);
    push_pairs(&mut parts, &sorted_config);
    push_context(&mut parts, c);
    let metadata = typed_values(&c.metadata);
    let sorted_metadata = sorted_pairs(&metadata);
    push_pairs(&mut parts, &sorted_metadata);
    push_text(&mut parts, owned(kernel_dir));
    push_text(&mut parts, owned(tools_dir));
    push_text(&mut parts, owned(util_libs_dir));
    push_text(&mut parts, text_or_empty(&c.build.cross_compiler_prefix));
    push_text(&mut parts, text_or_empty(&c.build.toolchain_dir));
    let (image, make) = match &c.build.root_task {
        Some(t) => (t.image_path.clone(), text_or_empty(&t.make_command)),
        None => (String::new(), String::new()),
    };
    push_text(&mut parts, image);
    push_text(&mut parts, make);
    assert(parts@.map_values(|p: String| p@) =~= key_parts_spec(
        template@,
        options@.map_values(|s: String| s@),
        c.sel4_config@.map_values(|v: SingleValue| typed_text_spec(v)),
        c.metadata@.map_values(|v: SingleValue| typed_text_spec(v)),
        context_words(*c),
        seq![kernel_dir@, tools_dir@, util_libs_dir@],
        c.build@,
    ));
    parts
}

/// The digest that std's default hasher gives a list of strings.
pub uninterp spec fn digest_of(parts: Seq<Seq<char>>) -> u64;

/// Relies on std's `DefaultHasher`: every hasher that `new` makes starts
/// from the same keys, so the digest of a list of strings depends on the
/// strings alone.
#[verifier::external_body]
fn digest(parts: &Vec<String>) -> (r: u64)
    ensures
        r == digest_of(parts@.map_values(|p: String| p@)),
{
    let mut h = std::collections::hash_map::DefaultHasher::new();
    std::hash::Hash::hash(parts, &mut h);
    std::hash::Hasher::finish(&h)
}

/// The build description for a mode.
pub open spec fn template_spec(mode: SeL4BuildMode) -> Seq<char> {
    if mode == SeL4BuildMode::Kernel {
        CMAKELISTS_KERNEL@
    } else {
        CMAKELISTS_LIB@
    }
}

/// The build description for a mode.
pub fn template_for(mode: SeL4BuildMode) -> (r: &'static str)
    ensures
        r@ == template_spec(mode),
{
    match mode {
        SeL4BuildMode::Kernel => CMAKELISTS_KERNEL,
        SeL4BuildMode::Lib => CMAKELISTS_LIB,
    }
}

/// The content-addressed build directory: `<out_dir>/sel4-build/<digest in hex>`.
pub open spec fn build_dir_spec(out_dir: Seq<char>, digest: u64) -> Seq<char> {
    join_spec(join_spec(out_dir, "sel4-build"@), hex_digits(digest as nat))
}

/// The digest of a resolved configuration's build inputs.
pub open spec fn config_digest(
    kernel_dir: Seq<char>,
    tools_dir: Seq<char>,
    util_libs_dir: Seq<char>,
    c: Contextualized,
    mode: SeL4BuildMode,
) -> u64 {
    digest_of(
        key_parts_spec(
            template_spec(mode),
            cmake_options_spec(c, kernel_dir, mode),
            c.sel4_config@.map_values(|v: SingleValue| typed_text_spec(v)),
            c.metadata@.map_values(|v: SingleValue| typed_text_spec(v)),
            context_words(c),
            seq![kernel_dir, tools_dir, util_libs_dir],
            c.build@,
        ),
    )
}

/// The build directory for a resolved configuration, under `out_dir`, with
/// the options it was derived from.
pub fn cache_dir(
    out_dir: &str,
    kernel_dir: &str,
    tools_dir: &str,
    util_libs_dir: &str,
    config: &Contextualized,
    mode: SeL4BuildMode,
) -> (r: (String, StrMap<String>))
    ensures
        r.1@.map_values(|s: String| s@) == cmake_options_spec(*config, kernel_dir@, mode),
        r.0@ == build_dir_spec(
            out_dir@,
            config_digest(kernel_dir@, tools_dir@, util_libs_dir@, *config, mode),
        ),
{
    let options = cmake_options(config, kernel_dir, mode);
    let parts = key_parts(template_for(mode), &options, config, kernel_dir, tools_dir, util_libs_dir);
    let d = digest(&parts);
    let base = join_path(out_dir, "sel4-build");
    let hex = hex_text(d);
    (join_path(base.as_str(), hex.as_str()), options)
}

/// The names of the resolved kernel configuration entries whose value is
/// boolean `true`, in the order of the entries.
pub open spec fn true_flags(s: Seq<(String, SingleValue)>) -> Seq<Seq<char>>
    decreases s.len(),
{
    if s.len() == 0 {
        Seq::empty()
    } else if s.last().1 == SingleValue::Boolean(true) {
        true_flags(s.drop_last()).push(s.last().0@)
    } else {
        true_flags(s.drop_last())
    }
}

impl Contextualized {
    /// The names of every resolved kernel configuration entry whose value is
    /// boolean `true`, in ascending order of name: each becomes a compile-time flag.
    pub fn boolean_feature_flags(&self) -> (r: Vec<String>)
        ensures
            r@.map_values(|k: String| k@) == true_flags(self.sel4_config.spec_entries()),
            forall|a: int, b: int| 0 <= a < b < r@.len() ==> lex_lt(#[trigger] r@[a]@, #[trigger] r@[b]@),
            forall|k: Seq<char>| (exists|a: int| 0 <= a < r@.len() && r@[a]@ == k) <==> (
                self.sel4_config@.contains_key(k) && self.sel4_config@[k] == SingleValue::Boolean(true)),
    {
        let es = self.sel4_config.entries();
        let n = es.len();
        let mut r: Vec<String> = Vec::new();
        let mut i: usize = 0;
        let ghost mut idx: Seq<int> = Seq::empty();
        assert(es@.take(0) =~= Seq::<(String, SingleValue)>::empty());
        assert(r@.map_values(|k: String| k@) =~= Seq::<Seq<char>>::empty());
        while i < n
            invariant
                n == es@.len(),
                i <= n,
                es@ == self.sel4_config.spec_entries(),
                keys_sorted(es@),
                names_unique(es@),
                r@.map_values(|k: String| k@) == true_flags(es@.take(i as int)),
                idx.len() == r@.len(),
                forall|a: int| 0 <= a < r@.len() ==> 0 <= #[trigger] idx[a] < i && r@[a]@ == es@[idx[a]].0@
                    && es@[idx[a]].1 == SingleValue::Boolean(true),
                forall|a: int, b: int| 0 <= a < b < r@.len() ==> lex_lt(#[trigger] r@[a]@, #[trigger] r@[b]@),
                forall|j: int| 0 <= j < i && (#[trigger] es@[j]).1 == SingleValue::Boolean(true) ==> exists|a: int|
                    0 <= a < r@.len() && r@[a]@ == es@[j].0@,
            decreases n - i,
        {
            assert(es@.take(i + 1).drop_last() =~= es@.take(i as int));
            let ghost before = r@;
            match &es[i].1 {
                SingleValue::Boolean(true) => {
                    r.push(es[i].0.clone());
                    proof {
                        idx = idx.push(i as int);
                        assert forall|a: int| 0 <= a < before.len() implies lex_lt(#[trigger] r@[a]@, es@[i as int].0@) by {
                            assert(lex_lt(es@[idx[a]].0@, es@[i as int].0@));
                        }
                        assert(r@[before.len() as int]@ == es@[i as int].0@);
                    }
                    assert(r@.map_values(|k: String| k@) =~= before.map_values(|k: String| k@).push(es@[i as int].0@));
                },
                _ => {},
            }
            proof {
                assert forall|j: int| 0 <= j < i + 1 && (#[trigger] es@[j]).1 == SingleValue::Boolean(true) implies exists|a: int|
                    0 <= a < r@.len() && r@[a]@ == es@[j].0@ by {
                    if j < i {
                        let a = choose|a: int| 0 <= a < before.len() && before[a]@ == es@[j].0@;
                        assert(r@[a] == before[a]);
                    } else {
                        assert(r@[before.len() as int]@ == es@[j].0@);
                    }
                }
            }
            i = i + 1;
        }
        assert(es@.take(n as int) =~= es@);
        proof {
            assert forall|k: Seq<char>| (exists|a: int| 0 <= a < r@.len() && r@[a]@ == k) <==> (
                self.sel4_config@.contains_key(k) && self.sel4_config@[k] == SingleValue::Boolean(true)) by {
                if exists|a: int| 0 <= a < r@.len() && r@[a]@ == k {
                    let a = choose|a: int| 0 <= a < r@.len() && r@[a]@ == k;
                    lemma_entry_in_view(es@, idx[a]);
                }
                if self.sel4_config@.contains_key(k) && self.sel4_config@[k] == SingleValue::Boolean(true) {
                    let j = choose|j: int| 0 <= j < es@.len() && es@[j].0@ == k;
                    lemma_entry_in_view(es@, j);
                    assert(es@[j].1 == SingleValue::Boolean(true));
                }
            }
        }
        r
    }
}


/// The configure and build steps of a build.
#[derive(Debug, Clone, PartialEq, Eq)]
pub struct BuildSteps {
    /// The build description written into the build directory.
    pub template: String,
    /// The configure tool's arguments.
    pub cmake_args: Vec<String>,
    /// The environment the configure tool runs with.
    pub cmake_env: Vec<(String, String)>,
    /// The build tool's target.
    pub ninja_target: String,
}

/// A planned build: its directory, what it produces, and the steps to run,
/// if the directory does not hold the build already.
#[derive(Debug, Clone, PartialEq, Eq)]
pub struct BuildPlan {
    pub build_dir: String,
    pub outcome: SeL4BuildOutcome,
    pub steps: Option<BuildSteps>,
}

/// The configure tool's `-D<name>=<value>` flags, one per option.
pub open spec fn flag_texts(s: Seq<(Seq<char>, Seq<char>)>) -> Seq<Seq<char>>
    decreases s.len(),
{
    if s.len() == 0 {
        Seq::empty()
    } else {
        flag_texts(s.drop_last()).push("-D"@ + s.last().0 + "="@ + s.last().1)
    }
}

/// What is wrong with a configuration for a build without a pre-built
/// directory, if anything: checked in this order.
pub open spec fn plan_fault(c: Contextualized, mode: SeL4BuildMode, opts: Map<Seq<char>, Seq<char>>) -> Option<BuildError> {
    if mode == SeL4BuildMode::Kernel && c.build.root_task is None {
        Some(BuildError::MissingRootTask)
    } else if !opts.contains_key("KernelSel4Arch"@) {
        Some(BuildError::MissingSel4Arch)
    } else if opts.contains_key("KernelPlatform"@) {
        Some(BuildError::ExplicitKernelPlatform)
    } else if !opts.contains_key("KernelX86Platform"@) && !opts.contains_key("KernelARMPlatform"@) {
        Some(BuildError::MissingKernelPlatform)
    } else if mode == SeL4BuildMode::Kernel && c.context.arch == Arch::Riscv {
        Some(BuildError::UnsupportedArch)
    } else {
        None
    }
}

/// The kernel platform named by the options: the x86 one if given, else the Arm one.
pub open spec fn kernel_platform(opts: Map<Seq<char>, Seq<char>>) -> Seq<char> {
    if opts.contains_key("KernelX86Platform"@) {
        opts["KernelX86Platform"@]
    } else {
        opts["KernelARMPlatform"@]
    }
}

/// A build outcome as plain values.
pub enum OutcomeView {
    StaticLib { build_dir: Seq<char> },
    Kernel { build_dir: Seq<char>, kernel_path: Seq<char>, root_image_path: Option<Seq<char>> },
}

impl SeL4BuildOutcome {
    pub open spec fn view(self) -> OutcomeView {
        match self {
            SeL4BuildOutcome::StaticLib { build_dir } => OutcomeView::StaticLib { build_dir: build_dir@ },
            SeL4BuildOutcome::Kernel { build_dir, kernel_path, root_image_path } => OutcomeView::Kernel {
                build_dir: build_dir@,
                kernel_path: kernel_path@,
                root_image_path: match root_image_path {
                    Some(p) => Some(p@),
                    None => None,
                },
            },
        }
    }
}

/// What a build in `dir` produces. On x86 the kernel and the root task image
/// are separate files named by the seL4 architecture and the platform; on
/// Arm one image holds both.
pub open spec fn outcome_spec(dir: Seq<char>, c: Contextualized, mode: SeL4BuildMode, opts: Map<Seq<char>, Seq<char>>) -> OutcomeView {
    let images = join_spec(dir, "images"@);
    let a = opts["KernelSel4Arch"@];
    let p = kernel_platform(opts);
    if mode == SeL4BuildMode::Lib {
        OutcomeView::StaticLib { build_dir: dir }
    } else if c.context.arch == Arch::X86 {
        OutcomeView::Kernel {
            build_dir: dir,
            kernel_path: join_spec(images, "kernel-"@ + a + "-"@ + p),
            root_image_path: Some(join_spec(images, "root_task-image-"@ + a + "-"@ + p)),
        }
    } else {
        OutcomeView::Kernel {
            build_dir: dir,
            kernel_path: join_spec(images, "root_task-image-arm-"@ + p),
            root_image_path: None,
        }
    }
}

/// The environment of the configure step: the tools directory, and for a
/// kernel build the root task image and the util-libs source and build paths.
pub open spec fn env_spec(dir: Seq<char>, c: Contextualized, mode: SeL4BuildMode, tools_dir: Seq<char>, util_libs_dir: Seq<char>) -> Seq<(Seq<char>, Seq<char>)> {
    if mode == SeL4BuildMode::Kernel {
        seq![
            ("SEL4_TOOLS_DIR"@, tools_dir),
            ("ROOT_TASK_PATH"@, c.build.root_task->Some_0.image_path@),
            ("UTIL_LIBS_SOURCE_PATH"@, util_libs_dir),
            ("UTIL_LIBS_BIN_PATH"@, join_spec(dir, "util_libs"@)),
        ]
    } else {
        seq![("SEL4_TOOLS_DIR"@, tools_dir)]
    }
}

fn flags(es: &Vec<(String, String)>) -> (r: Vec<String>)
    ensures
        r@.map_values(|a: String| a@) == flag_texts(pair_view(es@)),
{
    let n = es.len();
    let mut r: Vec<String> = Vec::new();
    let mut i: usize = 0;
    assert(pair_view(es@.take(0)) =~= Seq::<(Seq<char>, Seq<char>)>::empty());
    assert(r@.map_values(|a: String| a@) =~= Seq::<Seq<char>>::empty());
    while i < n
        invariant
            n == es@.len(),
            i <= n,
            r@.map_values(|a: String| a@) == flag_texts(pair_view(es@.take(i as int))),
        decreases n - i,
    {
        assert(pair_view(es@.take(i + 1)).drop_last() =~= pair_view(es@.take(i as int)));
        let ghost before = r@;
        let mut f = owned("-D");
        f.append(es[i].0.as_str());
        f.append("=");
        f.append(es[i].1.as_str());
        r.push(f);
        assert(r@.map_values(|a: String| a@) =~= before.map_values(|a: String| a@).push(
            "-D"@ + es@[i as int].0@ + "="@ + es@[i as int].1@,
        ));
        i = i + 1;
    }
    assert(es@.take(n as int) =~= es@);
    r
}

fn joined3(a: &str, b: &str, c: &str, d: &str) -> (r: String)
    ensures
        r@ == a@ + b@ + c@ + d@,
{
    let mut r = owned(a);
    r.append(b);
    r.append(c);
    r.append(d);
    r
}

/// Plans a build. A pre-built directory in the configuration is used as it
/// is, for a library build only. Otherwise the build runs in the
/// content-addressed directory under `out_dir`, and only when `cached` says
/// that directory does not exist yet.
pub fn plan_build(
    out_dir: &str,
    kernel_dir: &str,
    tools_dir: &str,
    util_libs_dir: &str,
    config: &Contextualized,
    mode: SeL4BuildMode,
    cached: bool,
) -> (r: Result<BuildPlan, BuildError>)
    requires
        !(config.build_dir is Some && mode == SeL4BuildMode::Kernel),
    ensures
        match config.build_dir {
            Some(d) => r matches Ok(plan) && plan.build_dir@ == d@ && plan.outcome@ == (
            OutcomeView::StaticLib { build_dir: d@ }) && plan.steps is None,
            None => {
                let opts = cmake_options_spec(*config, kernel_dir@, mode);
                match r {
                    Err(e) => plan_fault(*config, mode, opts) == Some(e),
                    Ok(plan) => {
                        &&& plan_fault(*config, mode, opts) is None
                        &&& plan.build_dir@ == build_dir_spec(
                            out_dir@,
                            config_digest(kernel_dir@, tools_dir@, util_libs_dir@, *config, mode),
                        )
                        &&& (plan.steps matches Some(st) ==> st.cmake_args@.map_values(|a: String| a@)
                            == flag_texts(canonical_pairs(opts)) + seq!["-G"@, "Ninja"@, "."@])
                        &&& plan.outcome@ == outcome_spec(plan.build_dir@, *config, mode, opts)
                        &&& (plan.steps is None <==> cached)
                        &&& (plan.steps matches Some(st) ==> {
                            &&& st.template@ == template_spec(mode)
                            &&& st.ninja_target@ == (if mode == SeL4BuildMode::Kernel { "all"@ } else { "libsel4.a"@ })
                            &&& st.cmake_env@.map_values(|e: (String, String)| (e.0@, e.1@)) == env_spec(
                                plan.build_dir@,
                                *config,
                                mode,
                                tools_dir@,
                                util_libs_dir@,
                            )
                        })
                    },
                }
            },
        },
{
    if let Some(d) = &config.build_dir {
        return Ok(
            BuildPlan {
                build_dir: d.clone(),
                outcome: SeL4BuildOutcome::StaticLib { build_dir: d.clone() },
                steps: None,
            },
        );
    }
    let (dir, options) = cache_dir(out_dir, kernel_dir, tools_dir, util_libs_dir, config, mode);
    let ghost opts = cmake_options_spec(*config, kernel_dir@, mode);
    proof {
        assert(options@.map_values(|s: String| s@) == opts);
        assert forall|k: Seq<char>| #[trigger] opts.contains_key(k) implies options@.contains_key(k) && options@[k]@ == opts[k] by {}
    }
    if mode == SeL4BuildMode::Kernel && config.build.root_task.is_none() {
        return Err(BuildError::MissingRootTask);
    }
    let sel4_arch = match options.get("KernelSel4Arch") {
        Some(a) => a,
        None => {
            assert(!opts.contains_key("KernelSel4Arch"@));
            return Err(BuildError::MissingSel4Arch);
        },
    };
    if options.contains_key("KernelPlatform") {
        return Err(BuildError::ExplicitKernelPlatform);
    }
    let platform = match options.get("KernelX86Platform") {
        Some(p) => p,
        None => match options.get("KernelARMPlatform") {
            Some(p) => p,
            None => {
                return Err(BuildError::MissingKernelPlatform);
            },
        },
    };
    assert(platform@ == kernel_platform(opts));
    assert(sel4_arch@ == opts["KernelSel4Arch"@]);
    let images = join_path(dir.as_str(), "images");
    let outcome = match mode {
        SeL4BuildMode::Lib => SeL4BuildOutcome::StaticLib { build_dir: dir.clone() },
        SeL4BuildMode::Kernel => match config.context.arch {
            Arch::X86 => {
                let kernel_name = joined3("kernel-", sel4_arch.as_str(), "-", platform.as_str());
                let image_name = joined3("root_task-image-", sel4_arch.as_str(), "-", platform.as_str());
                SeL4BuildOutcome::Kernel {
                    build_dir: dir.clone(),
                    kernel_path: join_path(images.as_str(), kernel_name.as_str()),
                    root_image_path: Some(join_path(images.as_str(), image_name.as_str())),
                }
            },
            Arch::Arm => {
                let mut image_name = owned("root_task-image-arm-");
                image_name.append(platform.as_str());
                SeL4BuildOutcome::Kernel {
                    build_dir: dir.clone(),
                    kernel_path: join_path(images.as_str(), image_name.as_str()),
                    root_image_path: None,
                }
            },
            Arch::Riscv => {
                return Err(BuildError::UnsupportedArch);
            },
        },
    };
    if cached {
        return Ok(BuildPlan { build_dir: dir, outcome, steps: None });
    }
    let sorted_options = sorted_pairs(&options);
    let mut cmake_args = flags(&sorted_options);
    let ghost flag_part = cmake_args@.map_values(|a: String| a@);
    cmake_args.push(owned("-G"));
    cmake_args.push(owned("Ninja"));
    cmake_args.push(owned("."));
    assert(cmake_args@.map_values(|a: String| a@) =~= flag_part + seq!["-G"@, "Ninja"@, "."@]);
    let mut cmake_env: Vec<(String, String)> = Vec::new();
    cmake_env.push((owned("SEL4_TOOLS_DIR"), owned(tools_dir)));
    let ninja_target = match mode {
        SeL4BuildMode::Kernel => {
            let image = match &config.build.root_task {
                Some(t) => t.image_path.clone(),
                None => String::new(),
            };
            cmake_env.push((owned("ROOT_TASK_PATH"), image));
            cmake_env.push((owned("UTIL_LIBS_SOURCE_PATH"), owned(util_libs_dir)));
            cmake_env.push((owned("UTIL_LIBS_BIN_PATH"), join_path(dir.as_str(), "util_libs")));
            owned("all")
        },
        SeL4BuildMode::Lib => owned("libsel4.a"),
    };
    assert(cmake_env@.map_values(|e: (String, String)| (e.0@, e.1@)) =~= env_spec(
        dir@,
        *config,
        mode,
        tools_dir@,
        util_libs_dir@,
    ));
    let steps = BuildSteps { template: owned(template_for(mode)), cmake_args, cmake_env, ninja_target };
    Ok(BuildPlan { build_dir: dir, outcome, steps: Some(steps) })
}

} // verus!
