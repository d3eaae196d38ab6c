//! Contextualization: flattening every layered properties tree for one
//! concrete build context, and picking the platform's build settings.
use vstd::prelude::*;
use crate::arch::{Arch, Platform, SeL4Arch};
use crate::model::{
    copy_values, overlay, Full, ImportError, PlatformBuild, PlatformBuildProfile,
    PropertiesTree, SeL4Sources, SingleValue, TreeView, ValueMap,
};
use crate::text::{opt_text, relative_to, relative_to_spec};

verus! {

/// The concrete build that configuration is resolved for.
#[derive(Debug, Clone, PartialEq, Hash)]
pub struct Context {
    pub platform: Platform,
    pub is_debug: bool,
    pub base_dir: Option<String>,
    pub arch: Arch,
    pub sel4_arch: SeL4Arch,
}

/// How to make the root task, and where its image is.
#[derive(Debug, Clone, PartialEq, Eq, Default, Hash)]
pub struct RootTask {
    pub make_command: Option<String>,
    pub image_path: String,
}

/// The build settings picked for one platform and profile.
#[derive(Debug, Clone, PartialEq, Eq, Default, Hash)]
pub struct Build {
    pub cross_compiler_prefix: Option<String>,
    pub toolchain_dir: Option<String>,
    pub root_task: Option<RootTask>,
}

/// A root task as plain values: its make command and its image path.
pub struct RootTaskView {
    pub make_command: Option<Seq<char>>,
    pub image_path: Seq<char>,
}

/// Build settings as plain values.
pub struct BuildView {
    pub cross_compiler_prefix: Option<Seq<char>>,
    pub toolchain_dir: Option<Seq<char>>,
    pub root_task: Option<RootTaskView>,
}

impl RootTask {
    pub open spec fn view(self) -> RootTaskView {
        RootTaskView { make_command: opt_text(self.make_command), image_path: self.image_path@ }
    }
}

impl Build {
    pub open spec fn view(self) -> BuildView {
        BuildView {
            cross_compiler_prefix: opt_text(self.cross_compiler_prefix),
            toolchain_dir: opt_text(self.toolchain_dir),
            root_task: match self.root_task {
                Some(t) => Some(t@),
                None => None,
            },
        }
    }
}

/// The resolved configuration: one flat mapping for the kernel configuration
/// and one for the metadata, the sources, and the build settings of the
/// active platform and profile.
#[derive(Debug, PartialEq)]
pub struct Contextualized {
    pub sel4_sources: SeL4Sources,
    pub build_dir: Option<String>,
    pub context: Context,
    pub sel4_config: ValueMap,
    pub build: Build,
    pub metadata: ValueMap,
}

/// `m` with the overlay that `overlays` holds under `key` laid over it, if any.
pub open spec fn apply_overlay(
    m: Map<Seq<char>, SingleValue>,
    overlays: Map<Seq<char>, Map<Seq<char>, SingleValue>>,
    key: Seq<char>,
) -> Map<Seq<char>, SingleValue> {
    if overlays.contains_key(key) {
        m.union_prefer_right(overlays[key])
    } else {
        m
    }
}

/// A properties tree flattened for a context: the shared values, then the
/// debug or release overlay, then the overlays named by the architecture,
/// the seL4 architecture and the platform, each later one winning.
pub open spec fn flatten(
    t: TreeView,
    is_debug: bool,
    arch: Seq<char>,
    sel4_arch: Seq<char>,
    platform: Seq<char>,
) -> Map<Seq<char>, SingleValue> {
    let profiled = t.shared.union_prefer_right(if is_debug { t.debug } else { t.release });
    apply_overlay(
        apply_overlay(apply_overlay(profiled, t.contextual, arch), t.contextual, sel4_arch),
        t.contextual,
        platform,
    )
}

/// A properties tree flattened for `c`.
pub open spec fn flatten_for(t: TreeView, c: Context) -> Map<Seq<char>, SingleValue> {
    flatten(t, c.is_debug, c.arch.spec_name(), c.sel4_arch.spec_name(), c.platform.0@)
}

/// The build settings for a platform's entry under a profile, with relative
/// paths evaluated against `base`.
pub open spec fn build_for(pb: PlatformBuild, is_debug: bool, base: Option<Seq<char>>) -> BuildView {
    let profile = if is_debug { pb.debug_build_profile } else { pb.release_build_profile };
    BuildView {
        cross_compiler_prefix: opt_text(pb.cross_compiler_prefix),
        toolchain_dir: match pb.toolchain_dir {
            Some(d) => Some(relative_to_spec(d@, base)),
            None => None,
        },
        root_task: match profile {
            Some(p) => Some(
                RootTaskView {
                    make_command: opt_text(p.make_root_task),
                    image_path: relative_to_spec(p.root_task_image@, base),
                },
            ),
            None => None,
        },
    }
}

/// A copy of an optional string.
pub fn copy_opt(o: &Option<String>) -> (r: Option<String>)
    ensures
        r == *o,
{
    match o {
        Some(s) => Some(s.clone()),
        None => None,
    }
}

fn apply_named(flat: &mut ValueMap, tree: &PropertiesTree, key: &str)
    ensures
        final(flat)@ == apply_overlay(old(flat)@, tree@.contextual, key@),
{
    match tree.contextual.get(key) {
        Some(m) => {
            assert(tree@.contextual.contains_key(key@));
            assert(tree@.contextual[key@] == m@);
            overlay(flat, m);
        },
        None => {
            assert(!tree@.contextual.contains_key(key@));
        },
    }
}

/// Flattens a properties tree for a context.
pub fn resolve_context(tree: &PropertiesTree, context: &Context) -> (r: ValueMap)
    ensures
        r@ == flatten_for(tree@, *context),
{
    let mut flat = copy_values(&tree.shared);
    if context.is_debug {
        overlay(&mut flat, &tree.debug);
    } else {
        overlay(&mut flat, &tree.release);
    }
    let arch = context.arch.name();
    apply_named(&mut flat, tree, arch.as_str());
    let sel4_arch = context.sel4_arch.name();
    apply_named(&mut flat, tree, sel4_arch.as_str());
    apply_named(&mut flat, tree, context.platform.0.as_str());
    flat
}

fn root_task_of(profile: &Option<PlatformBuildProfile>, base: &Option<String>) -> (r: Option<
    RootTask,
>)
    ensures
        match r {
            Some(t) => match *profile {
                Some(p) => t@ == (RootTaskView {
                    make_command: opt_text(p.make_root_task),
                    image_path: relative_to_spec(p.root_task_image@, opt_text(*base)),
                }),
                None => false,
            },
            None => profile.is_none(),
        },
{
    match profile {
        Some(p) => Some(
            RootTask {
                make_command: copy_opt(&p.make_root_task),
                image_path: relative_to(&p.root_task_image, base),
            },
        ),
        None => None,
    }
}

impl Contextualized {
    /// Resolves a document for a context. Fails with `NoBuildSupplied` exactly
    /// when the document has no build entry for the context's platform.
    pub fn from_full_context(f: &Full, context: Context) -> (r: Result<Contextualized, ImportError>)
        ensures
            r is Err <==> !f.build@.contains_key(context.platform.0@),
            match r {
                Ok(c) => {
                    &&& c.context == context
                    &&& c.sel4_config@ == flatten_for(f.sel4.config@, context)
                    &&& c.metadata@ == flatten_for(f.metadata@, context)
                    &&& c.sel4_sources@ == f.sel4.sources.spec_relative_to(opt_text(context.base_dir))
                    &&& c.build_dir == f.sel4.build_dir
                    &&& c.build@ == build_for(
                        f.build@[context.platform.0@],
                        context.is_debug,
                        opt_text(context.base_dir),
                    )
                },
                Err(e) => match e {
                    ImportError::NoBuildSupplied { platform, profile } => {
                        &&& platform@ == context.platform.0@
                        &&& profile@ == (if context.is_debug { "debug"@ } else { "release"@ })
                    },
                    _ => false,
                },
            },
    {
        let pb = match f.build.get(context.platform.0.as_str()) {
            Some(pb) => pb,
            None => {
                return Err(
                    ImportError::NoBuildSupplied {
                        platform: context.platform.0.clone(),
                        profile: if context.is_debug {
                            "debug"
                        } else {
                            "release"
                        },
                    },
                );
            },
        };
        let profile = if context.is_debug {
            &pb.debug_build_profile
        } else {
            &pb.release_build_profile
        };
        let root_task = root_task_of(profile, &context.base_dir);
        let toolchain_dir = match &pb.toolchain_dir {
            Some(d) => Some(relative_to(d, &context.base_dir)),
            None => None,
        };
        let build = Build {
            cross_compiler_prefix: copy_opt(&pb.cross_compiler_prefix),
            toolchain_dir,
            root_task,
        };
        let sel4_config = resolve_context(&f.sel4.config, &context);
        let metadata = resolve_context(&f.metadata, &context);
        let sel4_sources = f.sel4.sources.relative_to(&context.base_dir);
        let build_dir = copy_opt(&f.sel4.build_dir);
        Ok(Contextualized { sel4_sources, build_dir, context, sel4_config, build, metadata })
    }

    /// Resolves a document for the context made of the given parts.
    pub fn from_full(
        f: &Full,
        arch: Arch,
        sel4_arch: SeL4Arch,
        is_debug: bool,
        platform: Platform,
        base_dir: Option<String>,
    ) -> (r: Result<Contextualized, ImportError>)
        ensures
            r is Err <==> !f.build@.contains_key(platform.0@),
            match r {
                Ok(c) => {
                    &&& c.context == (Context { platform, is_debug, base_dir, arch, sel4_arch })
                    &&& c.sel4_config@ == flatten_for(f.sel4.config@, c.context)
                    &&& c.metadata@ == flatten_for(f.metadata@, c.context)
                    &&& c.sel4_sources@ == f.sel4.sources.spec_relative_to(opt_text(base_dir))
                    &&& c.build_dir == f.sel4.build_dir
                    &&& c.build@ == build_for(f.build@[platform.0@], is_debug, opt_text(base_dir))
                },
                Err(e) => e is NoBuildSupplied,
            },
    {
        let context = Context { platform, is_debug, base_dir, arch, sel4_arch };
        Contextualized::from_full_context(f, context)
    }
}

} // verus!
