//! Properties that relate several calls of the library.
use vstd::prelude::*;
use crate::build_cache::{build_dir_spec, cmake_options_spec, config_digest, context_words, SeL4BuildMode};
use crate::contextualize::{flatten, Contextualized};
use crate::text::opt_text;
use crate::model::{RepoSource, TreeView};
use crate::parse::{lookup, lookup_from, repo_source_spec};
use crate::model::ImportFault;
use crate::sources::{fetch_spec, source_fetch_spec};
use crate::toml_text::TomlNode;

verus! {

/// A contextual overlay named by the platform wins over everything else:
/// whatever the profile and the architecture overlays say, an entry that the
/// platform's overlay holds is resolved to the platform's value.
pub proof fn lemma_platform_overlay_wins(
    t: TreeView,
    is_debug: bool,
    arch: Seq<char>,
    sel4_arch: Seq<char>,
    platform: Seq<char>,
    k: Seq<char>,
)
    requires
        t.contextual.contains_key(platform),
        t.contextual[platform].contains_key(k),
    ensures
        flatten(t, is_debug, arch, sel4_arch, platform).contains_key(k),
        flatten(t, is_debug, arch, sel4_arch, platform)[k] == t.contextual[platform][k],
{
}

/// A contextual overlay wins over the profile: an entry that the overlay
/// named by the seL4 architecture holds is resolved to that overlay's value,
/// unless the platform's overlay holds it too.
pub proof fn lemma_sel4_arch_overlay_wins(
    t: TreeView,
    is_debug: bool,
    arch: Seq<char>,
    sel4_arch: Seq<char>,
    platform: Seq<char>,
    k: Seq<char>,
)
    requires
        t.contextual.contains_key(sel4_arch),
        t.contextual[sel4_arch].contains_key(k),
        !(t.contextual.contains_key(platform) && t.contextual[platform].contains_key(k)),
    ensures
        flatten(t, is_debug, arch, sel4_arch, platform)[k] == t.contextual[sel4_arch][k],
{
}

/// A contextual overlay wins over the profile: an entry that the overlay
/// named by the architecture holds is resolved to that overlay's value,
/// unless a later overlay holds it too.
pub proof fn lemma_arch_overlay_wins(
    t: TreeView,
    is_debug: bool,
    arch: Seq<char>,
    sel4_arch: Seq<char>,
    platform: Seq<char>,
    k: Seq<char>,
)
    requires
        t.contextual.contains_key(arch),
        t.contextual[arch].contains_key(k),
        !(t.contextual.contains_key(sel4_arch) && t.contextual[sel4_arch].contains_key(k)),
        !(t.contextual.contains_key(platform) && t.contextual[platform].contains_key(k)),
    ensures
        flatten(t, is_debug, arch, sel4_arch, platform)[k] == t.contextual[arch][k],
{
}

/// Without a matching contextual overlay, the active profile's overlay wins
/// over the shared values, and the other profile's overlay is never used.
pub proof fn lemma_profile_overlay_wins(
    t: TreeView,
    is_debug: bool,
    arch: Seq<char>,
    sel4_arch: Seq<char>,
    platform: Seq<char>,
    k: Seq<char>,
)
    requires
        (if is_debug { t.debug } else { t.release }).contains_key(k),
        !(t.contextual.contains_key(arch) && t.contextual[arch].contains_key(k)),
        !(t.contextual.contains_key(sel4_arch) && t.contextual[sel4_arch].contains_key(k)),
        !(t.contextual.contains_key(platform) && t.contextual[platform].contains_key(k)),
    ensures
        flatten(t, is_debug, arch, sel4_arch, platform)[k] == (if is_debug {
            t.debug
        } else {
            t.release
        })[k],
{
}

/// Resolving a git source a second time, once the first resolution has
/// filled its directory, names the same directory and fetches nothing.
pub proof fn lemma_second_resolution_fetches_nothing(
    source: RepoSource,
    hint: Seq<char>,
    dest_dir: Seq<char>,
    dir: String,
)
    requires
        source is RemoteGit,
    ensures
        source_fetch_spec(source, dir, true) == Some(
            fetch_spec(source->RemoteGit_url, source->RemoteGit_target, dir),
        ),
        source_fetch_spec(source, dir, false) is None,
{
}

/// A name found in a table is the name of one of its entries.
proof fn lemma_lookup_found(es: Seq<(String, TomlNode)>, k: Seq<char>, i: int)
    requires
        0 <= i,
        lookup_from(es, k, i) is Some,
    ensures
        exists|j: int| i <= j < es.len() && es[j].0@ == k,
    decreases es.len() - i,
{
    if i < es.len() && es[i].0@ != k {
        lemma_lookup_found(es, k, i + 1);
    }
}

/// A source table with a `path` never has another property silently
/// dropped: with a `branch` beside it, reading it fails with
/// `UnsupportedProperties`, whatever else it holds.
pub proof fn lemma_local_path_rejects_extra_keys(es: Seq<(String, TomlNode)>, branch_at: int)
    requires
        lookup(es, "path"@) matches Some(TomlNode::Text(_)),
        0 <= branch_at < es.len(),
        es[branch_at].0@ == "branch"@,
    ensures
        repo_source_spec(es) matches Err(ImportFault::UnsupportedProperties(_)),
{
    lemma_lookup_found(es, "path"@, 0);
    let j = choose|j: int| 0 <= j < es.len() && es[j].0@ == "path"@;
    reveal_strlit("path");
    reveal_strlit("branch");
    assert("path"@.len() != "branch"@.len());
    assert(j != branch_at);
    assert(es.len() > 1);
}

/// The build directory depends on what a resolved configuration holds,
/// not on how it was put together: two configurations with the same
/// resolved entries, metadata, context, sources and build settings, built in
/// the same mode from the same directories, name the same build directory.
pub proof fn lemma_build_dir_deterministic(
    out_dir: Seq<char>,
    kernel_dir: Seq<char>,
    tools_dir: Seq<char>,
    util_libs_dir: Seq<char>,
    c1: Contextualized,
    c2: Contextualized,
    mode: SeL4BuildMode,
)
    requires
        c1.sel4_config@ == c2.sel4_config@,
        c1.metadata@ == c2.metadata@,
        c1.build@ == c2.build@,
        c1.context.arch == c2.context.arch,
        c1.context.sel4_arch == c2.context.sel4_arch,
        c1.context.platform.0@ == c2.context.platform.0@,
        c1.context.is_debug == c2.context.is_debug,
        opt_text(c1.context.base_dir) == opt_text(c2.context.base_dir),
        c1.sel4_sources@ == c2.sel4_sources@,
    ensures
        build_dir_spec(out_dir, config_digest(kernel_dir, tools_dir, util_libs_dir, c1, mode))
            == build_dir_spec(out_dir, config_digest(kernel_dir, tools_dir, util_libs_dir, c2, mode)),
{
    assert(cmake_options_spec(c1, kernel_dir, mode) == cmake_options_spec(c2, kernel_dir, mode));
    assert(context_words(c1) == context_words(c2));
}

} // verus!
