//! Source resolution: where each seL4 source tree lives, and whether it must
//! be fetched first.
use vstd::prelude::*;
use vstd::string::*;
use crate::model::{GitTarget, RepoSource};
use crate::text::{join_path, join_spec, owned};

verus! {

/// The directory name of a checkout: the hint, the target's kind and its value.
pub open spec fn checkout_name(hint: Seq<char>, target: GitTarget) -> Seq<char> {
    hint + "-"@ + target.spec_kind() + "-"@ + target.spec_value()
}

/// The directory name of a checkout, for example `kernel-tag-10.1.1`.
pub fn checkout_dir_name(hint: &str, target: &GitTarget) -> (r: String)
    ensures
        r@ == checkout_name(hint@, *target),
{
    let mut r = owned(hint);
    r.append("-");
    r.append(target.kind());
    r.append("-");
    r.append(target.value());
    r
}

/// How a checkout is fetched.
#[derive(Debug, Clone, PartialEq, Eq)]
pub enum FetchPlan {
    /// A shallow clone of one branch or tag.
    ShallowClone { url: String, reference: String, dir: String },
    /// A full clone, then a hard reset to the revision.
    CloneAndReset { url: String, rev: String, dir: String },
}

/// How one source is resolved: the directory that holds it, and the fetch
/// to make first, if any.
#[derive(Debug, Clone, PartialEq, Eq)]
pub struct SourcePlan {
    pub dir: String,
    pub fetch: Option<FetchPlan>,
}

/// The fetch that fills `dir` with the source at `target`.
pub open spec fn fetch_spec(url: String, target: GitTarget, dir: String) -> FetchPlan {
    match target {
        GitTarget::Branch(b) => FetchPlan::ShallowClone { url, reference: b, dir },
        GitTarget::Tag(t) => FetchPlan::ShallowClone { url, reference: t, dir },
        GitTarget::Rev(r) => FetchPlan::CloneAndReset { url, rev: r, dir },
    }
}

/// The directory a source resolves to.
pub open spec fn source_dir_spec(source: RepoSource, hint: Seq<char>, dest_dir: Seq<char>) -> Seq<char> {
    match source {
        RepoSource::LocalPath(p) => p@,
        RepoSource::RemoteGit { target, .. } => join_spec(dest_dir, checkout_name(hint, target)),
    }
}

/// The fetch that resolving a source makes first, if any: only a git source
/// whose directory is absent or empty is fetched.
pub open spec fn source_fetch_spec(source: RepoSource, dir: String, dir_is_absent_or_empty: bool) -> Option<FetchPlan> {
    match source {
        RepoSource::LocalPath(_) => None,
        RepoSource::RemoteGit { url, target } => if dir_is_absent_or_empty {
            Some(fetch_spec(url, target, dir))
        } else {
            None
        },
    }
}

/// Resolves one source. A local path is used as it is. A git source lives in
/// a directory of `dest_dir` named after `hint` and its target, and is
/// fetched only when that directory is absent or empty.
pub fn plan_source(source: &RepoSource, hint: &str, dest_dir: &str, dir_is_absent_or_empty: bool) -> (r:
    SourcePlan)
    ensures
        r.dir@ == source_dir_spec(*source, hint@, dest_dir@),
        r.fetch == source_fetch_spec(*source, r.dir, dir_is_absent_or_empty),
{
    match source {
        RepoSource::LocalPath(p) => SourcePlan { dir: p.clone(), fetch: None },
        RepoSource::RemoteGit { url, target } => {
            let name = checkout_dir_name(hint, target);
            let dir = join_path(dest_dir, name.as_str());
            let fetch = if dir_is_absent_or_empty {
                let d = dir.clone();
                Some(
                    match target {
                        GitTarget::Branch(b) => FetchPlan::ShallowClone {
                            url: url.clone(),
                            reference: b.clone(),
                            dir: d,
                        },
                        GitTarget::Tag(t) => FetchPlan::ShallowClone {
                            url: url.clone(),
                            reference: t.clone(),
                            dir: d,
                        },
                        GitTarget::Rev(rv) => FetchPlan::CloneAndReset {
                            url: url.clone(),
                            rev: rv.clone(),
                            dir: d,
                        },
                    },
                )
            } else {
                None
            };
            SourcePlan { dir, fetch }
        },
    }
}

/// The git invocations of a fetch, each as its argument list; a reset runs
/// inside the checkout directory.
pub fn git_invocations(plan: &FetchPlan) -> (r: Vec<Vec<String>>)
    ensures
        match *plan {
            FetchPlan::ShallowClone { url, reference, dir } => r@.len() == 1 && r@[0]@.map_values(
                |a: String| a@,
            ) == seq!["clone"@, "--depth=1"@, "--single-branch"@, "--branch"@, reference@, url@, dir@],
            FetchPlan::CloneAndReset { url, rev, dir } => r@.len() == 2 && r@[0]@.map_values(
                |a: String| a@,
            ) == seq!["clone"@, url@, dir@] && r@[1]@.map_values(|a: String| a@) == seq![
                "reset"@,
                "--hard"@,
                rev@,
            ],
        },
{
    let mut r: Vec<Vec<String>> = Vec::new();
    match plan {
        FetchPlan::ShallowClone { url, reference, dir } => {
            let args = vec![
                owned("clone"),
                owned("--depth=1"),
                owned("--single-branch"),
                owned("--branch"),
                reference.clone(),
                url.clone(),
                dir.clone(),
            ];
            assert(args@.map_values(|a: String| a@) =~= seq![
                "clone"@,
                "--depth=1"@,
                "--single-branch"@,
                "--branch"@,
                reference@,
                url@,
                dir@,
            ]);
            r.push(args);
        },
        FetchPlan::CloneAndReset { url, rev, dir } => {
            let clone = vec![owned("clone"), url.clone(), dir.clone()];
            let reset = vec![owned("reset"), owned("--hard"), rev.clone()];
            assert(clone@.map_values(|a: String| a@) =~= seq!["clone"@, url@, dir@]);
            assert(reset@.map_values(|a: String| a@) =~= seq!["reset"@, "--hard"@, rev@]);
            r.push(clone);
            r.push(reset);
        },
    }
    r
}

/// Where each of the three source trees lives once resolved.
#[derive(Debug, Clone, PartialEq, Eq)]
pub struct ResolvedSeL4Source {
    pub kernel_dir: String,
    pub tools_dir: String,
    pub util_libs_dir: String,
}

} // verus!
