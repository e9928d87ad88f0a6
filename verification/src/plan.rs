//! The mount planner: places each rendered file at a kind-scoped staging
//! path and derives its in-container destination.

use vstd::prelude::*;

verus! {

use vstd::string::StringExecFns;
use crate::kind::Kind;
use crate::render::{Rendered, RenderError, render, spec_render_ok, spec_rendered, spec_first_malformed};
use crate::template::spec_bundle;

/// One file to stage: where it lives on the host, where it is mounted in
/// the container, and what it holds.
pub struct StagedFile {
    /// The host path, relative to the project directory.
    pub host: String,
    /// The in-container destination path.
    pub container: String,
    /// The file contents.
    pub text: String,
}

/// The staged-file plan of one kind: the full set of files to write and
/// mount for one container run.
pub struct Builder {
    /// The staged files, one per rendered file, in render order.
    pub files: Vec<StagedFile>,
}

/// The staging directory of the given kind, relative to the project
/// directory; kinds never share staging paths.
pub open spec fn spec_staging_dir(kind: Kind) -> Seq<char> {
    "rendered/"@ + kind.spec_name() + "/"@
}

/// The host staging path of a rendered file of the given kind.
pub open spec fn spec_host_path(kind: Kind, rel: Seq<char>) -> Seq<char> {
    spec_staging_dir(kind) + rel
}

/// The in-container destination: the home directory joined with the
/// dot-prefixed relative path.
pub open spec fn spec_container_path(rel: Seq<char>) -> Seq<char> {
    "/root/."@ + rel
}

/// The plan of the given kind: host path, container path and contents of
/// each rendered file, in render order.
pub open spec fn spec_plan(kind: Kind) -> Seq<(Seq<char>, Seq<char>, Seq<char>)> {
    Seq::new(
        spec_rendered(kind).len(),
        |i: int|
            (
                spec_host_path(kind, spec_rendered(kind)[i].0),
                spec_container_path(spec_rendered(kind)[i].0),
                spec_rendered(kind)[i].1,
            ),
    )
}

/// Whether the builder holds exactly the plan of the given kind.
pub open spec fn spec_plan_matches(b: Builder, kind: Kind) -> bool {
    &&& b.files@.len() == spec_plan(kind).len()
    &&& forall|i: int|
        0 <= i < b.files@.len() ==> (#[trigger] b.files@[i]).host@ == spec_plan(kind)[i].0
            && b.files@[i].container@ == spec_plan(kind)[i].1 && b.files@[i].text@ == spec_plan(
            kind,
        )[i].2
}

/// Plans the staging of the given kind. The plan is a function of the kind
/// alone: two runs yield the same plan, and the planned file set is exactly
/// the current render's files, so re-staging from a clean slate never
/// accumulates stale entries.
pub fn plan(kind: Kind) -> (r: Result<Builder, RenderError>)
    ensures
        r is Ok <==> spec_render_ok(kind),
        match r {
            Ok(b) => spec_plan_matches(b, kind),
            Err(e) => exists|i: int|
                #[trigger] spec_first_malformed(kind, i) && e.path@ == spec_bundle(kind)[i].0,
        },
{
    let rendered = match render(kind) {
        Ok(files) => files,
        Err(e) => {
            return Err(e);
        },
    };
    let n = rendered.len();
    let mut files: Vec<StagedFile> = Vec::new();
    let mut i: usize = 0;
    while i < n
        invariant
            i <= n,
            n == rendered@.len(),
            n == spec_rendered(kind).len(),
            files@.len() == i,
            forall|k: int|
                0 <= k < n ==> (#[trigger] rendered@[k]).path@ == spec_rendered(kind)[k].0
                    && rendered@[k].text@ == spec_rendered(kind)[k].1,
            forall|k: int|
                0 <= k < i ==> (#[trigger] files@[k]).host@ == spec_plan(kind)[k].0
                    && files@[k].container@ == spec_plan(kind)[k].1 && files@[k].text@
                    == spec_plan(kind)[k].2,
        decreases n - i,
    {
        let rel: &'static str = rendered[i].path;
        let mut host = String::from_str("rendered/");
        host.append(kind.name());
        host.append("/");
        host.append(rel);
        let mut container = String::from_str("/root/.");
        container.append(rel);
        let text = rendered[i].text.clone();
        files.push(StagedFile { host, container, text });
        i = i + 1;
    }
    Ok(Builder { files })
}

/// Mount-path derivation is bijective: distinct relative paths always map
/// to distinct container paths, and distinct host paths.
pub proof fn lemma_mount_paths_injective(kind: Kind, a: Seq<char>, b: Seq<char>)
    requires
        a != b,
    ensures
        spec_container_path(a) != spec_container_path(b),
        spec_host_path(kind, a) != spec_host_path(kind, b),
{
    lemma_prefix_cancel("/root/."@, a, b);
    lemma_prefix_cancel(spec_staging_dir(kind), a, b);
}

/// Staging is scoped by kind: distinct kinds never share a staging
/// directory, so their staged files never collide.
pub proof fn lemma_staging_dirs_distinct(a: Kind, b: Kind)
    requires
        a != b,
    ensures
        spec_staging_dir(a) != spec_staging_dir(b),
{
    crate::kind::lemma_kind_names_injective(a, b);
    let na = a.spec_name();
    let nb = b.spec_name();
    if spec_staging_dir(a) == spec_staging_dir(b) {
        assert(spec_staging_dir(a).len() == "rendered/"@.len() + na.len() + "/"@.len());
        assert(spec_staging_dir(b).len() == "rendered/"@.len() + nb.len() + "/"@.len());
        assert(na.len() == nb.len());
        assert forall|j: int| 0 <= j < na.len() implies na[j] == nb[j] by {
            assert(spec_staging_dir(a)["rendered/"@.len() + j] == na[j]);
            assert(spec_staging_dir(b)["rendered/"@.len() + j] == nb[j]);
        }
        assert(na =~= nb);
    }
}

/// Appending distinct suffixes to one prefix gives distinct texts.
proof fn lemma_prefix_cancel(p: Seq<char>, a: Seq<char>, b: Seq<char>)
    requires
        a != b,
    ensures
        p + a != p + b,
{
    if p + a == p + b {
        assert((p + a).len() == (p + b).len());
        assert(a.len() == b.len());
        assert forall|j: int| 0 <= j < a.len() implies a[j] == b[j] by {
            assert((p + a)[p.len() + j] == a[j]);
            assert((p + b)[p.len() + j] == b[j]);
        }
        assert(a =~= b);
    }
}

/// Every rendered file of a kind yields exactly one plan entry, and the
/// entries' container and host paths are pairwise distinct.
pub proof fn lemma_plan_bijective(kind: Kind)
    ensures
        spec_plan(kind).len() == spec_rendered(kind).len(),
        forall|i: int, j: int|
            0 <= i < j < spec_plan(kind).len() ==> (#[trigger] spec_plan(kind)[i]).1 != (
            #[trigger] spec_plan(kind)[j]).1 && spec_plan(kind)[i].0 != spec_plan(kind)[j].0,
{
    reveal_strlit("zshrc");
    reveal_strlit("antibody/plugins.txt");
    reveal_strlit("antigen-plugins.txt");
    reveal_strlit("sheldon/plugins.toml");
    reveal_strlit("zgen-plugins.txt");
    reveal_strlit("zinit-plugins.txt");
    reveal_strlit("zplug-plugins.txt");
    assert forall|i: int, j: int|
        0 <= i < j < spec_plan(kind).len() implies (#[trigger] spec_plan(kind)[i]).1 != (
    #[trigger] spec_plan(kind)[j]).1 && spec_plan(kind)[i].0 != spec_plan(kind)[j].0 by {
        assert(spec_plan(kind).len() == 2);
        assert(i == 0 && j == 1);
        let r0 = spec_rendered(kind)[0].0;
        let r1 = spec_rendered(kind)[1].0;
        assert(r0.len() == 5);
        assert(r1.len() >= 16);
        lemma_mount_paths_injective(kind, r0, r1);
    }
}

} // verus!
