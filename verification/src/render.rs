//! The template renderer: expands a kind's bundle against the plugin list.
//! Pure — filesystem staging is the mount planner's caller's concern.

use vstd::prelude::*;

verus! {

use crate::kind::Kind;
use crate::plugins::{spec_plugins, plugins, lemma_plugins_clean};
use crate::template::{spec_bundle, bundle, lemma_bundle_renders};
use crate::text::{
    join_lines, join_lines_exec, split_lines, subst_val, substitute, well_formed,
    lemma_join_split_round_trip,
};

/// One rendered configuration file: staging-relative path and expanded text.
pub struct Rendered {
    /// The path of the file, relative to the kind's staging directory.
    pub path: &'static str,
    /// The expanded file contents.
    pub text: String,
}

/// A template whose text is malformed, named by its relative path.
#[derive(Debug, Clone, Copy)]
pub struct RenderError {
    /// The staging-relative path of the offending template.
    pub path: &'static str,
}

/// The shared substitution context: the plugin list joined by newlines.
pub open spec fn spec_block() -> Seq<char> {
    join_lines(spec_plugins())
}

/// Whether every template of the kind's bundle is well formed.
pub open spec fn spec_render_ok(kind: Kind) -> bool {
    forall|i: int|
        0 <= i < spec_bundle(kind).len() ==> well_formed(#[trigger] spec_bundle(kind)[i].1)
}

/// The rendered bundle: each template expanded against the plugin block.
pub open spec fn spec_rendered(kind: Kind) -> Seq<(Seq<char>, Seq<char>)> {
    Seq::new(
        spec_bundle(kind).len(),
        |i: int| (spec_bundle(kind)[i].0, subst_val(spec_bundle(kind)[i].1, spec_block())),
    )
}

/// Whether `i` is the first malformed template of the kind's bundle.
pub open spec fn spec_first_malformed(kind: Kind, i: int) -> bool {
    &&& 0 <= i < spec_bundle(kind).len()
    &&& !well_formed(spec_bundle(kind)[i].1)
    &&& forall|j: int| 0 <= j < i ==> well_formed(#[trigger] spec_bundle(kind)[j].1)
}

/// Renders every template of the kind's bundle. The output is a function of
/// the kind alone, so two calls yield identical results. Fails exactly when
/// some template is malformed, naming the first such template's path.
pub fn render(kind: Kind) -> (r: Result<Vec<Rendered>, RenderError>)
    ensures
        r is Ok <==> spec_render_ok(kind),
        match r {
            Ok(files) => {
                &&& files@.len() == spec_rendered(kind).len()
                &&& forall|i: int|
                    0 <= i < files@.len() ==> (#[trigger] files@[i]).path@ == spec_rendered(
                        kind,
                    )[i].0 && files@[i].text@ == spec_rendered(kind)[i].1
            },
            Err(e) => exists|i: int|
                #[trigger] spec_first_malformed(kind, i) && e.path@ == spec_bundle(kind)[i].0,
        },
{
    let plug = plugins();
    let block = join_lines_exec(&plug);
    let files = bundle(kind);
    let n = files.len();
    let mut out: Vec<Rendered> = Vec::new();
    let mut i: usize = 0;
    while i < n
        invariant
            i <= n,
            n == files@.len(),
            n == spec_bundle(kind).len(),
            block@ == spec_block(),
            out@.len() == i,
            forall|k: int|
                0 <= k < n ==> (#[trigger] files@[k]).0@ == spec_bundle(kind)[k].0 && files@[k].1@
                    == spec_bundle(kind)[k].1,
            forall|k: int| 0 <= k < i ==> well_formed(#[trigger] spec_bundle(kind)[k].1),
            forall|k: int|
                0 <= k < i ==> (#[trigger] out@[k]).path@ == spec_rendered(kind)[k].0
                    && out@[k].text@ == spec_rendered(kind)[k].1,
        decreases n - i,
    {
        let entry = files[i];
        match substitute(entry.1, block.as_str()) {
            Some(text) => {
                out.push(Rendered { path: entry.0, text });
            },
            None => {
                proof {
                    assert(spec_first_malformed(kind, i as int));
                }
                return Err(RenderError { path: entry.0 });
            },
        }
        i = i + 1;
    }
    Ok(out)
}

/// Every built-in bundle renders without error.
pub proof fn lemma_render_total(kind: Kind)
    ensures
        spec_render_ok(kind),
{
    lemma_bundle_renders(kind, spec_block());
}

/// Round trip: the rendered plugin manifest holds exactly the plugin list,
/// newline-separated, in the original order, with nothing added or
/// reordered.
pub proof fn lemma_manifest_round_trip(kind: Kind)
    ensures
        spec_rendered(kind)[1].1 == spec_block(),
        split_lines(spec_rendered(kind)[1].1) =~~= spec_plugins(),
        spec_plugins().len() == 26,
{
    lemma_bundle_renders(kind, spec_block());
    lemma_plugins_clean();
    lemma_join_split_round_trip(spec_plugins());
}

} // verus!
