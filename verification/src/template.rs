//! The static template bundle of each kind: a shell startup file and a
//! plugin manifest, both expanded against the shared plugin list.

use vstd::prelude::*;

verus! {

use crate::kind::Kind;
use crate::text::{well_formed, subst_val, placeholder, lemma_subst_literal, lemma_subst_placeholder};

/// The shell startup template of the given kind. It holds no brace, so it
/// renders to itself.
pub open spec fn spec_zshrc(kind: Kind) -> Seq<char> {
    match kind {
        Kind::Antibody => "#!/usr/bin/env zsh\nsource <(antibody init)\nantibody bundle < /root/.antibody/plugins.txt\n"@,
        Kind::Antigen => "#!/usr/bin/env zsh\nsource /root/antigen.zsh\nantigen init /root/.antigen-plugins.txt\nantigen apply\n"@,
        Kind::Sheldon => "#!/usr/bin/env zsh\neval \"$(sheldon source)\"\n"@,
        Kind::Zgen => "#!/usr/bin/env zsh\nsource /root/.zgen/zgen.zsh\nzgen load /root/.zgen-plugins.txt\n"@,
        Kind::Zinit => "#!/usr/bin/env zsh\nsource /root/.zinit/bin/zinit.zsh\nzinit load-list /root/.zinit-plugins.txt\n"@,
        Kind::Zplug => "#!/usr/bin/env zsh\nsource /root/.zplug/init.zsh\nzplug load\n"@,
    }
}

/// The staging-relative path of the kind's plugin manifest.
pub open spec fn spec_manifest_path(kind: Kind) -> Seq<char> {
    match kind {
        Kind::Antibody => "antibody/plugins.txt"@,
        Kind::Antigen => "antigen-plugins.txt"@,
        Kind::Sheldon => "sheldon/plugins.toml"@,
        Kind::Zgen => "zgen-plugins.txt"@,
        Kind::Zinit => "zinit-plugins.txt"@,
        Kind::Zplug => "zplug-plugins.txt"@,
    }
}

/// The template bundle of the given kind: relative path and raw template
/// text pairs. Every bundle holds the startup file first and the plugin
/// manifest second; the manifest template is the bare placeholder.
pub open spec fn spec_bundle(kind: Kind) -> Seq<(Seq<char>, Seq<char>)> {
    seq![("zshrc"@, spec_zshrc(kind)), (spec_manifest_path(kind), placeholder())]
}

/// Returns the template bundle of the given kind.
pub fn bundle(kind: Kind) -> (r: Vec<(&'static str, &'static str)>)
    ensures
        r@.len() == spec_bundle(kind).len(),
        forall|i: int|
            0 <= i < r@.len() ==> (#[trigger] r@[i]).0@ == spec_bundle(kind)[i].0 && r@[i].1@
                == spec_bundle(kind)[i].1,
{
    let mut r: Vec<(&'static str, &'static str)> = Vec::new();
    let zshrc: &'static str = match kind {
        Kind::Antibody => "#!/usr/bin/env zsh\nsource <(antibody init)\nantibody bundle < /root/.antibody/plugins.txt\n",
        Kind::Antigen => "#!/usr/bin/env zsh\nsource /root/antigen.zsh\nantigen init /root/.antigen-plugins.txt\nantigen apply\n",
        Kind::Sheldon => "#!/usr/bin/env zsh\neval \"$(sheldon source)\"\n",
        Kind::Zgen => "#!/usr/bin/env zsh\nsource /root/.zgen/zgen.zsh\nzgen load /root/.zgen-plugins.txt\n",
        Kind::Zinit => "#!/usr/bin/env zsh\nsource /root/.zinit/bin/zinit.zsh\nzinit load-list /root/.zinit-plugins.txt\n",
        Kind::Zplug => "#!/usr/bin/env zsh\nsource /root/.zplug/init.zsh\nzplug load\n",
    };
    let manifest: &'static str = match kind {
        Kind::Antibody => "antibody/plugins.txt",
        Kind::Antigen => "antigen-plugins.txt",
        Kind::Sheldon => "sheldon/plugins.toml",
        Kind::Zgen => "zgen-plugins.txt",
        Kind::Zinit => "zinit-plugins.txt",
        Kind::Zplug => "zplug-plugins.txt",
    };
    r.push(("zshrc", zshrc));
    r.push((manifest, "{{ plugins }}"));
    r
}

/// Every built-in template is well formed; the startup file renders to
/// itself and the manifest renders to the substituted block.
pub proof fn lemma_bundle_renders(kind: Kind, block: Seq<char>)
    ensures
        forall|i: int|
            0 <= i < spec_bundle(kind).len() ==> well_formed(
                #[trigger] spec_bundle(kind)[i].1,
            ),
        subst_val(spec_bundle(kind)[0].1, block) == spec_zshrc(kind),
        subst_val(spec_bundle(kind)[1].1, block) == block,
{
    reveal_strlit("#!/usr/bin/env zsh\nsource <(antibody init)\nantibody bundle < /root/.antibody/plugins.txt\n");
    reveal_strlit("#!/usr/bin/env zsh\nsource /root/antigen.zsh\nantigen init /root/.antigen-plugins.txt\nantigen apply\n");
    reveal_strlit("#!/usr/bin/env zsh\neval \"$(sheldon source)\"\n");
    reveal_strlit("#!/usr/bin/env zsh\nsource /root/.zgen/zgen.zsh\nzgen load /root/.zgen-plugins.txt\n");
    reveal_strlit("#!/usr/bin/env zsh\nsource /root/.zinit/bin/zinit.zsh\nzinit load-list /root/.zinit-plugins.txt\n");
    reveal_strlit("#!/usr/bin/env zsh\nsource /root/.zplug/init.zsh\nzplug load\n");
    let z = spec_zshrc(kind);
    assert(forall|j: int| 0 <= j < z.len() ==> z[j] != '{');
    lemma_subst_literal(z);
    lemma_subst_placeholder(block);
    assert(subst_val(z, block) =~= z);
}

} // verus!
