//! Static per-kind registry: prepare and version-query commands.

use vstd::prelude::*;

verus! {

use crate::kind::Kind;

/// The shell command that resets the given tool's on-disk state to a
/// pristine pre-install condition.
pub open spec fn spec_prepare_cmd(kind: Kind) -> Seq<char> {
    match kind {
        Kind::Antibody => "rm -rf /root/.cache/antibody"@,
        Kind::Antigen => "rm -rf /root/.antigen"@,
        Kind::Sheldon => "find /root/.sheldon -mindepth 1 -maxdepth 1 ! -name \"plugins*.toml\" -exec rm -rf {} \\;"@,
        Kind::Zgen => "git -C /root/.zgen clean -dffx"@,
        Kind::Zinit => "find /root/.zinit -mindepth 1 -maxdepth 1 ! -name \"bin\" -exec rm -rf {} \\;"@,
        Kind::Zplug => "rm -rf /root/.zplug/repos"@,
    }
}

/// Returns the hyperfine prepare command for the given kind.
pub fn prepare_cmd(kind: Kind) -> (r: &'static str)
    ensures
        r@ == spec_prepare_cmd(kind),
{
    match kind {
        Kind::Antibody => "rm -rf /root/.cache/antibody",
        Kind::Antigen => "rm -rf /root/.antigen",
        Kind::Sheldon => "find /root/.sheldon -mindepth 1 -maxdepth 1 ! -name \"plugins*.toml\" -exec rm -rf {} \\;",
        Kind::Zgen => "git -C /root/.zgen clean -dffx",
        Kind::Zinit => "find /root/.zinit -mindepth 1 -maxdepth 1 ! -name \"bin\" -exec rm -rf {} \\;",
        Kind::Zplug => "rm -rf /root/.zplug/repos",
    }
}

/// Every prepare command is non-empty.
pub proof fn lemma_prepare_cmd_nonempty(kind: Kind)
    ensures
        spec_prepare_cmd(kind).len() > 0,
{
    reveal_strlit("rm -rf /root/.cache/antibody");
    reveal_strlit("rm -rf /root/.antigen");
    reveal_strlit("find /root/.sheldon -mindepth 1 -maxdepth 1 ! -name \"plugins*.toml\" -exec rm -rf {} \\;");
    reveal_strlit("git -C /root/.zgen clean -dffx");
    reveal_strlit("find /root/.zinit -mindepth 1 -maxdepth 1 ! -name \"bin\" -exec rm -rf {} \\;");
    reveal_strlit("rm -rf /root/.zplug/repos");
}

/// The command whose standard output reveals the tool's installed version.
pub open spec fn spec_version_cmd(kind: Kind) -> Seq<Seq<char>> {
    match kind {
        Kind::Antibody => seq!["antibody"@, "--version"@],
        Kind::Antigen => seq!["zsh"@, "-c"@, "source /root/antigen.zsh && antigen-version"@],
        Kind::Sheldon => seq!["sheldon"@, "--version"@],
        Kind::Zgen => seq!["git"@, "-C"@, "/root/.zgen"@, "rev-parse"@, "--short"@, "HEAD"@],
        Kind::Zinit => seq![
            "git"@,
            "-C"@,
            "/root/.zinit/bin"@,
            "rev-parse"@,
            "--short"@,
            "HEAD"@,
        ],
        Kind::Zplug => seq!["git"@, "-C"@, "/root/.zplug"@, "rev-parse"@, "--short"@, "HEAD"@],
    }
}

/// Returns the version command for the given kind.
pub fn version_cmd(kind: Kind) -> (r: Vec<&'static str>)
    ensures
        r.deep_view() == spec_version_cmd(kind),
{
    let mut r: Vec<&'static str> = Vec::new();
    match kind {
        Kind::Antibody => {
            r.push("antibody");
            r.push("--version");
        },
        Kind::Antigen => {
            r.push("zsh");
            r.push("-c");
            r.push("source /root/antigen.zsh && antigen-version");
        },
        Kind::Sheldon => {
            r.push("sheldon");
            r.push("--version");
        },
        Kind::Zgen => {
            r.push("git");
            r.push("-C");
            r.push("/root/.zgen");
            r.push("rev-parse");
            r.push("--short");
            r.push("HEAD");
        },
        Kind::Zinit => {
            r.push("git");
            r.push("-C");
            r.push("/root/.zinit/bin");
            r.push("rev-parse");
            r.push("--short");
            r.push("HEAD");
        },
        Kind::Zplug => {
            r.push("git");
            r.push("-C");
            r.push("/root/.zplug");
            r.push("rev-parse");
            r.push("--short");
            r.push("HEAD");
        },
    }
    proof {
        assert(r.deep_view() =~~= spec_version_cmd(kind));
    }
    r
}

} // verus!
