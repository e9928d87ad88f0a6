//! The runner: composes staging plan, image build and container run into
//! one invocation description per action. An unverified front end executes
//! the described processes.

use vstd::prelude::*;

verus! {

use vstd::string::StringExecFns;
use crate::command::{Bench, spec_bench_cmd, bench_cmd};
use crate::kind::Kind;
use crate::plan::{Builder, plan, spec_plan, spec_plan_matches};
use crate::registry::{spec_version_cmd, version_cmd};
use crate::render::{RenderError, spec_render_ok, spec_first_malformed};
use crate::template::spec_bundle;

/// One full container action: the files to stage, the image-build argument
/// list, and the container-run argument list, both after the runtime name.
pub struct Invocation {
    /// The staged-file plan; written to disk before the run.
    pub staged: Builder,
    /// The image-build arguments.
    pub build: Vec<String>,
    /// The container-run arguments.
    pub run: Vec<String>,
}

/// The fixed image tag.
pub open spec fn spec_image_tag() -> Seq<char> {
    "zsh-plugin-manager-benchmark"@
}

/// The image-build argument list for a project directory.
pub open spec fn spec_build_argv(base: Seq<char>) -> Seq<Seq<char>> {
    seq!["build"@, "--tag"@, spec_image_tag(), base]
}

/// The volume argument of one staged file: `base/host:container`.
pub open spec fn spec_mount_arg(base: Seq<char>, f: (Seq<char>, Seq<char>, Seq<char>)) -> Seq<
    char,
> {
    base + "/"@ + f.0 + ":"@ + f.1
}

/// The volume argument pairs of a staged-file plan, in plan order.
pub open spec fn spec_mount_args(
    base: Seq<char>,
    files: Seq<(Seq<char>, Seq<char>, Seq<char>)>,
) -> Seq<Seq<char>>
    decreases files.len(),
{
    if files.len() == 0 {
        Seq::empty()
    } else {
        seq!["-v"@, spec_mount_arg(base, files[0])] + spec_mount_args(base, files.drop_first())
    }
}

/// The container-run argument list: the fixed results bind, the plan's
/// volume arguments, the interactive flags, the image tag and the command.
pub open spec fn spec_run_argv(
    base: Seq<char>,
    mounts: Seq<Seq<char>>,
    cmd: Seq<Seq<char>>,
) -> Seq<Seq<char>> {
    seq!["run"@, "-v"@, base + "/results:/results"@] + mounts + seq!["-it"@, spec_image_tag()]
        + cmd
}

/// Returns the image-build arguments for the given project directory.
pub fn build_argv(base: &str) -> (r: Vec<String>)
    ensures
        r.deep_view() == spec_build_argv(base@),
{
    let mut r: Vec<String> = Vec::new();
    r.push(String::from_str("build"));
    r.push(String::from_str("--tag"));
    r.push(String::from_str("zsh-plugin-manager-benchmark"));
    r.push(String::from_str(base));
    proof {
        assert(r.deep_view() =~~= spec_build_argv(base@));
    }
    r
}

/// Returns the volume argument pairs of the given plan.
fn mount_args(base: &str, b: &Builder, Ghost(kind): Ghost<Kind>) -> (r: Vec<String>)
    requires
        spec_plan_matches(*b, kind),
    ensures
        r.deep_view() == spec_mount_args(base@, spec_plan(kind)),
{
    let ghost files = spec_plan(kind);
    let n = b.files.len();
    let mut r: Vec<String> = Vec::new();
    let mut i: usize = 0;
    proof {
        assert(files.skip(0) =~= files);
    }
    while i < n
        invariant
            i <= n,
            n == b.files@.len(),
            spec_plan_matches(*b, kind),
            files == spec_plan(kind),
            spec_mount_args(base@, files) =~~= r.deep_view() + spec_mount_args(
                base@,
                files.skip(i as int),
            ),
        decreases n - i,
    {
        let ghost tail = files.skip(i as int);
        let mut arg = String::from_str(base);
        arg.append("/");
        arg.append(b.files[i].host.as_str());
        arg.append(":");
        arg.append(b.files[i].container.as_str());
        proof {
            assert(tail[0] == files[i as int]);
            assert(arg@ == spec_mount_arg(base@, files[i as int]));
            assert(tail.drop_first() =~= files.skip(i + 1));
            assert(spec_mount_args(base@, tail) =~= seq!["-v"@, spec_mount_arg(base@, tail[0])]
                + spec_mount_args(base@, files.skip(i + 1)));
        }
        r.push(String::from_str("-v"));
        r.push(arg);
        proof {
            assert(spec_mount_args(base@, files) =~~= r.deep_view() + spec_mount_args(
                base@,
                files.skip(i + 1),
            ));
        }
        i = i + 1;
    }
    proof {
        assert(files.skip(n as int) =~= Seq::<(Seq<char>, Seq<char>, Seq<char>)>::empty());
        assert(r.deep_view() =~~= spec_mount_args(base@, spec_plan(kind)));
    }
    r
}

/// Returns the container-run arguments around the given command.
fn run_argv(base: &str, mounts: Vec<String>, cmd: Vec<String>) -> (r: Vec<String>)
    ensures
        r.deep_view() == spec_run_argv(base@, mounts.deep_view(), cmd.deep_view()),
{
    let mut r: Vec<String> = Vec::new();
    push_arg(&mut r, "run");
    push_arg(&mut r, "-v");
    let mut bind = String::from_str(base);
    bind.append("/results:/results");
    push_string(&mut r, bind);
    append_all(&mut r, &mounts);
    push_arg(&mut r, "-it");
    push_arg(&mut r, "zsh-plugin-manager-benchmark");
    append_all(&mut r, &cmd);
    proof {
        assert(r.deep_view() =~~= spec_run_argv(base@, mounts.deep_view(), cmd.deep_view()));
    }
    r
}

/// Pushes one literal argument, tracking the deep view.
fn push_arg(to: &mut Vec<String>, s: &str)
    ensures
        final(to).deep_view() == old(to).deep_view() + seq![s@],
{
    push_string(to, String::from_str(s));
}

/// Pushes one owned argument, tracking the deep view.
fn push_string(to: &mut Vec<String>, s: String)
    ensures
        final(to).deep_view() == old(to).deep_view() + seq![s@],
{
    let ghost prevv = to@;
    let ghost prevd = to.deep_view();
    let ghost sv = s@;
    to.push(s);
    proof {
        assert forall|j: int| 0 <= j < prevd.len() implies to.deep_view()[j] == prevd[j] by {
            assert(to@[j] == prevv[j]);
        }
        assert(to.deep_view()[prevd.len() as int] == sv);
        assert(to.deep_view() =~~= prevd + seq![sv]);
    }
}

/// Copies every element of `from` onto the end of `to`.
fn append_all(to: &mut Vec<String>, from: &Vec<String>)
    ensures
        final(to).deep_view() == old(to).deep_view() + from.deep_view(),
{
    let n = from.len();
    let ghost base = to.deep_view();
    let mut i: usize = 0;
    while i < n
        invariant
            i <= n,
            n == from@.len(),
            to.deep_view() =~~= base + from.deep_view().take(i as int),
        decreases n - i,
    {
        let ghost prevv = to@;
        let ghost prevd = to.deep_view();
        let item = from[i].clone();
        proof {
            assert(item@ == from.deep_view()[i as int]);
        }
        to.push(item);
        proof {
            assert(to@ =~= prevv.push(item));
            assert forall|j: int| 0 <= j < prevd.len() implies to.deep_view()[j] == prevd[j] by {
                assert(to@[j] == prevv[j]);
            }
            assert(to.deep_view()[prevd.len() as int] == item@);
            assert(to.deep_view() =~~= prevd + seq![item@]);
            assert(from.deep_view().take(i + 1) =~~= from.deep_view().take(i as int)
                + seq![from.deep_view()[i as int]]);
            assert(to.deep_view() =~~= base + from.deep_view().take(i + 1));
        }
        i = i + 1;
    }
    proof {
        assert(from.deep_view().take(n as int) =~~= from.deep_view());
        assert(to.deep_view() =~~= base + from.deep_view());
    }
}

/// Whether the invocation stages the kind's plan, builds the image from the
/// project directory, and runs the given command over the plan's mounts.
pub open spec fn spec_invocation_matches(
    inv: Invocation,
    kind: Kind,
    base: Seq<char>,
    cmd: Seq<Seq<char>>,
) -> bool {
    &&& spec_plan_matches(inv.staged, kind)
    &&& inv.build.deep_view() == spec_build_argv(base)
    &&& inv.run.deep_view() == spec_run_argv(base, spec_mount_args(base, spec_plan(kind)), cmd)
}

/// Composes the benchmark action for the given mode and kind: stage the
/// kind's rendered files, build the image, run the benchmark command.
pub fn bench(mode: Bench, kind: Kind, base: &str) -> (r: Result<Invocation, RenderError>)
    ensures
        r is Ok <==> spec_render_ok(kind),
        match r {
            Ok(inv) => spec_invocation_matches(inv, kind, base@, spec_bench_cmd(mode, kind)),
            Err(e) => exists|i: int|
                #[trigger] spec_first_malformed(kind, i) && e.path@ == spec_bundle(kind)[i].0,
        },
{
    let staged = match plan(kind) {
        Ok(b) => b,
        Err(e) => {
            return Err(e);
        },
    };
    let cmd = bench_cmd(mode, kind);
    let build = build_argv(base);
    let mounts = mount_args(base, &staged, Ghost(kind));
    let run = run_argv(base, mounts, cmd);
    Ok(Invocation { staged, build, run })
}

/// Composes the open-shell action: stage, build, and run a plain
/// interactive shell.
pub fn run(kind: Kind, base: &str) -> (r: Result<Invocation, RenderError>)
    ensures
        r is Ok <==> spec_render_ok(kind),
        match r {
            Ok(inv) => spec_invocation_matches(inv, kind, base@, seq!["zsh"@]),
            Err(e) => exists|i: int|
                #[trigger] spec_first_malformed(kind, i) && e.path@ == spec_bundle(kind)[i].0,
        },
{
    let staged = match plan(kind) {
        Ok(b) => b,
        Err(e) => {
            return Err(e);
        },
    };
    let mut cmd: Vec<String> = Vec::new();
    cmd.push(String::from_str("zsh"));
    proof {
        assert(cmd.deep_view() =~~= seq!["zsh"@]);
    }
    let build = build_argv(base);
    let mounts = mount_args(base, &staged, Ghost(kind));
    let run = run_argv(base, mounts, cmd);
    Ok(Invocation { staged, build, run })
}

/// Composes the version action: stage the kind's rendered files, build the
/// image, and run the kind's registry-defined version command, unchanged
/// and unwrapped, over the plan's mounts.
pub fn version(kind: Kind, base: &str) -> (r: Result<Invocation, RenderError>)
    ensures
        r is Ok <==> spec_render_ok(kind),
        match r {
            Ok(inv) => spec_invocation_matches(inv, kind, base@, spec_version_cmd(kind)),
            Err(e) => exists|i: int|
                #[trigger] spec_first_malformed(kind, i) && e.path@ == spec_bundle(kind)[i].0,
        },
{
    let staged = match plan(kind) {
        Ok(b) => b,
        Err(e) => {
            return Err(e);
        },
    };
    let cmd_parts = version_cmd(kind);
    let mut cmd: Vec<String> = Vec::new();
    let n = cmd_parts.len();
    let mut i: usize = 0;
    while i < n
        invariant
            i <= n,
            n == cmd_parts@.len(),
            cmd_parts.deep_view() == spec_version_cmd(kind),
            cmd.deep_view() =~~= cmd_parts.deep_view().take(i as int),
        decreases n - i,
    {
        cmd.push(String::from_str(cmd_parts[i]));
        proof {
            assert(cmd_parts.deep_view().take(i + 1) =~~= cmd_parts.deep_view().take(i as int)
                + seq![cmd_parts.deep_view()[i as int]]);
        }
        i = i + 1;
    }
    proof {
        assert(cmd.deep_view() =~~= spec_version_cmd(kind));
    }
    let build = build_argv(base);
    let mounts = mount_args(base, &staged, Ghost(kind));
    let run = run_argv(base, mounts, cmd);
    Ok(Invocation { staged, build, run })
}

/// The action selected by the front end.
#[derive(Debug, Clone, Copy, PartialEq, Eq, Structural)]
pub enum Command {
    /// Benchmark the 'install' step.
    Install,
    /// Benchmark the 'load' step.
    Load,
    /// Benchmark the 'load' step with deferred loading.
    Defer,
    /// Open a shell with a particular plugin manager.
    Run,
    /// Output the version of the plugin manager.
    Version,
}

impl Command {
    /// Composes this action's invocation for one kind: the benchmark of the
    /// matching mode, a plain shell, or the kind's version query.
    pub fn run(&self, kind: Kind, base: &str) -> (r: Result<Invocation, RenderError>)
        ensures
            r is Ok <==> spec_render_ok(kind),
            match r {
                Ok(inv) => match *self {
                    Command::Install => spec_invocation_matches(
                        inv,
                        kind,
                        base@,
                        spec_bench_cmd(Bench::Install, kind),
                    ),
                    Command::Load => spec_invocation_matches(
                        inv,
                        kind,
                        base@,
                        spec_bench_cmd(Bench::Load, kind),
                    ),
                    Command::Defer => spec_invocation_matches(
                        inv,
                        kind,
                        base@,
                        spec_bench_cmd(Bench::Defer, kind),
                    ),
                    Command::Run => spec_invocation_matches(inv, kind, base@, seq!["zsh"@]),
                    Command::Version => spec_invocation_matches(
                        inv,
                        kind,
                        base@,
                        spec_version_cmd(kind),
                    ),
                },
                Err(e) => exists|i: int|
                    #[trigger] spec_first_malformed(kind, i) && e.path@ == spec_bundle(kind)[i].0,
            },
    {
        match self {
            Command::Install => bench(Bench::Install, kind, base),
            Command::Load => bench(Bench::Load, kind, base),
            Command::Defer => bench(Bench::Defer, kind, base),
            Command::Run => run(kind, base),
            Command::Version => version(kind, base),
        }
    }
}

} // verus!
