//! Builds the external benchmark-tool invocation per mode and kind.

use vstd::prelude::*;

verus! {

use vstd::string::StringExecFns;
use crate::kind::{Kind, lemma_kind_names_injective};
use crate::registry::{spec_prepare_cmd, prepare_cmd, lemma_prepare_cmd_nonempty};

/// What to benchmark.
#[derive(Debug, Clone, Copy, PartialEq, Eq, Structural)]
pub enum Bench {
    /// Benchmark the 'install' step.
    Install,
    /// Benchmark the 'load' step.
    Load,
    /// Benchmark the 'load' step with deferred loading.
    Defer,
}

/// The mode tag used in the report name; load and defer share one report
/// family.
pub open spec fn spec_mode_tag(bench: Bench) -> Seq<char> {
    match bench {
        Bench::Install => "install"@,
        Bench::Load => "load"@,
        Bench::Defer => "load"@,
    }
}

/// The in-container path of the timing report for the given mode and kind.
pub open spec fn spec_export_path(bench: Bench, kind: Kind) -> Seq<char> {
    "/results/"@ + spec_mode_tag(bench) + "-"@ + kind.spec_name() + ".json"@
}

/// The command whose timing is measured: start an interactive shell and
/// exit at once, with the deferred-loading override in defer mode.
pub open spec fn spec_measured_cmd(bench: Bench) -> Seq<char> {
    match bench {
        Bench::Defer => "DEFER=true zsh -ic exit"@,
        _ => "zsh -ic exit"@,
    }
}

/// The full benchmark-tool invocation for the given mode and kind.
pub open spec fn spec_bench_cmd(bench: Bench, kind: Kind) -> Seq<Seq<char>> {
    match bench {
        Bench::Install => seq![
            "hyperfine"@,
            "--prepare"@,
            spec_prepare_cmd(kind),
            "--warmup"@,
            "3"@,
            "--export-json"@,
            spec_export_path(bench, kind),
            spec_measured_cmd(bench),
        ],
        _ => seq![
            "hyperfine"@,
            "--warmup"@,
            "3"@,
            "--export-json"@,
            spec_export_path(bench, kind),
            spec_measured_cmd(bench),
        ],
    }
}

/// Returns the report path for the given mode and kind.
pub fn export_path(bench: Bench, kind: Kind) -> (r: String)
    ensures
        r@ == spec_export_path(bench, kind),
{
    let mut r = String::from_str("/results/");
    match bench {
        Bench::Install => r.append("install"),
        Bench::Load => r.append("load"),
        Bench::Defer => r.append("load"),
    }
    r.append("-");
    r.append(kind.name());
    r.append(".json");
    r
}

/// Returns the benchmark command for the given mode and kind.
pub fn bench_cmd(bench: Bench, kind: Kind) -> (r: Vec<String>)
    ensures
        r.deep_view() == spec_bench_cmd(bench, kind),
{
    let mut r: Vec<String> = Vec::new();
    r.push(String::from_str("hyperfine"));
    if matches!(bench, Bench::Install) {
        r.push(String::from_str("--prepare"));
        r.push(String::from_str(prepare_cmd(kind)));
    }
    r.push(String::from_str("--warmup"));
    r.push(String::from_str("3"));
    r.push(String::from_str("--export-json"));
    r.push(export_path(bench, kind));
    match bench {
        Bench::Defer => r.push(String::from_str("DEFER=true zsh -ic exit")),
        _ => r.push(String::from_str("zsh -ic exit")),
    }
    proof {
        assert(r.deep_view() =~~= spec_bench_cmd(bench, kind));
    }
    r
}

/// An install-mode command always carries `--prepare` followed by that
/// kind's non-empty prepare command, and measures the plain shell startup.
pub proof fn lemma_install_cmd_shape(kind: Kind)
    ensures
        spec_bench_cmd(Bench::Install, kind)[1] == "--prepare"@,
        spec_bench_cmd(Bench::Install, kind)[2] == spec_prepare_cmd(kind),
        spec_prepare_cmd(kind).len() > 0,
        spec_bench_cmd(Bench::Install, kind).last() == "zsh -ic exit"@,
{
    lemma_prepare_cmd_nonempty(kind);
}

/// A load- or defer-mode command never carries `--prepare`.
pub proof fn lemma_no_prepare_outside_install(bench: Bench, kind: Kind)
    requires
        bench != Bench::Install,
    ensures
        forall|i: int|
            0 <= i < spec_bench_cmd(bench, kind).len()
                ==> #[trigger] spec_bench_cmd(bench, kind)[i] != "--prepare"@,
{
    reveal_strlit("--prepare");
    reveal_strlit("hyperfine");
    reveal_strlit("--warmup");
    reveal_strlit("3");
    reveal_strlit("--export-json");
    reveal_strlit("/results/");
    reveal_strlit("zsh -ic exit");
    reveal_strlit("DEFER=true zsh -ic exit");
    let cmd = spec_bench_cmd(bench, kind);
    assert(cmd.len() == 6);
    assert("hyperfine"@[0] == 'h' && "--prepare"@[0] == '-');
    assert("--warmup"@.len() == 8 && "--prepare"@.len() == 9);
    assert("3"@.len() == 1);
    assert("--export-json"@.len() == 13);
    assert(spec_export_path(bench, kind)[0] == '/');
    assert(spec_measured_cmd(bench)[0] == 'z' || spec_measured_cmd(bench)[0] == 'D');
}

/// The defer-mode measured command is exactly the deferred-loading override
/// placed immediately before the shell startup; the load-mode one is the
/// bare shell startup, with no such prefix.
pub proof fn lemma_measured_cmd_defer_prefix()
    ensures
        spec_measured_cmd(Bench::Defer) == "DEFER=true "@ + "zsh -ic exit"@,
        spec_measured_cmd(Bench::Load) == "zsh -ic exit"@,
        spec_measured_cmd(Bench::Load).subrange(0, 11) != "DEFER=true "@,
{
    reveal_strlit("DEFER=true zsh -ic exit");
    reveal_strlit("DEFER=true ");
    reveal_strlit("zsh -ic exit");
    assert(spec_measured_cmd(Bench::Defer) =~= "DEFER=true "@ + "zsh -ic exit"@);
    assert("zsh -ic exit"@.subrange(0, 11)[0] == 'z' && "DEFER=true "@[0] == 'D');
}

/// Report paths differ whenever the kinds differ or the mode tags differ;
/// load and defer share a tag and hence a report path.
pub proof fn lemma_export_path_unique(b1: Bench, k1: Kind, b2: Bench, k2: Kind)
    requires
        k1 != k2 || spec_mode_tag(b1) != spec_mode_tag(b2),
    ensures
        spec_export_path(b1, k1) != spec_export_path(b2, k2),
{
    reveal_strlit("/results/");
    reveal_strlit("install");
    reveal_strlit("load");
    reveal_strlit("-");
    reveal_strlit(".json");
    let p1 = spec_export_path(b1, k1);
    let p2 = spec_export_path(b2, k2);
    if spec_mode_tag(b1) != spec_mode_tag(b2) {
        assert(p1[13] == 'a' || p2[13] == 'a');
        assert(p1[13] == '-' || p2[13] == '-');
        assert(p1[13] != p2[13]);
    } else {
        lemma_kind_names_injective(k1, k2);
        let head = "/results/"@ + spec_mode_tag(b1) + "-"@;
        let n1 = k1.spec_name();
        let n2 = k2.spec_name();
        if p1 == p2 {
            assert(p1 == head + n1 + ".json"@);
            assert(spec_mode_tag(b1) == spec_mode_tag(b2));
            assert(p2 == head + n2 + ".json"@);
            assert(p1.len() == head.len() + n1.len() + ".json"@.len());
            assert(p2.len() == head.len() + n2.len() + ".json"@.len());
            assert(n1.len() == n2.len());
            assert forall|j: int| 0 <= j < n1.len() implies n1[j] == n2[j] by {
                assert(p1[head.len() + j] == n1[j]);
                assert(p2[head.len() + j] == n2[j]);
            }
            assert(n1 =~= n2);
        }
    }
}

} // verus!
