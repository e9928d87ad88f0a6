use zsh_bench::batch::Sweep;
use zsh_bench::command::Bench;
use zsh_bench::kind::Kind;
use zsh_bench::registry::version_cmd;
use zsh_bench::runner::{bench, run, version, Command, Invocation};

#[test]
fn version_invocation_mounts_the_plan() {
    let inv = version(Kind::Antibody, "/proj").unwrap();
    assert_eq!(inv.staged.files.len(), 2);
    assert_eq!(
        inv.build,
        vec!["build", "--tag", "zsh-plugin-manager-benchmark", "/proj"]
    );
    assert_eq!(
        inv.run,
        vec![
            "run",
            "-v",
            "/proj/results:/results",
            "-v",
            "/proj/rendered/antibody/zshrc:/root/.zshrc",
            "-v",
            "/proj/rendered/antibody/antibody/plugins.txt:/root/.antibody/plugins.txt",
            "-it",
            "zsh-plugin-manager-benchmark",
            "antibody",
            "--version",
        ]
    );
}

#[test]
fn bench_invocation_mounts_every_staged_file() {
    let inv = bench(Bench::Install, Kind::Zgen, "/proj").unwrap();
    assert_eq!(inv.staged.files.len(), 2);
    assert_eq!(inv.run[0], "run");
    assert_eq!(inv.run[1], "-v");
    assert_eq!(inv.run[2], "/proj/results:/results");
    for (i, entry) in inv.staged.files.iter().enumerate() {
        assert_eq!(inv.run[3 + 2 * i], "-v");
        assert_eq!(
            inv.run[4 + 2 * i],
            format!("/proj/{}:{}", entry.host, entry.container)
        );
    }
    let after = 3 + 2 * inv.staged.files.len();
    assert_eq!(inv.run[after], "-it");
    assert_eq!(inv.run[after + 1], "zsh-plugin-manager-benchmark");
    assert_eq!(inv.run[after + 2], "hyperfine");
    assert_eq!(*inv.run.last().unwrap(), "zsh -ic exit");
}

#[test]
fn open_shell_invocation_runs_zsh() {
    let inv = run(Kind::Zplug, "/proj").unwrap();
    assert_eq!(*inv.run.last().unwrap(), "zsh");
    assert_eq!(inv.staged.files.len(), 2);
}

#[test]
fn command_dispatch_matches_entry_points() {
    let base = "/proj";
    let via_cmd = Command::Install.run(Kind::Zinit, base);
    let direct = bench(Bench::Install, Kind::Zinit, base).unwrap();
    let via_cmd = via_cmd.unwrap();
    assert_eq!(via_cmd.run, direct.run);
    assert_eq!(via_cmd.build, direct.build);

    let v = Command::Version.run(Kind::Zinit, base).unwrap();
    let dv = version(Kind::Zinit, base).unwrap();
    assert_eq!(v.run, dv.run);
}

#[test]
fn version_sweep_visits_kinds_in_order_and_halts_on_failure() {
    // Every pass succeeds: all six kinds run, in enumeration order, each
    // with its own version command.
    let mut sweep = Sweep::new();
    let mut visited: Vec<Invocation> = Vec::new();
    let mut names: Vec<&str> = Vec::new();
    while let Some(kind) = sweep.next() {
        names.push(kind.name());
        visited.push(version(kind, "/proj").unwrap());
        sweep.advance(true);
    }
    assert_eq!(
        names,
        vec!["antibody", "antigen", "sheldon", "zgen", "zinit", "zplug"]
    );
    for (inv, kind) in visited.iter().zip(Kind::iter()) {
        let tail = &inv.run[inv.run.len() - version_cmd(kind).len()..];
        assert_eq!(tail, version_cmd(kind).as_slice());
    }

    // A failure on the third kind halts the sweep before the fourth.
    let mut sweep = Sweep::new();
    let mut names: Vec<&str> = Vec::new();
    while let Some(kind) = sweep.next() {
        names.push(kind.name());
        let ok = names.len() < 3;
        sweep.advance(ok);
    }
    assert_eq!(names, vec!["antibody", "antigen", "sheldon"]);
}
