use zsh_bench::command::{bench_cmd, export_path, Bench};
use zsh_bench::kind::Kind;
use zsh_bench::registry::prepare_cmd;

fn all_kinds() -> Vec<Kind> {
    Kind::iter()
}

#[test]
fn install_includes_nonempty_prepare() {
    for kind in all_kinds() {
        let cmd = bench_cmd(Bench::Install, kind);
        assert_eq!(cmd[0], "hyperfine");
        assert_eq!(cmd[1], "--prepare");
        assert!(!cmd[2].is_empty());
        assert_eq!(cmd[2], prepare_cmd(kind));
    }
}

#[test]
fn load_and_defer_omit_prepare() {
    for kind in all_kinds() {
        for mode in [Bench::Load, Bench::Defer] {
            let cmd = bench_cmd(mode, kind);
            assert!(cmd.iter().all(|arg| arg != "--prepare"));
        }
    }
}

#[test]
fn defer_carries_override_and_load_does_not() {
    for kind in all_kinds() {
        let defer = bench_cmd(Bench::Defer, kind);
        let load = bench_cmd(Bench::Load, kind);
        let defer_measured = defer.last().unwrap();
        let load_measured = load.last().unwrap();
        assert_eq!(defer_measured, "DEFER=true zsh -ic exit");
        assert!(defer_measured.starts_with("DEFER=true "));
        assert_eq!(load_measured, "zsh -ic exit");
        assert!(!load_measured.starts_with("DEFER=true "));
    }
}

#[test]
fn export_path_encodes_mode_and_kind() {
    let mut seen: Vec<String> = Vec::new();
    for kind in all_kinds() {
        for mode in [Bench::Install, Bench::Load] {
            let path = export_path(mode, kind);
            let tag = match mode {
                Bench::Install => "install",
                _ => "load",
            };
            assert_eq!(path, format!("/results/{}-{}.json", tag, kind.name()));
            assert!(!seen.contains(&path));
            seen.push(path);
        }
        // Defer reports into the load family: the one shared path.
        assert_eq!(export_path(Bench::Defer, kind), export_path(Bench::Load, kind));
    }
}

#[test]
fn sheldon_install_scenario() {
    let cmd = bench_cmd(Bench::Install, Kind::Sheldon);
    let export = cmd
        .iter()
        .position(|arg| arg == "--export-json")
        .map(|i| cmd[i + 1].clone())
        .unwrap();
    assert_eq!(export, "/results/install-sheldon.json");
    let prepare = cmd
        .iter()
        .position(|arg| arg == "--prepare")
        .map(|i| cmd[i + 1].clone())
        .unwrap();
    assert_eq!(
        prepare,
        "find /root/.sheldon -mindepth 1 -maxdepth 1 ! -name \"plugins*.toml\" -exec rm -rf {} \\;"
    );
}

#[test]
fn zinit_defer_scenario() {
    let cmd = bench_cmd(Bench::Defer, Kind::Zinit);
    let export = cmd
        .iter()
        .position(|arg| arg == "--export-json")
        .map(|i| cmd[i + 1].clone())
        .unwrap();
    assert_eq!(export, "/results/load-zinit.json");
    let measured = cmd.last().unwrap();
    let startup = "zsh -ic exit";
    let prefix = "DEFER=true ";
    let at = measured.find(startup).unwrap();
    assert_eq!(&measured[..at], prefix);
}

#[test]
fn full_install_command_shape() {
    let cmd = bench_cmd(Bench::Install, Kind::Antibody);
    assert_eq!(
        cmd,
        vec![
            "hyperfine",
            "--prepare",
            "rm -rf /root/.cache/antibody",
            "--warmup",
            "3",
            "--export-json",
            "/results/install-antibody.json",
            "zsh -ic exit",
        ]
    );
}

#[test]
fn full_load_command_shape() {
    let cmd = bench_cmd(Bench::Load, Kind::Zplug);
    assert_eq!(
        cmd,
        vec![
            "hyperfine",
            "--warmup",
            "3",
            "--export-json",
            "/results/load-zplug.json",
            "zsh -ic exit",
        ]
    );
}
