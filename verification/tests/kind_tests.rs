use zsh_bench::kind::Kind;
use zsh_bench::registry::{prepare_cmd, version_cmd};

#[test]
fn iter_yields_the_fixed_enumeration_order() {
    let all = Kind::iter();
    assert_eq!(all.len(), 6);
    let names: Vec<&str> = all.iter().map(|k| k.name()).collect();
    assert_eq!(
        names,
        vec!["antibody", "antigen", "sheldon", "zgen", "zinit", "zplug"]
    );
}

#[test]
fn from_str_accepts_every_name() {
    for kind in Kind::iter() {
        assert_eq!(Kind::from_str(kind.name()), Some(kind));
    }
}

#[test]
fn from_str_is_case_insensitive() {
    assert_eq!(Kind::from_str("SHELDON"), Some(Kind::Sheldon));
    assert_eq!(Kind::from_str("Sheldon"), Some(Kind::Sheldon));
    assert_eq!(Kind::from_str("zInIt"), Some(Kind::Zinit));
}

#[test]
fn from_str_rejects_unknown_tokens() {
    assert_eq!(Kind::from_str(""), None);
    assert_eq!(Kind::from_str("oh-my-zsh"), None);
    assert_eq!(Kind::from_str("sheldon "), None);
    assert_eq!(Kind::from_str("z-gen"), None);
}

#[test]
fn prepare_commands_match_the_registry() {
    assert_eq!(prepare_cmd(Kind::Antibody), "rm -rf /root/.cache/antibody");
    assert_eq!(prepare_cmd(Kind::Antigen), "rm -rf /root/.antigen");
    assert_eq!(
        prepare_cmd(Kind::Sheldon),
        "find /root/.sheldon -mindepth 1 -maxdepth 1 ! -name \"plugins*.toml\" -exec rm -rf {} \\;"
    );
    assert_eq!(prepare_cmd(Kind::Zgen), "git -C /root/.zgen clean -dffx");
    assert_eq!(
        prepare_cmd(Kind::Zinit),
        "find /root/.zinit -mindepth 1 -maxdepth 1 ! -name \"bin\" -exec rm -rf {} \\;"
    );
    assert_eq!(prepare_cmd(Kind::Zplug), "rm -rf /root/.zplug/repos");
}

#[test]
fn version_commands_match_the_registry() {
    assert_eq!(version_cmd(Kind::Antibody), vec!["antibody", "--version"]);
    assert_eq!(
        version_cmd(Kind::Antigen),
        vec!["zsh", "-c", "source /root/antigen.zsh && antigen-version"]
    );
    assert_eq!(version_cmd(Kind::Sheldon), vec!["sheldon", "--version"]);
    assert_eq!(
        version_cmd(Kind::Zgen),
        vec!["git", "-C", "/root/.zgen", "rev-parse", "--short", "HEAD"]
    );
    assert_eq!(
        version_cmd(Kind::Zinit),
        vec!["git", "-C", "/root/.zinit/bin", "rev-parse", "--short", "HEAD"]
    );
    assert_eq!(
        version_cmd(Kind::Zplug),
        vec!["git", "-C", "/root/.zplug", "rev-parse", "--short", "HEAD"]
    );
}

#[test]
fn every_prepare_command_is_nonempty() {
    for kind in Kind::iter() {
        assert!(!prepare_cmd(kind).is_empty());
    }
}
