use zsh_bench::kind::Kind;
use zsh_bench::plugins::plugins;
use zsh_bench::render::render;
use zsh_bench::template::bundle;
use zsh_bench::text::{join_lines_exec, str_eq, substitute};

#[test]
fn render_is_deterministic() {
    for kind in Kind::iter() {
        let a = render(kind).unwrap();
        let b = render(kind).unwrap();
        assert_eq!(a.len(), b.len());
        for (fa, fb) in a.iter().zip(b.iter()) {
            assert_eq!(fa.path, fb.path);
            assert_eq!(fa.text, fb.text);
        }
    }
}

#[test]
fn manifest_round_trip_preserves_plugins() {
    let expected: Vec<&str> = plugins();
    for kind in Kind::iter() {
        let files = render(kind).unwrap();
        let manifest = &files[1];
        let lines: Vec<&str> = manifest.text.split('\n').collect();
        assert_eq!(lines.len(), 26);
        assert_eq!(lines, expected);
    }
}

#[test]
fn zshrc_renders_to_itself() {
    for kind in Kind::iter() {
        let templates = bundle(kind);
        let files = render(kind).unwrap();
        assert_eq!(files[0].path, "zshrc");
        assert_eq!(files[0].text, templates[0].1);
    }
}

#[test]
fn every_bundle_renders() {
    for kind in Kind::iter() {
        assert!(render(kind).is_ok());
        assert_eq!(render(kind).unwrap().len(), 2);
    }
}

#[test]
fn substitute_expands_placeholder() {
    let out = substitute("before {{ plugins }} after", "X\nY").unwrap();
    assert_eq!(out, "before X\nY after");
    let twice = substitute("{{ plugins }}{{ plugins }}", "p").unwrap();
    assert_eq!(twice, "pp");
    let bare = substitute("{{ plugins }}", "a\nb\nc").unwrap();
    assert_eq!(bare, "a\nb\nc");
}

#[test]
fn substitute_passes_plain_text_through() {
    let out = substitute("no variables here, just text\n", "ignored").unwrap();
    assert_eq!(out, "no variables here, just text\n");
    let lone_brace = substitute("a { b } c", "ignored").unwrap();
    assert_eq!(lone_brace, "a { b } c");
}

#[test]
fn substitute_rejects_malformed_template() {
    assert!(substitute("text {{ oops }}", "x").is_none());
    assert!(substitute("dangling {{", "x").is_none());
    assert!(substitute("{{ plugins }", "x").is_none());
}

#[test]
fn join_lines_matches_manual_join() {
    let items = vec!["one", "two", "three"];
    assert_eq!(join_lines_exec(&items), "one\ntwo\nthree");
    let single = vec!["alone"];
    assert_eq!(join_lines_exec(&single), "alone");
    let none: Vec<&str> = vec![];
    assert_eq!(join_lines_exec(&none), "");
}

#[test]
fn str_eq_agrees_with_equality() {
    assert!(str_eq("abc", "abc"));
    assert!(!str_eq("abc", "abd"));
    assert!(!str_eq("abc", "ab"));
    assert!(str_eq("", ""));
}
