use zsh_bench::kind::Kind;
use zsh_bench::plan::plan;
use zsh_bench::render::render;

#[test]
fn mount_paths_follow_dotfile_convention() {
    let b = plan(Kind::Sheldon).unwrap();
    assert_eq!(b.files.len(), 2);
    assert_eq!(b.files[0].host, "rendered/sheldon/zshrc");
    assert_eq!(b.files[0].container, "/root/.zshrc");
    assert_eq!(b.files[1].host, "rendered/sheldon/sheldon/plugins.toml");
    assert_eq!(b.files[1].container, "/root/.sheldon/plugins.toml");
}

#[test]
fn one_mount_entry_per_rendered_file() {
    for kind in Kind::iter() {
        let rendered = render(kind).unwrap();
        let b = plan(kind).unwrap();
        assert_eq!(b.files.len(), rendered.len());
        for (entry, file) in b.files.iter().zip(rendered.iter()) {
            assert_eq!(entry.host, format!("rendered/{}/{}", kind.name(), file.path));
            assert_eq!(entry.container, format!("/root/.{}", file.path));
            assert_eq!(entry.text, file.text);
        }
    }
}

#[test]
fn container_paths_are_distinct_per_kind() {
    for kind in Kind::iter() {
        let b = plan(kind).unwrap();
        for i in 0..b.files.len() {
            for j in 0..b.files.len() {
                if i != j {
                    assert_ne!(b.files[i].container, b.files[j].container);
                    assert_ne!(b.files[i].host, b.files[j].host);
                }
            }
        }
    }
}

#[test]
fn planning_twice_yields_the_same_plan() {
    for kind in Kind::iter() {
        let a = plan(kind).unwrap();
        let b = plan(kind).unwrap();
        assert_eq!(a.files.len(), b.files.len());
        for (fa, fb) in a.files.iter().zip(b.files.iter()) {
            assert_eq!(fa.host, fb.host);
            assert_eq!(fa.container, fb.container);
            assert_eq!(fa.text, fb.text);
        }
    }
}

#[test]
fn staging_paths_are_scoped_by_kind() {
    for kind in Kind::iter() {
        let b = plan(kind).unwrap();
        let prefix = format!("rendered/{}/", kind.name());
        for entry in b.files.iter() {
            assert!(entry.host.starts_with(&prefix));
        }
    }
}
