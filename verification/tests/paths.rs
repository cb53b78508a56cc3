use bench_driver::artifact::{output_dir, Artifact};
use bench_driver::path::push;
use std::path::PathBuf;

fn std_push(base: &str, component: &str) -> String {
    let mut path = PathBuf::from(base);
    path.push(component);
    path.into_os_string().into_string().unwrap()
}

#[test]
fn push_appends_behind_one_separator() {
    assert_eq!(push(String::from("results"), "origin-ntex"), "results/origin-ntex");
    assert_eq!(push(String::from("a/b"), "c/d"), "a/b/c/d");
}

#[test]
fn push_keeps_an_existing_separator() {
    assert_eq!(push(String::from("results/"), "x"), "results/x");
    assert_eq!(push(String::from("/"), "x"), "/x");
}

#[test]
fn push_onto_empty_base_writes_no_separator() {
    assert_eq!(push(String::new(), "x"), "x");
    assert_eq!(push(String::new(), ""), "");
}

#[test]
fn push_of_empty_component_ends_in_separator() {
    assert_eq!(push(String::from("a"), ""), "a/");
}

#[test]
fn push_of_absolute_component_replaces_base() {
    assert_eq!(push(String::from("results"), "/tmp/x"), "/tmp/x");
    assert_eq!(push(String::from("a/b"), "/"), "/");
}

#[test]
fn push_agrees_with_std_paths() {
    let bases = ["", "a", "a/", "/", "/a", "results", "a/b", "a//", "é", "a b"];
    let components = ["", "x", "/x", "x/", "x/y", "/", "nginx.conf", "target/release", "ü", "//x"];
    for base in bases {
        for component in components {
            assert_eq!(
                push(String::from(base), component),
                std_push(base, component),
                "base {:?}, component {:?}",
                base,
                component
            );
        }
    }
}

#[test]
fn output_dir_is_named_after_the_variant() {
    assert_eq!(output_dir("origin-ntex"), "results/origin-ntex");
    assert_eq!(output_dir("proxy-actix"), "results/proxy-actix");
}

#[test]
fn output_dirs_of_different_names_differ() {
    let names = ["a", "b", "a/", "/a", "", "results", "a/b"];
    for first in names {
        for second in names {
            if first != second {
                assert_ne!(output_dir(first), output_dir(second));
            }
        }
    }
}

#[test]
fn artifact_file_names() {
    assert_eq!(Artifact::Probe.file_name(), "curl.txt");
    assert_eq!(Artifact::LoadNoKeepAlive.file_name(), "oha-no-keepalive.json");
    assert_eq!(Artifact::LoadKeepAlive.file_name(), "oha-keepalive.json");
    assert_eq!(Artifact::OriginOutput.file_name(), "origin.txt");
    assert_eq!(Artifact::ProxyOutput.file_name(), "proxy.txt");
}

#[test]
fn artifact_paths_lie_in_the_run_directory() {
    assert_eq!(Artifact::Probe.path_in("results/origin-ntex"), "results/origin-ntex/curl.txt");
    assert_eq!(
        Artifact::LoadKeepAlive.path_in("results/proxy-actix"),
        "results/proxy-actix/oha-keepalive.json"
    );
    assert_eq!(Artifact::ProxyOutput.path_in("results/p/"), "results/p/proxy.txt");
}

#[test]
fn artifact_paths_of_one_directory_differ() {
    let all = [
        Artifact::Probe,
        Artifact::LoadNoKeepAlive,
        Artifact::LoadKeepAlive,
        Artifact::OriginOutput,
        Artifact::ProxyOutput,
    ];
    for (i, a) in all.iter().enumerate() {
        for (j, b) in all.iter().enumerate() {
            if i != j {
                assert_ne!(a.path_in("results/x"), b.path_in("results/x"));
            }
        }
    }
}
