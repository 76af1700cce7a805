use cpm::cpm_core::toml::operation::OperationToml;
use cpm::cpm_core::toml::rules::{Build, Dependencies, Project, TOMLRule};

fn s(x: &str) -> String {
    x.to_string()
}

fn sample_rules() -> TOMLRule {
    TOMLRule {
        project: Project {
            name: s("demo"),
            version: s("0.1.0"),
            description: s("A demo"),
            authors: vec![s("Ann <a@x>"), s("Bob <b@x>")],
            license: s("MIT"),
        },
        build: Build {
            output: s("static"),
            compiler: s("g++"),
            flags: vec![s("-Wall"), s("-O2")],
            system_libraries: vec![s("z"), s("pthread")],
        },
        dependencies: Dependencies {
            dependencies: vec![(s("fmt"), s("https://g/fmt.git"))],
        },
        dev_dependencies: Dependencies {
            dependencies: vec![(s("gtest"), s("https://g/gtest.git"))],
        },
    }
}

fn loaded() -> OperationToml {
    let mut t = OperationToml::new("/tmp/cpm-test/cpm.toml");
    t.load(sample_rules());
    t
}

#[test]
fn new_is_empty() {
    let t = OperationToml::new("/tmp/nowhere/cpm.toml");
    assert_eq!(t.path(), "/tmp/nowhere/cpm.toml");
    assert_eq!(t.get("project", "name"), "");
    assert!(t.get_flags().is_empty());
    assert!(t.list(false).is_empty());
    assert!(t.list(true).is_empty());
}

#[test]
fn get_reads_each_key() {
    let t = loaded();
    assert_eq!(t.get("project", "name"), "demo");
    assert_eq!(t.get("project", "version"), "0.1.0");
    assert_eq!(t.get("project", "description"), "A demo");
    assert_eq!(t.get("project", "authors"), "Ann <a@x>, Bob <b@x>");
    assert_eq!(t.get("project", "license"), "MIT");
    assert_eq!(t.get("build", "output"), "static");
    assert_eq!(t.get("build", "compiler"), "g++");
    assert_eq!(t.get("build", "flags"), "-Wall,-O2");
}

#[test]
fn flags_and_libraries() {
    let t = loaded();
    assert_eq!(t.get_flags(), vec![s("-Wall"), s("-O2")]);
    assert_eq!(t.get_system_libraries(), vec![s("z"), s("pthread")]);
    assert_eq!(t.get_rules().project.name, "demo");
}

#[test]
fn add_then_list() {
    let mut t = loaded();
    t.add_dependency("json", "https://g/json.git");
    let deps = t.list(false);
    assert_eq!(deps.len(), 2);
    assert!(deps.contains(&(s("json"), s("https://g/json.git"))));
    assert_eq!(t.list(true), vec![(s("gtest"), s("https://g/gtest.git"))]);
}

#[test]
fn add_dev_then_list() {
    let mut t = loaded();
    t.add_dev_dependency("bench", "https://g/bench.git");
    assert_eq!(t.list(true).len(), 2);
    assert_eq!(t.list(false), vec![(s("fmt"), s("https://g/fmt.git"))]);
}

#[test]
fn readding_replaces_source() {
    let mut t = loaded();
    t.add_dependency("fmt", "https://mirror/fmt.git");
    assert_eq!(t.list(false), vec![(s("fmt"), s("https://mirror/fmt.git"))]);
}

#[test]
fn remove_undoes_add() {
    let mut t = loaded();
    let before = t.list(false);
    t.add_dependency("json", "https://g/json.git");
    t.remove_dependency("json");
    assert_eq!(t.list(false), before);
}

#[test]
fn remove_by_source() {
    let mut t = loaded();
    t.add_dependency("fmt2", "https://g/fmt.git");
    t.add_dependency("other", "https://g/other.git");
    t.remove_dependency("https://g/fmt.git");
    assert_eq!(t.list(false), vec![(s("other"), s("https://g/other.git"))]);
}

#[test]
fn remove_dev_by_name() {
    let mut t = loaded();
    t.remove_dev_dependency("gtest");
    assert!(t.list(true).is_empty());
    assert_eq!(t.list(false).len(), 1);
}

#[test]
fn try_remove_missing_changes_nothing() {
    let mut t = loaded();
    assert!(!t.try_remove_dependency("absent"));
    assert!(!t.try_remove_dev_dependency("absent"));
    assert_eq!(t.list(false).len(), 1);
    assert_eq!(t.list(true).len(), 1);
    assert!(!t.save());
}

#[test]
fn save_clears_pending() {
    let mut t = loaded();
    assert!(!t.save());
    t.add_dependency("json", "https://g/json.git");
    assert!(t.save());
    assert!(!t.save());
}

#[test]
fn load_keeps_last_source_of_repeated_name() {
    let mut rules = sample_rules();
    rules.dependencies.dependencies = vec![
        (s("a"), s("1")),
        (s("b"), s("2")),
        (s("a"), s("3")),
    ];
    let mut t = OperationToml::new("/tmp/x/cpm.toml");
    t.load(rules);
    assert_eq!(t.list(false), vec![(s("a"), s("3")), (s("b"), s("2"))]);
}

#[test]
fn default_rules_are_empty() {
    let r = TOMLRule::default();
    assert!(r.project.name.is_empty());
    assert!(r.build.flags.is_empty());
    assert!(r.dependencies.dependencies.is_empty());
}

#[test]
fn save_writes_only_after_a_change() {
    let mut t = loaded();
    assert!(!t.try_remove_dependency("absent"));
    assert!(!t.save());
    assert!(t.try_remove_dependency("fmt"));
    assert!(t.save());
    assert!(!t.save());
}
