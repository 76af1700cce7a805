use cpm::cli::create::{project_files, project_name_upper};
use cpm::cli::install::{install_plan, record_dependency};
use cpm::cli::root::{Action, Cli, Commands, ProjectDir};
use cpm::cli::uninstall::{clear_config, package_dir, package_name, remove_from_config, ConfigRemoval};
use cpm::cpm_core::package::repository::{artifact_dirs, clone_action, clone_command, is_library_file, CloneAction};
use cpm::cpm_core::toml::operation::OperationToml;

fn s(x: &str) -> String {
    x.to_string()
}

#[test]
fn upper_name_for_guards() {
    assert_eq!(project_name_upper("my-app"), "MY_APP");
    assert_eq!(project_name_upper("straße"), "STRASSE");
}

#[test]
fn new_project_files() {
    let files = project_files("hello-x");
    assert_eq!(files.len(), 5);
    let get = |p: &str| files.iter().find(|(f, _)| f == p).unwrap().1.clone();
    assert!(get("src/main.cpp").contains("#include \"hello-x.hpp\""));
    let header = get("include/hello-x.hpp");
    assert!(header.starts_with("#ifndef HELLO_X_H\n#define HELLO_X_H\n"));
    assert!(header.contains("Example header file for hello-x"));
    assert!(get("cpm.toml").contains("name = \"hello-x\""));
    assert!(get("README.md").starts_with("# hello-x\n"));
    assert_eq!(get(".gitignore"), "build/\ndist/\nmodules/\n");
    for (_, content) in &files {
        assert!(!content.contains("{project_name}"));
    }
}

#[test]
fn plan_of_install() {
    let p = install_plan("/w", "https://g/u/fmt.git");
    assert_eq!(p.repo_name, "fmt");
    assert_eq!(p.temp_dir, "/w/temp");
    assert_eq!(p.repo_path, "/w/temp/fmt");
    assert_eq!(p.build_dir, "/w/temp/fmt/build");
    assert_eq!(p.modules_base, "/w/modules/fmt");
    assert_eq!(p.include_dir, "/w/modules/fmt/include");
    assert_eq!(p.lib_dir, "/w/modules/fmt/lib");
    assert_eq!(p.toml_path, "/w/cpm.toml");
}

#[test]
fn record_regular_and_dev() {
    let mut t = OperationToml::new("/tmp/r/cpm.toml");
    record_dependency(&mut t, "fmt", "https://g/fmt.git", false);
    record_dependency(&mut t, "gtest", "https://g/gtest.git", true);
    assert_eq!(t.list(false), vec![(s("fmt"), s("https://g/fmt.git"))]);
    assert_eq!(t.list(true), vec![(s("gtest"), s("https://g/gtest.git"))]);
    assert!(t.save());
}

#[test]
fn uninstall_package_names() {
    assert_eq!(package_name("https://g/u/fmt.git", false, None), "fmt");
    assert_eq!(package_name("./modules/fmt", true, Some("fmt")), "fmt");
    assert_eq!(package_name("/", true, None), "unknown");
    assert_eq!(package_dir("/w", "fmt"), "/w/modules/fmt");
}

#[test]
fn remove_from_either_table() {
    let mut t = OperationToml::new("/tmp/u/cpm.toml");
    t.add_dependency("fmt", "https://g/fmt.git");
    t.add_dev_dependency("gtest", "https://g/gtest.git");
    assert_eq!(remove_from_config(&mut t, "gtest"), ConfigRemoval::DevDependency);
    assert_eq!(remove_from_config(&mut t, "https://g/fmt.git"), ConfigRemoval::Dependency);
    assert_eq!(remove_from_config(&mut t, "fmt"), ConfigRemoval::NotFound);
    assert!(t.list(false).is_empty() && t.list(true).is_empty());
}

#[test]
fn uninstall_all_clears_tables() {
    let mut t = OperationToml::new("/tmp/u/cpm.toml");
    t.add_dependency("a", "x");
    t.add_dependency("b", "a");
    t.add_dev_dependency("c", "y");
    clear_config(&mut t);
    assert!(t.list(false).is_empty());
    assert!(t.list(true).is_empty());
}

#[test]
fn cli_actions() {
    let a = Cli { command: Commands::Install { url: s("."), dev: true } }.action();
    assert!(matches!(a, Action::InstallAll));
    let a = Cli { command: Commands::Install { url: s("https://g/x.git"), dev: true } }.action();
    assert!(matches!(a, Action::Install { ref url, dev: true } if url == "https://g/x.git"));
    let a = Cli { command: Commands::Uninstall { url: s(".") } }.action();
    assert!(matches!(a, Action::UninstallAll));
    let a = Cli { command: Commands::Build { path: s(".") } }.action();
    assert!(matches!(a, Action::Build(ProjectDir::Current)));
    let a = Cli { command: Commands::Run { path: s("/p") } }.action();
    assert!(matches!(a, Action::Run(ProjectDir::Given(ref p)) if p == "/p"));
    let a = Cli { command: Commands::Create { name: s("demo") } }.action();
    assert!(matches!(a, Action::CreateProject(ref n) if n == "demo"));
}

#[test]
fn repository_steps() {
    assert_eq!(clone_action(true, true), CloneAction::Skip);
    assert_eq!(clone_action(false, true), CloneAction::ReplaceAndClone);
    assert_eq!(clone_action(false, false), CloneAction::Clone);
    let c = clone_command("https://g/x.git", "/w/temp/x");
    assert_eq!(c.program, "git");
    assert_eq!(c.args, vec![s("clone"), s("--depth"), s("1"), s("https://g/x.git"), s("/w/temp/x")]);
    assert!(is_library_file("libx.a") && is_library_file("x.so") && is_library_file("x.dll") && is_library_file("x.lib"));
    assert!(!is_library_file("x.h") && !is_library_file("a"));
    assert_eq!(artifact_dirs("/w/temp/x"), (s("/w/temp/x/build"), s("/w/temp/x/include")));
}

#[test]
fn install_and_uninstall_keep_project_settings() {
    let mut t = OperationToml::new("/tmp/k/cpm.toml");
    t.add_dependency("seed", "s");
    assert!(t.save());
    let name = t.get("project", "name");
    let flags = t.get("build", "flags");
    record_dependency(&mut t, "fmt", "https://g/fmt.git", false);
    clear_config(&mut t);
    assert!(t.save());
    assert_eq!(t.get("project", "name"), name);
    assert_eq!(t.get("build", "flags"), flags);
    clear_config(&mut t);
    assert!(!t.save());
}
