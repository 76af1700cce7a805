use cpm::builder::collect::{BuildConfig, Builder, Platform};
use cpm::builder::compiler_trait::Compiler;
use cpm::builder::gpp::GppCompiler;
use cpm::cli::build_project::{build_settings, select_compiler};
use cpm::cpm_core::toml::operation::OperationToml;
use cpm::cpm_core::toml::rules::{Build, Dependencies, Project, TOMLRule};

fn s(x: &str) -> String {
    x.to_string()
}

fn strings(xs: &[&str]) -> Vec<String> {
    xs.iter().map(|x| x.to_string()).collect()
}

#[test]
fn gpp_compile_command() {
    let c = GppCompiler.compile("/p/src/a.cpp", "/p/dist/obj/_src_a.o", &strings(&["-Wall", "-I/p/include"]));
    assert_eq!(c.program, "g++");
    assert_eq!(c.args, strings(&["/p/src/a.cpp", "-Wall", "-I/p/include", "-c", "-o/p/dist/obj/_src_a.o"]));
    assert_eq!(GppCompiler.name(), "g++");
}

#[test]
fn gpp_link_executable() {
    let c = GppCompiler
        .link(&strings(&["a.o", "b.o"]), "out/app", &strings(&["/m/fmt/lib"]), &strings(&["fmt", "z"]), "bin")
        .unwrap();
    assert_eq!(c.program, "g++");
    assert_eq!(c.args, strings(&["a.o", "b.o", "-L/m/fmt/lib", "-lfmt", "-lz", "-o", "out/app"]));
}

#[test]
fn gpp_link_static() {
    let c = GppCompiler.link(&strings(&["a.o"]), "libx.a", &[], &strings(&["z"]), "static").unwrap();
    assert_eq!(c.program, "ar");
    assert_eq!(c.args, strings(&["rcs", "libx.a", "a.o"]));
}

#[test]
fn gpp_link_shared() {
    let c = GppCompiler.link(&strings(&["a.o"]), "libx.so", &strings(&["/d"]), &strings(&["m"]), "shared").unwrap();
    assert_eq!(c.program, "g++");
    assert_eq!(c.args, strings(&["-shared", "-fPIC", "a.o", "-L/d", "-lm", "-o", "libx.so"]));
}

#[test]
fn gpp_link_unknown_type() {
    let r = GppCompiler.link(&strings(&["a.o"]), "x", &[], &[], "wasm");
    assert_eq!(r.unwrap_err(), "Unsupported output type");
}

#[test]
fn output_file_by_type() {
    let b = Builder::new(GppCompiler);
    assert_eq!(b.get_output_file("/p", "bin", "demo", Platform::Other), "/p/dist/out/demo");
    assert_eq!(b.get_output_file("/p", "bin", "demo", Platform::Windows), "/p/dist/out/demo.exe");
    assert_eq!(b.get_output_file("/p", "static", "demo", Platform::Windows), "/p/dist/out/libdemo.a");
    assert_eq!(b.get_output_file("/p", "shared", "demo", Platform::Windows), "/p/dist/out/demo.dll");
    assert_eq!(b.get_output_file("/p", "shared", "demo", Platform::MacOs), "/p/dist/out/libdemo.dylib");
    assert_eq!(b.get_output_file("/p", "shared", "demo", Platform::Other), "/p/dist/out/libdemo.so");
    assert_eq!(b.get_output_file("/p", "other", "demo", Platform::Other), "/p/dist/out/demo");
}

#[test]
fn compile_source_targets_object_dir() {
    let b = Builder::new(GppCompiler);
    let (out, cmd) = b.compile_source("/p/src/main.cpp", &strings(&["-O2"]));
    assert_eq!(out, "/p/dist/obj/_src_main.o");
    assert_eq!(cmd.args, strings(&["/p/src/main.cpp", "-O2", "-c", "-o/p/dist/obj/_src_main.o"]));
}

#[test]
fn include_paths_are_appended() {
    let b = Builder::new(GppCompiler);
    let r = b.add_include_paths(strings(&["-Wall"]), &strings(&["/p/include", "/p/modules/fmt/include"]));
    assert_eq!(r, strings(&["-Wall", "-I/p/include", "-I/p/modules/fmt/include"]));
}

#[test]
fn library_names() {
    let b = Builder::new(GppCompiler);
    assert_eq!(b.library_name("libfmt.a"), Some(s("fmt")));
    assert_eq!(b.library_name("zlib.lib"), Some(s("zlib")));
    assert_eq!(b.library_name("libz.so"), None);
    assert_eq!(b.library_name(".a"), None);
    assert_eq!(b.library_name("README"), None);
    assert_eq!(b.library_name("lib.a"), Some(s("")));
}

#[test]
fn object_files() {
    let b = Builder::new(GppCompiler);
    assert!(b.is_object_file("_src_main.o"));
    assert!(!b.is_object_file("main.cpp"));
    assert!(!b.is_object_file(".o"));
    assert!(!b.is_object_file("o"));
}

#[test]
fn main_symbol_detection() {
    let b = Builder::new(GppCompiler);
    assert!(b.has_main_symbol("0000000000000000 T main\n                 U puts\n"));
    assert!(b.has_main_symbol("                 U printf\n0000000000000000 T main"));
    assert!(b.has_main_symbol("0000 T main  \r\n"));
    assert!(!b.has_main_symbol("0000000000000000 T domain\n"));
    assert!(!b.has_main_symbol("0000000000000000 T main_loop\n"));
    assert!(!b.has_main_symbol("0000 T main x\n"));
    assert!(!b.has_main_symbol(""));
}

#[test]
fn filter_keeps_objects_without_main() {
    let b = Builder::new(GppCompiler);
    let r = b.filter_main_objects(&strings(&["a.o", "m.o", "b.o"]), &[false, true, false]);
    assert_eq!(r, strings(&["a.o", "b.o"]));
}

#[test]
fn link_step_refuses_no_objects() {
    let b = Builder::new(GppCompiler);
    let deps: Vec<(String, String)> = vec![];
    let config = BuildConfig::new("/p", "g++", vec![], &deps);
    let r = b.link_step(&config, &[], &[], &[], &[], "demo", Platform::Other);
    assert_eq!(r.unwrap_err(), "\x1b[31m❌ No object files found for linking\x1b[0m");
}

#[test]
fn link_step_refuses_library_of_only_main() {
    let b = Builder::new(GppCompiler);
    let deps: Vec<(String, String)> = vec![];
    let sys: Vec<String> = vec![];
    let config = BuildConfig::new_with_output("/p", "g++", vec![], &deps, &sys, "static");
    let r = b.link_step(&config, &strings(&["m.o"]), &[true], &[], &[], "demo", Platform::Other);
    assert!(r.unwrap_err().contains("There are no target files to link"));
}

#[test]
fn link_step_links_library() {
    let b = Builder::new(GppCompiler);
    let deps: Vec<(String, String)> = vec![];
    let sys = strings(&["z"]);
    let config = BuildConfig::new_with_output("/p", "g++", vec![], &deps, &sys, "shared");
    let cmd = b
        .link_step(&config, &strings(&["a.o", "m.o"]), &[false, true], &strings(&["/p/modules/fmt/lib"]), &strings(&["fmt"]), "demo", Platform::Other)
        .unwrap();
    assert_eq!(cmd.args, strings(&["-shared", "-fPIC", "a.o", "-L/p/modules/fmt/lib", "-lfmt", "-lz", "-o", "/p/dist/out/libdemo.so"]));
}

#[test]
fn link_step_executable_keeps_main() {
    let b = Builder::new(GppCompiler);
    let deps: Vec<(String, String)> = vec![];
    let config = BuildConfig::new("/p", "g++", vec![], &deps);
    let cmd = b.link_step(&config, &strings(&["m.o"]), &[true], &[], &[], "demo", Platform::Other).unwrap();
    assert_eq!(cmd.args, strings(&["m.o", "-o", "/p/dist/out/demo"]));
}

#[test]
fn build_config_defaults() {
    let deps = vec![(s("fmt"), s("u"))];
    let c = BuildConfig::new("/p", "g++", strings(&["-O2"]), &deps);
    assert_eq!(c.output_type, "bin");
    assert!(c.system_libraries.is_empty());
    assert_eq!(c.dependencies.len(), 1);
}

#[test]
fn compiler_selection() {
    assert!(select_compiler("g++").is_ok());
    assert_eq!(select_compiler("clang").err().unwrap(), "\x1b[33m⚠️  The compiler has not been implemented yet.\x1b[0m");
    assert_eq!(select_compiler("msvc").err().unwrap(), "\x1b[31m❌ Unsupported compiler: msvc\x1b[0m");
}

#[test]
fn settings_from_project_file() {
    let mut t = OperationToml::new("/tmp/p/cpm.toml");
    t.load(TOMLRule {
        project: Project { name: s("demo"), version: s(""), description: s(""), authors: vec![], license: s("") },
        build: Build { output: s(""), compiler: s("g++"), flags: strings(&["-O2"]), system_libraries: strings(&["z"]) },
        dependencies: Dependencies { dependencies: vec![(s("fmt"), s("u"))] },
        dev_dependencies: Dependencies { dependencies: vec![] },
    });
    let st = build_settings(&t);
    assert_eq!(st.compiler_name, "g++");
    assert_eq!(st.output_type, "bin");
    assert_eq!(st.flags, strings(&["-O2"]));
    assert_eq!(st.system_libraries, strings(&["z"]));
    assert_eq!(st.dependencies, vec![(s("fmt"), s("u"))]);
}
