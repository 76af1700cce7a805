//! Building a project: the settings read from its project file and the choice of compiler.

use vstd::prelude::*;
use crate::builder::gpp::GppCompiler;
use crate::cpm_core::toml::operation::{query_key, OperationToml};
use crate::cpm_core::toml::rules::pairs_view;
use crate::utils::text::{push_str, str_eq};

verus! {

/// What the build reads from the project file.
pub struct BuildSettings {
    pub compiler_name: String,
    pub flags: Vec<String>,
    pub dependencies: Vec<(String, String)>,
    pub system_libraries: Vec<String>,
    pub output_type: String,
}

/// The output type that a project file's `build.output` asks for: `bin` where empty.
pub open spec fn output_type_of(output: Seq<char>) -> Seq<char> {
    if output.len() == 0 {
        "bin"@
    } else {
        output
    }
}

/// The output type is what the project file's `build.output` says wherever it says
/// something, and `bin` exactly where it is empty: e.g. `static` stays `static`.
pub proof fn lemma_output_type_follows_file(output: Seq<char>)
    ensures
        output.len() > 0 ==> output_type_of(output) == output,
        output.len() == 0 ==> output_type_of(output) == "bin"@,
        output_type_of(output).len() > 0,
{
    reveal_strlit("bin");
}

/// Read the build settings from the project file: compiler, flags, dependencies,
/// system libraries and output type (`bin` where none is set).
pub fn build_settings(parse: &OperationToml) -> (s: BuildSettings)
    ensures
        s.compiler_name@ == parse.config().build.compiler@,
        s.flags@ == parse.config().build.flags@,
        pairs_view(s.dependencies@) == parse.config().dependencies.entries(),
        s.system_libraries@ == parse.config().build.system_libraries@,
        s.output_type@ == output_type_of(parse.config().build.output@),
{
    proof {
        reveal_strlit("build");
        reveal_strlit("compiler");
        reveal_strlit("output");
        reveal_strlit("build.compiler");
        reveal_strlit("build.output");
        reveal_strlit("project.name");
        reveal_strlit("project.version");
        reveal_strlit("project.description");
        reveal_strlit("project.authors");
        reveal_strlit("project.license");
        assert(query_key("build"@, "compiler"@) =~= "build.compiler"@);
        assert(query_key("build"@, "output"@) =~= "build.output"@);
        assert("build.output"@[0] != "project.name"@[0]);
    }
    let compiler_name = parse.get("build", "compiler");
    let flags = parse.get_flags();
    let dependencies = parse.list(false);
    let system_libraries = parse.get_system_libraries();
    let output = parse.get("build", "output");
    assert(output@ == parse.config().build.output@);
    proof {
        reveal_strlit("");
        if output@.len() == 0 {
            assert(output@ =~= ""@);
        }
    }
    let output_type = if str_eq(output.as_str(), "") {
        "bin".to_string()
    } else {
        output
    };
    BuildSettings { compiler_name, flags, dependencies, system_libraries, output_type }
}

/// The error for a compiler that is known but not supported yet.
pub open spec fn not_implemented_message() -> Seq<char> {
    "\x1b[33m⚠️  The compiler has not been implemented yet.\x1b[0m"@
}

/// The compiler that a project's `build.compiler` names: G++ for `g++`; an error for
/// the compilers not supported yet (`gcc`, `clang`, `clang++`) and for any other name.
pub fn select_compiler(compiler_name: &str) -> (r: Result<GppCompiler, String>)
    ensures
        compiler_name@ == "g++"@ ==> r is Ok,
        (compiler_name@ == "gcc"@ || compiler_name@ == "clang"@ || compiler_name@ == "clang++"@)
            ==> (r matches Err(e) && e@ == not_implemented_message()),
        !(compiler_name@ == "g++"@ || compiler_name@ == "gcc"@ || compiler_name@ == "clang"@
            || compiler_name@ == "clang++"@) ==> (r matches Err(e) && e@
            == "\x1b[31m❌ Unsupported compiler: "@ + compiler_name@ + "\x1b[0m"@),
{
    proof {
        reveal_strlit("g++");
        reveal_strlit("gcc");
        reveal_strlit("clang");
        reveal_strlit("clang++");
        assert("g++"@[1] != "gcc"@[1]);
    }
    if str_eq(compiler_name, "g++") {
        Ok(GppCompiler)
    } else if str_eq(compiler_name, "gcc") || str_eq(compiler_name, "clang") || str_eq(
        compiler_name,
        "clang++",
    ) {
        Err("\x1b[33m⚠️  The compiler has not been implemented yet.\x1b[0m".to_string())
    } else {
        let mut e = "\x1b[31m❌ Unsupported compiler: ".to_string();
        push_str(&mut e, compiler_name);
        push_str(&mut e, "\x1b[0m");
        Err(e)
    }
}

} // verus!
