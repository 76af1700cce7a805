//! The build: configuration, compile and link steps, and what is read from the
//! files that the build finds.

use vstd::prelude::*;
use crate::builder::compiler_trait::{CommandLine, Compiler};
use crate::builder::gpp::{prefixed, GppCompiler};
use crate::utils::file::operation::{get_file_name, object_stem};
use crate::utils::path::operation::{base_of, base_path};
use crate::utils::text::{
    chars_of, last_occurrence, occurs_at, push_str, rfind, string_of, strings_view,
};

verus! {

/// The operating system the build runs on, which decides the output file's name.
#[derive(Debug, Clone, Copy, PartialEq, Eq, Structural)]
pub enum Platform {
    Windows,
    MacOs,
    Other,
}

/// Build configuration - all the information required for compilation and linking.
pub struct BuildConfig<'a> {
    pub project_path: &'a str,
    pub compiler_name: &'a str,
    pub flags: Vec<String>,
    pub dependencies: &'a [(String, String)],
    pub system_libraries: &'a [String],
    pub output_type: &'a str,
}

impl<'a> BuildConfig<'a> {
    /// A configuration that builds an executable and links no system library.
    pub fn new(
        project_path: &'a str,
        compiler_name: &'a str,
        flags: Vec<String>,
        dependencies: &'a [(String, String)],
    ) -> (c: Self)
        ensures
            c.project_path == project_path,
            c.compiler_name == compiler_name,
            c.flags == flags,
            c.dependencies == dependencies,
            c.system_libraries@ == Seq::<String>::empty(),
            c.output_type@ == "bin"@,
    {
        let none: &'a [String] = &[];
        BuildConfig {
            project_path,
            compiler_name,
            flags,
            dependencies,
            system_libraries: none,
            output_type: "bin",
        }
    }

    /// Create a new BuildConfig with output type specified.
    pub fn new_with_output(
        project_path: &'a str,
        compiler_name: &'a str,
        flags: Vec<String>,
        dependencies: &'a [(String, String)],
        system_libraries: &'a [String],
        output_type: &'a str,
    ) -> (c: Self)
        ensures
            c.project_path == project_path,
            c.compiler_name == compiler_name,
            c.flags == flags,
            c.dependencies == dependencies,
            c.system_libraries == system_libraries,
            c.output_type == output_type,
    {
        BuildConfig {
            project_path,
            compiler_name,
            flags,
            dependencies,
            system_libraries,
            output_type,
        }
    }
}

} // verus!

verus! {

/// The object file that compiling `file` produces: the project base of the path,
/// `/dist/obj/`, the object name of the file, `.o`.
pub open spec fn object_path(file: Seq<char>) -> Seq<char> {
    base_of(file) + "/dist/obj/"@ + object_stem(file) + ".o"@
}

/// The file name of the build output, by output type and platform.
pub open spec fn output_file_name(name: Seq<char>, output_type: Seq<char>, platform: Platform) -> Seq<
    char,
> {
    if output_type == "bin"@ {
        if platform == Platform::Windows {
            name + ".exe"@
        } else {
            name
        }
    } else if output_type == "static"@ {
        "lib"@ + name + ".a"@
    } else if output_type == "shared"@ {
        if platform == Platform::Windows {
            name + ".dll"@
        } else if platform == Platform::MacOs {
            "lib"@ + name + ".dylib"@
        } else {
            "lib"@ + name + ".so"@
        }
    } else {
        name
    }
}

/// The path of the build output: `<project>/dist/out/<file name>`.
pub open spec fn output_path(
    project_path: Seq<char>,
    output_type: Seq<char>,
    name: Seq<char>,
    platform: Platform,
) -> Seq<char> {
    project_path + "/dist/out/"@ + output_file_name(name, output_type, platform)
}

/// The index of the dot that starts a file name's extension: its last dot, unless
/// that dot is the name's first character.
pub open spec fn extension_dot(name: Seq<char>) -> Option<int> {
    match last_occurrence(name, seq!['.']) {
        Some(d) => if d > 0 {
            Some(d)
        } else {
            None
        },
        None => None,
    }
}

/// The extension of a file name: what follows its extension dot.
pub open spec fn file_extension(name: Seq<char>) -> Option<Seq<char>> {
    match extension_dot(name) {
        Some(d) => Some(name.skip(d + 1)),
        None => None,
    }
}

/// The stem of a file name: what comes before its extension dot, or the whole name.
pub open spec fn file_stem(name: Seq<char>) -> Seq<char> {
    match extension_dot(name) {
        Some(d) => name.take(d),
        None => name,
    }
}

/// `s` without one leading `lib`.
pub open spec fn strip_lib(s: Seq<char>) -> Seq<char> {
    if occurs_at(s, seq!['l', 'i', 'b'], 0) {
        s.skip(3)
    } else {
        s
    }
}

/// The library that a file in a dependency's `lib` directory provides: for a file
/// with extension `a` or `lib`, its stem without a leading `lib`.
pub open spec fn library_of(file_name: Seq<char>) -> Option<Seq<char>> {
    match file_extension(file_name) {
        Some(e) => if e == "a"@ || e == "lib"@ {
            Some(strip_lib(file_stem(file_name)))
        } else {
            None
        },
        None => None,
    }
}

/// A whitespace character in the sense of Unicode's `White_Space` property, which
/// splitting a line into words goes by.
pub open spec fn is_white_space(c: char) -> bool {
    ||| c == '\t'
    ||| c == '\n'
    ||| c == '\u{0B}'
    ||| c == '\u{0C}'
    ||| c == '\r'
    ||| c == ' '
    ||| c == '\u{85}'
    ||| c == '\u{A0}'
    ||| c == '\u{1680}'
    ||| ('\u{2000}' <= c && c <= '\u{200A}')
    ||| c == '\u{2028}'
    ||| c == '\u{2029}'
    ||| c == '\u{202F}'
    ||| c == '\u{205F}'
    ||| c == '\u{3000}'
}

/// Only whitespace stands in `s` from `from` to the end of that line.
pub open spec fn blank_to_line_end(s: Seq<char>, from: int) -> bool {
    forall|q: int|
        from <= q < s.len() && (forall|r: int| from <= r < q ==> s[r] != '\n') ==> #[trigger] is_white_space(
            s[q],
        )
}

/// At `p` stands the word `main`, and it is the last word of its line.
pub open spec fn main_word_at(s: Seq<char>, p: int) -> bool {
    &&& occurs_at(s, seq!['m', 'a', 'i', 'n'], p)
    &&& (p == 0 || is_white_space(s[p - 1]))
    &&& blank_to_line_end(s, p + 4)
}

/// Some line of the symbol listing ends with the word `main`: the object file
/// defines `main`.
pub open spec fn lists_main(s: Seq<char>) -> bool {
    exists|p: int| main_word_at(s, p)
}

/// An ASCII letter, digit or `_`: a character that can stand inside a symbol name.
pub open spec fn is_name_char(c: char) -> bool {
    ||| ('a' <= c && c <= 'z')
    ||| ('A' <= c && c <= 'Z')
    ||| ('0' <= c && c <= '9')
    ||| c == '_'
}

/// `main` counts only as a whole word that ends its line: a symbol that merely
/// ends in `main` (`worker_main`, `_main`, `domain`) or begins with it (`main_loop`)
/// does not count; and a listing with a line that is just `main` lists it.
pub proof fn lemma_main_is_a_whole_last_word(s: Seq<char>, p: int)
    ensures
        0 < p <= s.len() && is_name_char(s[p - 1]) ==> !main_word_at(s, p),
        0 <= p && p + 4 < s.len() && is_name_char(s[p + 4]) ==> !main_word_at(s, p),
        lists_main(s + seq!['\n', 'm', 'a', 'i', 'n']),
        lists_main(s + seq!['\n', 'm', 'a', 'i', 'n', '\n']),
{
    if 0 <= p && p + 4 < s.len() && is_name_char(s[p + 4]) && main_word_at(s, p) {
        assert(is_white_space(s[p + 4]));
    }
    let t = s + seq!['\n', 'm', 'a', 'i', 'n'];
    let q: int = s.len() as int + 1;
    assert(t.subrange(q, q + 4) =~= seq!['m', 'a', 'i', 'n']);
    assert(t[q - 1] == '\n');
    assert(main_word_at(t, q));
    let u = s + seq!['\n', 'm', 'a', 'i', 'n', '\n'];
    assert(u.subrange(q, q + 4) =~= seq!['m', 'a', 'i', 'n']);
    assert(u[q - 1] == '\n');
    assert(u[q + 4] == '\n');
    assert(blank_to_line_end(u, q + 4)) by {
        assert forall|k: int|
            q + 4 <= k < u.len() && (forall|r: int| q + 4 <= r < k ==> u[r] != '\n') implies #[trigger] is_white_space(
            u[k],
        ) by {
            assert(k == q + 4);
        }
    }
    assert(main_word_at(u, q));
}

/// The object files that do not define `main`, in order.
pub open spec fn without_main(objs: Seq<Seq<char>>, has_main: Seq<bool>) -> Seq<Seq<char>>
    decreases objs.len(),
{
    if objs.len() == 0 {
        Seq::empty()
    } else if has_main[objs.len() - 1] {
        without_main(objs.drop_last(), has_main)
    } else {
        without_main(objs.drop_last(), has_main).push(objs.last())
    }
}

/// No object file that defines `main` is kept, and every kept one is one of the
/// object files, in order.
pub proof fn lemma_without_main_excludes_main(objs: Seq<Seq<char>>, has_main: Seq<bool>)
    requires
        has_main.len() == objs.len(),
    ensures
        without_main(objs, has_main).len() <= objs.len(),
        forall|x: Seq<char>|
            #[trigger] without_main(objs, has_main).contains(x) ==> exists|i: int|
                0 <= i < objs.len() && objs[i] == x && !has_main[i],
        forall|i: int|
            0 <= i < objs.len() && !has_main[i] ==> #[trigger] without_main(objs, has_main).contains(
                objs[i],
            ),
    decreases objs.len(),
{
    if objs.len() > 0 {
        let p = objs.drop_last();
        let hp = has_main.drop_last();
        lemma_without_main_excludes_main(p, hp);
        assert(without_main(p, has_main) == without_main(p, hp)) by {
            lemma_without_main_prefix(p, has_main, hp);
        }
        let w = without_main(objs, has_main);
        let wp = without_main(p, hp);
        assert forall|x: Seq<char>| #[trigger] w.contains(x) implies exists|i: int|
            0 <= i < objs.len() && objs[i] == x && !has_main[i] by {
            if wp.contains(x) {
                let i = choose|i: int| 0 <= i < p.len() && p[i] == x && !hp[i];
                assert(objs[i] == x && !has_main[i]);
            } else {
                let j = choose|j: int| 0 <= j < w.len() && w[j] == x;
                assert(j == wp.len());
                assert(objs[objs.len() - 1] == x);
            }
        }
        assert forall|i: int| 0 <= i < objs.len() && !has_main[i] implies #[trigger] w.contains(
            objs[i],
        ) by {
            if i < objs.len() - 1 {
                assert(p[i] == objs[i] && hp[i] == has_main[i]);
                assert(wp.contains(p[i]));
                let j = choose|j: int| 0 <= j < wp.len() && wp[j] == p[i];
                assert(w[j] == objs[i]);
            } else {
                assert(w[wp.len() as int] == objs[i]);
            }
        }
    }
}

/// Which object files are kept depends only on the flags of those object files.
proof fn lemma_without_main_prefix(objs: Seq<Seq<char>>, a: Seq<bool>, b: Seq<bool>)
    requires
        objs.len() <= a.len(),
        objs.len() <= b.len(),
        forall|i: int| 0 <= i < objs.len() ==> a[i] == b[i],
    ensures
        without_main(objs, a) == without_main(objs, b),
    decreases objs.len(),
{
    if objs.len() > 0 {
        lemma_without_main_prefix(objs.drop_last(), a, b);
    }
}

/// The object files that go to the linker: for a library, those without `main`.
pub open spec fn link_inputs(output_type: Seq<char>, objs: Seq<Seq<char>>, has_main: Seq<bool>) -> Seq<
    Seq<char>,
> {
    if output_type == "static"@ || output_type == "shared"@ {
        without_main(objs, has_main)
    } else {
        objs
    }
}

/// The error when the build produced no object file.
pub open spec fn no_objects_message() -> Seq<char> {
    "\x1b[31m❌ No object files found for linking\x1b[0m"@
}

/// The error when every object file of a library build defines `main`.
pub open spec fn all_filtered_message() -> Seq<char> {
    "\x1b[31m❌ There are no target files to link (all files containing the main function have been filtered out)\x1b[0m"@
}

/// A command by its program and arguments, or an error by its text.
pub open spec fn command_result(r: Result<CommandLine, String>) -> Result<
    (Seq<char>, Seq<Seq<char>>),
    Seq<char>,
> {
    match r {
        Ok(c) => Ok(c@),
        Err(e) => Err(e@),
    }
}

/// With G++, an executable or shared library is linked against every library of
/// the dependencies and then every system library (each as `-l<name>`), into the
/// output path; and an executable with some object file always links.
pub proof fn lemma_link_passes_all_libraries(
    b: Builder<GppCompiler>,
    project_path: Seq<char>,
    output_type: Seq<char>,
    system_libraries: Seq<Seq<char>>,
    objs: Seq<Seq<char>>,
    has_main: Seq<bool>,
    lib_dirs: Seq<Seq<char>>,
    libraries: Seq<Seq<char>>,
    name: Seq<char>,
    platform: Platform,
)
    requires
        has_main.len() == objs.len(),
        output_type == "bin"@ || output_type == "shared"@,
    ensures
        match b.link_plan(
            project_path,
            output_type,
            system_libraries,
            objs,
            has_main,
            lib_dirs,
            libraries,
            name,
            platform,
        ) {
            Ok(cmd) => {
                &&& cmd.0 == "g++"@
                &&& forall|i: int| 0 <= i < libraries.len() ==> cmd.1.contains("-l"@ + libraries[i])
                &&& forall|j: int|
                    0 <= j < system_libraries.len() ==> cmd.1.contains("-l"@ + system_libraries[j])
                &&& cmd.1.last() == output_path(project_path, output_type, name, platform)
            },
            Err(_) => objs.len() == 0 || (output_type == "shared"@ && forall|i: int|
                0 <= i < objs.len() ==> has_main[i]),
        },
        output_type == "bin"@ && objs.len() > 0 ==> b.link_plan(
            project_path,
            output_type,
            system_libraries,
            objs,
            has_main,
            lib_dirs,
            libraries,
            name,
            platform,
        ) is Ok,
{
    reveal_strlit("bin");
    reveal_strlit("static");
    reveal_strlit("shared");
    assert("bin"@[0] != "static"@[0]);
    assert("bin"@[0] != "shared"@[0]);
    assert("static"@[1] != "shared"@[1]);
    lemma_without_main_excludes_main(objs, has_main);
    let inputs = link_inputs(output_type, objs, has_main);
    let out = output_path(project_path, output_type, name, platform);
    let libs = libraries + system_libraries;
    let head = if output_type == "shared"@ {
        seq!["-shared"@, "-fPIC"@] + inputs + prefixed("-L"@, lib_dirs)
    } else {
        inputs + prefixed("-L"@, lib_dirs)
    };
    let args = head + prefixed("-l"@, libs) + seq!["-o"@, out];
    if objs.len() > 0 && inputs.len() > 0 {
        if output_type == "shared"@ {
            assert(args =~= seq!["-shared"@, "-fPIC"@] + inputs + prefixed("-L"@, lib_dirs)
                + prefixed("-l"@, libs) + seq!["-o"@, out]);
        } else {
            assert(args =~= inputs + prefixed("-L"@, lib_dirs) + prefixed("-l"@, libs) + seq![
                "-o"@,
                out,
            ]);
        }
        assert forall|i: int| 0 <= i < libraries.len() implies args.contains(
            "-l"@ + libraries[i],
        ) by {
            assert(args[head.len() + i] == "-l"@ + libs[i]);
        }
        assert forall|j: int| 0 <= j < system_libraries.len() implies args.contains(
            "-l"@ + system_libraries[j],
        ) by {
            assert(libs[libraries.len() + j] == system_libraries[j]);
            assert(args[head.len() + libraries.len() + j] == "-l"@ + libs[libraries.len() + j]);
        }
        assert(args.last() == out);
    }
    if objs.len() > 0 && inputs.len() == 0 && output_type == "shared"@ {
        assert forall|i: int| 0 <= i < objs.len() implies has_main[i] by {
            if !has_main[i] {
                assert(inputs.contains(objs[i]));
            }
        }
    }
}

/// Whether `c` is whitespace.
fn white_space(c: char) -> (r: bool)
    ensures
        r == is_white_space(c),
{
    c == '\t' || c == '\n' || c == '\u{0B}' || c == '\u{0C}' || c == '\r' || c == ' ' || c
        == '\u{85}' || c == '\u{A0}' || c == '\u{1680}' || ('\u{2000}' <= c && c <= '\u{200A}')
        || c == '\u{2028}' || c == '\u{2029}' || c == '\u{202F}' || c == '\u{205F}' || c
        == '\u{3000}'
}

/// Whether only whitespace stands in `v` from `from` to the end of that line.
fn blank_from(v: &Vec<char>, from: usize) -> (r: bool)
    ensures
        r == blank_to_line_end(v@, from as int),
{
    let mut q = from;
    while q < v.len()
        invariant
            from <= q,
            forall|r: int| from <= r < q ==> v@[r] != '\n' && is_white_space(v@[r]),
        decreases v@.len() - q,
    {
        let c = v[q];
        if c == '\n' {
            assert forall|k: int|
                from <= k < v@.len() && (forall|r: int| from <= r < k ==> v@[r] != '\n') implies #[trigger] is_white_space(
                v@[k],
            ) by {
                if k > q {
                    assert(v@[q as int] == '\n');
                }
            }
            return true;
        }
        if !white_space(c) {
            return false;
        }
        q = q + 1;
    }
    true
}

/// The index of the dot that starts the extension of the file name `v`.
fn find_extension_dot(v: &Vec<char>) -> (r: Option<usize>)
    ensures
        r matches Some(d) ==> extension_dot(v@) == Some(d as int) && 0 < d < v@.len(),
        r is None ==> extension_dot(v@) is None,
{
    let dot: Vec<char> = vec!['.'];
    assert(dot@ =~= seq!['.']);
    match rfind(v, &dot) {
        Some(d) => if d > 0 {
            Some(d)
        } else {
            None
        },
        None => None,
    }
}

/// The first `n` characters of `v`.
fn take_chars_upto(v: &Vec<char>, n: usize) -> (r: Vec<char>)
    requires
        n <= v@.len(),
    ensures
        r@ == v@.take(n as int),
{
    let mut r: Vec<char> = Vec::new();
    let mut i: usize = 0;
    while i < n
        invariant
            i <= n <= v@.len(),
            r@ == v@.take(i as int),
        decreases n - i,
    {
        r.push(v[i]);
        i = i + 1;
        assert(r@ =~= v@.take(i as int));
    }
    r
}

/// The name of the build output, for each output type and platform: `demo` and
/// `demo.exe` for an executable, `libdemo.a` for a static library on every platform,
/// `demo.dll`, `libdemo.dylib` and `libdemo.so` for a shared library; and it lies
/// in the project's `dist/out`.
pub proof fn lemma_output_names(project_path: Seq<char>, name: Seq<char>, platform: Platform)
    ensures
        output_file_name(name, "static"@, platform) == "lib"@ + name + ".a"@,
        forall|p1: Platform, p2: Platform|
            #[trigger] output_file_name(name, "static"@, p1) == #[trigger] output_file_name(
                name,
                "static"@,
                p2,
            ),
        output_file_name(name, "bin"@, Platform::Windows) == name + ".exe"@,
        output_file_name(name, "bin"@, Platform::MacOs) == name,
        output_file_name(name, "bin"@, Platform::Other) == name,
        output_file_name(name, "shared"@, Platform::Windows) == name + ".dll"@,
        output_file_name(name, "shared"@, Platform::MacOs) == "lib"@ + name + ".dylib"@,
        output_file_name(name, "shared"@, Platform::Other) == "lib"@ + name + ".so"@,
        forall|t: Seq<char>|
            #[trigger] output_path(project_path, t, name, platform) == project_path + "/dist/out/"@
                + output_file_name(name, t, platform),
{
    reveal_strlit("bin");
    reveal_strlit("static");
    reveal_strlit("shared");
    assert("bin"@[0] != "static"@[0]);
    assert("bin"@[0] != "shared"@[0]);
    assert("static"@[1] != "shared"@[1]);
}

/// Build executor - runs the build with the given compiler.
pub struct Builder<C: Compiler> {
    compiler: C,
}

impl<C: Compiler> Builder<C> {
    /// The compiler the builder uses.
    pub closed spec fn toolchain(&self) -> C {
        self.compiler
    }

    /// The command that the builder's compiler gives for compiling `source` into `output`.
    pub open spec fn compile_command(
        &self,
        source: Seq<char>,
        output: Seq<char>,
        flags: Seq<Seq<char>>,
    ) -> (Seq<char>, Seq<Seq<char>>) {
        self.toolchain().compile_command(source, output, flags)
    }

    /// The link command (or error) that the builder's compiler gives.
    pub open spec fn link_command(
        &self,
        objects: Seq<Seq<char>>,
        output: Seq<char>,
        lib_dirs: Seq<Seq<char>>,
        libraries: Seq<Seq<char>>,
        output_type: Seq<char>,
    ) -> Result<(Seq<char>, Seq<Seq<char>>), Seq<char>> {
        self.toolchain().link_command(objects, output, lib_dirs, libraries, output_type)
    }

    /// Create a new build executor.
    pub fn new(compiler: C) -> (b: Self)
        ensures
            b.toolchain() == compiler,
    {
        Builder { compiler }
    }

    /// The link step's outcome: the link command for the object files that go to
    /// the linker, or the error of an empty set of them.
    pub open spec fn link_plan(
        &self,
        project_path: Seq<char>,
        output_type: Seq<char>,
        system_libraries: Seq<Seq<char>>,
        objs: Seq<Seq<char>>,
        has_main: Seq<bool>,
        lib_dirs: Seq<Seq<char>>,
        libraries: Seq<Seq<char>>,
        project_name: Seq<char>,
        platform: Platform,
    ) -> Result<(Seq<char>, Seq<Seq<char>>), Seq<char>> {
        if objs.len() == 0 {
            Err(no_objects_message())
        } else if link_inputs(output_type, objs, has_main).len() == 0 {
            Err(all_filtered_message())
        } else {
            self.link_command(
                link_inputs(output_type, objs, has_main),
                output_path(project_path, output_type, project_name, platform),
                lib_dirs,
                libraries + system_libraries,
                output_type,
            )
        }
    }

    /// Add include directories to the compiler flags, each as `-I<dir>`.
    pub fn add_include_paths(&self, flags: Vec<String>, include_dirs: &[String]) -> (r: Vec<String>)
        ensures
            strings_view(r@) == strings_view(flags@) + prefixed("-I"@, strings_view(include_dirs@)),
    {
        let mut r = flags;
        crate::builder::gpp::push_prefixed(&mut r, "-I", include_dirs);
        r
    }

    /// Where compiling `file` puts its object file, and the command that does it.
    pub fn compile_source(&self, file: &str, flags: &[String]) -> (r: (String, CommandLine))
        ensures
            r.0@ == object_path(file@),
            r.1@ == self.compile_command(file@, r.0@, strings_view(flags@)),
    {
        let mut output = base_path(file);
        push_str(&mut output, "/dist/obj/");
        let stem = get_file_name(file);
        push_str(&mut output, stem.as_str());
        push_str(&mut output, ".o");
        let cmd = self.compiler.compile(file, output.as_str(), flags);
        (output, cmd)
    }

    /// Generate the output file path from the project name and the output type.
    pub fn get_output_file(
        &self,
        project_path: &str,
        output_type: &str,
        project_name: &str,
        platform: Platform,
    ) -> (r: String)
        ensures
            r@ == output_path(project_path@, output_type@, project_name@, platform),
    {
        let mut name = String::new();
        if crate::utils::text::str_eq(output_type, "bin") {
            push_str(&mut name, project_name);
            if platform == Platform::Windows {
                push_str(&mut name, ".exe");
            }
        } else if crate::utils::text::str_eq(output_type, "static") {
            push_str(&mut name, "lib");
            push_str(&mut name, project_name);
            push_str(&mut name, ".a");
        } else if crate::utils::text::str_eq(output_type, "shared") {
            if platform == Platform::Windows {
                push_str(&mut name, project_name);
                push_str(&mut name, ".dll");
            } else if platform == Platform::MacOs {
                push_str(&mut name, "lib");
                push_str(&mut name, project_name);
                push_str(&mut name, ".dylib");
            } else {
                push_str(&mut name, "lib");
                push_str(&mut name, project_name);
                push_str(&mut name, ".so");
            }
        } else {
            push_str(&mut name, project_name);
        }
        proof {
            assert(name@ =~= output_file_name(project_name@, output_type@, platform));
        }
        let mut r = String::new();
        push_str(&mut r, project_path);
        push_str(&mut r, "/dist/out/");
        push_str(&mut r, name.as_str());
        r
    }

    /// The library provided by a file (given by its name) in a dependency's `lib`
    /// directory: for a file with extension `a` or `lib`, its stem without a leading `lib`.
    pub fn library_name(&self, file_name: &str) -> (r: Option<String>)
        ensures
            r matches Some(n) ==> library_of(file_name@) == Some(n@),
            r is None ==> library_of(file_name@) is None,
    {
        let v = chars_of(file_name);
        let n = v.len();
        let d = match find_extension_dot(&v) {
            Some(d) => d,
            None => {
                return None;
            },
        };
        let ext = string_of(&v, d + 1, n);
        assert(ext@ =~= v@.skip(d + 1));
        if !(crate::utils::text::str_eq(ext.as_str(), "a") || crate::utils::text::str_eq(
            ext.as_str(),
            "lib",
        )) {
            return None;
        }
        let prefix: Vec<char> = vec!['l', 'i', 'b'];
        let stem = take_chars_upto(&v, d);
        assert(prefix@ =~= seq!['l', 'i', 'b']);
        if crate::utils::text::matches_at(&stem, &prefix, 0) {
            let r = string_of(&stem, 3, stem.len());
            assert(r@ =~= stem@.skip(3));
            Some(r)
        } else {
            let r = string_of(&stem, 0, stem.len());
            assert(r@ =~= stem@);
            Some(r)
        }
    }

    /// Whether a file (given by its name) is an object file: its extension is `o`.
    pub fn is_object_file(&self, file_name: &str) -> (r: bool)
        ensures
            r == (file_extension(file_name@) == Some("o"@)),
    {
        let v = chars_of(file_name);
        let n = v.len();
        match find_extension_dot(&v) {
            Some(d) => {
                let ext = string_of(&v, d + 1, n);
                assert(ext@ =~= v@.skip(d + 1));
                crate::utils::text::str_eq(ext.as_str(), "o")
            },
            None => false,
        }
    }

    /// Whether a symbol listing (the output of `nm`) shows `main`: some line's last
    /// whitespace-separated word is `main`.
    pub fn has_main_symbol(&self, listing: &str) -> (r: bool)
        ensures
            r == lists_main(listing@),
    {
        let v = chars_of(listing);
        let word: Vec<char> = vec!['m', 'a', 'i', 'n'];
        assert(word@ =~= seq!['m', 'a', 'i', 'n']);
        let mut p: usize = 0;
        while p < v.len()
            invariant
                p <= v@.len(),
                v@ == listing@,
                word@ == seq!['m', 'a', 'i', 'n'],
                forall|j: int| 0 <= j < p ==> !main_word_at(v@, j),
            decreases v@.len() - p,
        {
            if crate::utils::text::matches_at(&v, &word, p) && (p == 0 || white_space(v[p - 1])) {
                if blank_from(&v, p + 4) {
                    assert(main_word_at(v@, p as int));
                    return true;
                }
            }
            p = p + 1;
        }
        assert forall|j: int| !main_word_at(v@, j) by {
            if 0 <= j < v@.len() {
            } else if j >= v@.len() {
                assert(!occurs_at(v@, seq!['m', 'a', 'i', 'n'], j));
            }
        }
        false
    }

    /// Keep the object files that do not define `main` (for library builds).
    pub fn filter_main_objects(&self, obj_files: &[String], has_main: &[bool]) -> (r: Vec<String>)
        requires
            has_main@.len() == obj_files@.len(),
        ensures
            strings_view(r@) == without_main(strings_view(obj_files@), has_main@),
    {
        let ghost objs = strings_view(obj_files@);
        let mut r: Vec<String> = Vec::new();
        let mut i: usize = 0;
        while i < obj_files.len()
            invariant
                i <= obj_files@.len() == has_main@.len(),
                objs == strings_view(obj_files@),
                strings_view(r@) == without_main(objs.take(i as int), has_main@),
            decreases obj_files@.len() - i,
        {
            assert(objs.take(i + 1).drop_last() =~= objs.take(i as int));
            if !has_main[i] {
                let ghost before = r@;
                r.push(obj_files[i].clone());
                assert(strings_view(r@) =~= strings_view(before).push(objs[i as int]));
            }
            i = i + 1;
        }
        assert(objs.take(i as int) =~= objs);
        r
    }

    /// The link step: gather the libraries (the dependencies' and then the system
    /// ones), refuse an empty set of object files, keep only those without `main`
    /// for a library, and ask the compiler for the link command.
    pub fn link_step(
        &self,
        config: &BuildConfig,
        obj_files: &[String],
        has_main: &[bool],
        lib_dirs: &[String],
        libraries: &[String],
        project_name: &str,
        platform: Platform,
    ) -> (r: Result<CommandLine, String>)
        requires
            has_main@.len() == obj_files@.len(),
        ensures
            command_result(r) == self.link_plan(
                config.project_path@,
                config.output_type@,
                strings_view(config.system_libraries@),
                strings_view(obj_files@),
                has_main@,
                strings_view(lib_dirs@),
                strings_view(libraries@),
                project_name@,
                platform,
            ),
    {
        let mut all_libraries: Vec<String> = Vec::new();
        crate::builder::gpp::push_prefixed(&mut all_libraries, "", libraries);
        crate::builder::gpp::push_prefixed(&mut all_libraries, "", config.system_libraries);
        proof {
            crate::builder::gpp::lemma_prefixed_empty(strings_view(libraries@));
            crate::builder::gpp::lemma_prefixed_empty(strings_view(config.system_libraries@));
            assert(Seq::<Seq<char>>::empty() + strings_view(libraries@) =~= strings_view(
                libraries@,
            ));
        }
        if obj_files.len() == 0 {
            return Err("\x1b[31m❌ No object files found for linking\x1b[0m".to_string());
        }
        let is_library = crate::utils::text::str_eq(config.output_type, "static")
            || crate::utils::text::str_eq(config.output_type, "shared");
        let mut inputs: Vec<String> = Vec::new();
        if is_library {
            inputs = self.filter_main_objects(obj_files, has_main);
        } else {
            crate::builder::gpp::push_prefixed(&mut inputs, "", obj_files);
            proof {
                crate::builder::gpp::lemma_prefixed_empty(strings_view(obj_files@));
                assert(Seq::<Seq<char>>::empty() + strings_view(obj_files@) =~= strings_view(
                    obj_files@,
                ));
            }
        }
        if inputs.len() == 0 {
            return Err(
                "\x1b[31m❌ There are no target files to link (all files containing the main function have been filtered out)\x1b[0m".to_string(),
            );
        }
        let output_file = self.get_output_file(
            config.project_path,
            config.output_type,
            project_name,
            platform,
        );
        self.compiler.link(
            inputs.as_slice(),
            output_file.as_str(),
            lib_dirs,
            all_libraries.as_slice(),
            config.output_type,
        )
    }
}

} // verus!
