//! The interface of a C/C++ toolchain: the commands that compile and link.

use vstd::prelude::*;
use crate::utils::text::strings_view;

verus! {

/// A program to run and its arguments.
#[derive(Debug, Clone)]
pub struct CommandLine {
    pub program: String,
    pub args: Vec<String>,
}

impl View for CommandLine {
    type V = (Seq<char>, Seq<Seq<char>>);

    open spec fn view(&self) -> (Seq<char>, Seq<Seq<char>>) {
        (self.program@, strings_view(self.args@))
    }
}

/// Compiler trait - the interface that every supported compiler implements: the
/// commands that compile a source file and link object files.
pub trait Compiler {
    /// The command (program, arguments) that compiles `source` into `output`.
    spec fn compile_command(&self, source: Seq<char>, output: Seq<char>, flags: Seq<Seq<char>>) -> (
        Seq<char>,
        Seq<Seq<char>>,
    );

    /// The command (program, arguments) that links, or the error for an output type
    /// the compiler does not produce.
    spec fn link_command(
        &self,
        objects: Seq<Seq<char>>,
        output: Seq<char>,
        lib_dirs: Seq<Seq<char>>,
        libraries: Seq<Seq<char>>,
        output_type: Seq<char>,
    ) -> Result<(Seq<char>, Seq<Seq<char>>), Seq<char>>;

    /// The compiler's name.
    spec fn tool_name(&self) -> Seq<char>;

    /// Get the compiler name.
    fn name(&self) -> (n: &str)
        ensures
            n@ == self.tool_name(),
    ;

    /// The command that compiles `source` into the object file `output`.
    fn compile(&self, source: &str, output: &str, flags: &[String]) -> (cmd: CommandLine)
        ensures
            cmd@ == self.compile_command(source@, output@, strings_view(flags@)),
    ;

    /// The command that links `objects` into `output`, an executable (`bin`), a
    /// static library (`static`) or a shared library (`shared`); an error for any
    /// other output type.
    fn link(
        &self,
        objects: &[String],
        output: &str,
        lib_dirs: &[String],
        libraries: &[String],
        output_type: &str,
    ) -> (cmd: Result<CommandLine, String>)
        ensures
            match cmd {
                Ok(c) => self.link_command(
                    strings_view(objects@),
                    output@,
                    strings_view(lib_dirs@),
                    strings_view(libraries@),
                    output_type@,
                ) == Ok::<(Seq<char>, Seq<Seq<char>>), Seq<char>>(c@),
                Err(e) => self.link_command(
                    strings_view(objects@),
                    output@,
                    strings_view(lib_dirs@),
                    strings_view(libraries@),
                    output_type@,
                ) == Err::<(Seq<char>, Seq<Seq<char>>), Seq<char>>(e@),
            },
    ;
}

} // verus!
