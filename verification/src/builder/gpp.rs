//! The G++ toolchain.

use vstd::prelude::*;
use crate::builder::compiler_trait::{CommandLine, Compiler};
use crate::utils::text::{push_str, strings_view};

verus! {

/// `prefix` put in front of each item.
pub open spec fn prefixed(prefix: Seq<char>, items: Seq<Seq<char>>) -> Seq<Seq<char>> {
    items.map_values(|x: Seq<char>| prefix + x)
}

/// The arguments of `g++` that compile `source` into `output`.
pub open spec fn compile_args(source: Seq<char>, output: Seq<char>, flags: Seq<Seq<char>>) -> Seq<
    Seq<char>,
> {
    seq![source] + flags + seq!["-c"@, "-o"@ + output]
}

/// The command that links, by output type.
pub open spec fn gpp_link_command(
    objects: Seq<Seq<char>>,
    output: Seq<char>,
    lib_dirs: Seq<Seq<char>>,
    libraries: Seq<Seq<char>>,
    output_type: Seq<char>,
) -> Result<(Seq<char>, Seq<Seq<char>>), Seq<char>> {
    if output_type == "static"@ {
        Ok(("ar"@, seq!["rcs"@, output] + objects))
    } else if output_type == "shared"@ {
        Ok(
            (
                "g++"@,
                seq!["-shared"@, "-fPIC"@] + objects + prefixed("-L"@, lib_dirs) + prefixed(
                    "-l"@,
                    libraries,
                ) + seq!["-o"@, output],
            ),
        )
    } else if output_type == "bin"@ {
        Ok(
            (
                "g++"@,
                objects + prefixed("-L"@, lib_dirs) + prefixed("-l"@, libraries) + seq![
                    "-o"@,
                    output,
                ],
            ),
        )
    } else {
        Err("Unsupported output type"@)
    }
}

/// Appends the items of `items`, each with `prefix` in front, to `args`.
pub(crate) fn push_prefixed(args: &mut Vec<String>, prefix: &str, items: &[String])
    ensures
        strings_view(final(args)@) == strings_view(old(args)@) + prefixed(prefix@, strings_view(items@)),
{
    let ghost start = strings_view(args@);
    let mut i: usize = 0;
    while i < items.len()
        invariant
            i <= items@.len(),
            strings_view(args@) == start + prefixed(prefix@, strings_view(items@)).take(i as int),
        decreases items@.len() - i,
    {
        let mut a = String::new();
        push_str(&mut a, prefix);
        push_str(&mut a, items[i].as_str());
        let ghost before = args@;
        args.push(a);
        assert(strings_view(args@) =~= strings_view(before).push(a@));
        i = i + 1;
        assert(prefixed(prefix@, strings_view(items@)).take(i as int) =~= prefixed(
            prefix@,
            strings_view(items@),
        ).take(i - 1).push(prefix@ + items@[i - 1]@));
    }
    assert(prefixed(prefix@, strings_view(items@)).take(i as int) =~= prefixed(
        prefix@,
        strings_view(items@),
    ));
}

/// Appends `item` to `args`.
fn push_arg(args: &mut Vec<String>, item: &str)
    ensures
        strings_view(final(args)@) == strings_view(old(args)@).push(item@),
{
    let ghost before = args@;
    args.push(item.to_string());
    assert(strings_view(args@) =~= strings_view(before).push(item@));
}

/// G++ Compiler Implementation
pub struct GppCompiler;

impl Compiler for GppCompiler {
    open spec fn compile_command(
        &self,
        source: Seq<char>,
        output: Seq<char>,
        flags: Seq<Seq<char>>,
    ) -> (Seq<char>, Seq<Seq<char>>) {
        ("g++"@, compile_args(source, output, flags))
    }

    open spec fn link_command(
        &self,
        objects: Seq<Seq<char>>,
        output: Seq<char>,
        lib_dirs: Seq<Seq<char>>,
        libraries: Seq<Seq<char>>,
        output_type: Seq<char>,
    ) -> Result<(Seq<char>, Seq<Seq<char>>), Seq<char>> {
        gpp_link_command(objects, output, lib_dirs, libraries, output_type)
    }

    open spec fn tool_name(&self) -> Seq<char> {
        "g++"@
    }

    fn name(&self) -> (n: &str) {
        "g++"
    }

    fn compile(&self, source: &str, output: &str, flags: &[String]) -> (cmd: CommandLine) {
        let mut args: Vec<String> = Vec::new();
        push_arg(&mut args, source);
        push_prefixed(&mut args, "", flags);
        push_arg(&mut args, "-c");
        let mut o = "-o".to_string();
        push_str(&mut o, output);
        push_arg(&mut args, o.as_str());
        proof {
            lemma_prefixed_empty(strings_view(flags@));
            assert(strings_view(args@) =~= compile_args(source@, output@, strings_view(flags@)));
        }
        CommandLine { program: "g++".to_string(), args }
    }

    fn link(
        &self,
        objects: &[String],
        output: &str,
        lib_dirs: &[String],
        libraries: &[String],
        output_type: &str,
    ) -> (cmd: Result<CommandLine, String>) {
        let t = output_type.to_string();
        let mut args: Vec<String> = Vec::new();
        if t == "static".to_string() {
            push_arg(&mut args, "rcs");
            push_arg(&mut args, output);
            push_prefixed(&mut args, "", objects);
            proof {
                lemma_prefixed_empty(strings_view(objects@));
                assert(strings_view(args@) =~= seq!["rcs"@, output@] + strings_view(objects@));
            }
            Ok(CommandLine { program: "ar".to_string(), args })
        } else if t == "shared".to_string() {
            push_arg(&mut args, "-shared");
            push_arg(&mut args, "-fPIC");
            push_prefixed(&mut args, "", objects);
            push_prefixed(&mut args, "-L", lib_dirs);
            push_prefixed(&mut args, "-l", libraries);
            push_arg(&mut args, "-o");
            push_arg(&mut args, output);
            proof {
                lemma_prefixed_empty(strings_view(objects@));
                assert(strings_view(args@) =~= seq!["-shared"@, "-fPIC"@] + strings_view(objects@)
                    + prefixed("-L"@, strings_view(lib_dirs@)) + prefixed(
                    "-l"@,
                    strings_view(libraries@),
                ) + seq!["-o"@, output@]);
            }
            Ok(CommandLine { program: "g++".to_string(), args })
        } else if t == "bin".to_string() {
            push_prefixed(&mut args, "", objects);
            push_prefixed(&mut args, "-L", lib_dirs);
            push_prefixed(&mut args, "-l", libraries);
            push_arg(&mut args, "-o");
            push_arg(&mut args, output);
            proof {
                lemma_prefixed_empty(strings_view(objects@));
                assert(strings_view(args@) =~= strings_view(objects@) + prefixed(
                    "-L"@,
                    strings_view(lib_dirs@),
                ) + prefixed("-l"@, strings_view(libraries@)) + seq!["-o"@, output@]);
            }
            Ok(CommandLine { program: "g++".to_string(), args })
        } else {
            Err("Unsupported output type".to_string())
        }
    }
}

/// An empty prefix leaves the items as they are.
pub proof fn lemma_prefixed_empty(items: Seq<Seq<char>>)
    ensures
        prefixed(""@, items) == items,
{
    reveal_strlit("");
    assert forall|i: int| 0 <= i < items.len() implies #[trigger] prefixed(""@, items)[i]
        == items[i] by {
        assert(""@ + items[i] =~= items[i]);
    }
    assert(prefixed(""@, items) =~= items);
}

} // verus!
