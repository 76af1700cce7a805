//! The files of a new project.

use vstd::prelude::*;
use crate::config::cppdata::{CPM_FILE, GITIGNORE_FILE, HEADER_FILE, MAIN_FILE, README_FILE};
use crate::utils::text::{chars_of, push_str, replace, replace_all, replace_char};

verus! {

/// What `str::to_uppercase` returns for a string: its Unicode upper case.
pub uninterp spec fn uppercase_of(s: Seq<char>) -> Seq<char>;

/// Calls `str::to_uppercase`, which maps each character to its upper case by the
/// Unicode tables; the result is named, not spelled out.
#[verifier::external_body]
fn to_uppercase(s: &str) -> (r: String)
    ensures
        r@ == uppercase_of(s@),
{
    s.to_uppercase()
}

/// The placeholder of the project's name in the templates.
pub open spec fn name_placeholder() -> Seq<char> {
    "{project_name}"@
}

/// The placeholder of the project's name in upper case in the templates.
pub open spec fn upper_placeholder() -> Seq<char> {
    "{project_name_upper}"@
}

/// The project's name as it stands in header guards: upper case, `-` made `_`.
pub open spec fn guard_name(name: Seq<char>) -> Seq<char> {
    replace_char(uppercase_of(name), '-', '_')
}

/// The files of a new project named `name`, as (path in the project, contents).
pub open spec fn project_file_list(name: Seq<char>) -> Seq<(Seq<char>, Seq<char>)> {
    seq![
        ("src/main.cpp"@, replace_all(MAIN_FILE@, name_placeholder(), name)),
        (
            "include/"@ + name + ".hpp"@,
            replace_all(
                replace_all(HEADER_FILE@, name_placeholder(), name),
                upper_placeholder(),
                guard_name(name),
            ),
        ),
        ("cpm.toml"@, replace_all(CPM_FILE@, name_placeholder(), name)),
        ("README.md"@, replace_all(README_FILE@, name_placeholder(), name)),
        (".gitignore"@, GITIGNORE_FILE@),
    ]
}

/// The project's name in upper case with `-` replaced by `_` (for header guards).
pub fn project_name_upper(project_name: &str) -> (r: String)
    ensures
        r@ == guard_name(project_name@),
{
    let up = chars_of(to_uppercase(project_name).as_str());
    let mut r = String::new();
    let mut i: usize = 0;
    while i < up.len()
        invariant
            i <= up@.len(),
            r@ == guard_name(project_name@).take(i as int),
            up@ == uppercase_of(project_name@),
        decreases up@.len() - i,
    {
        if up[i] == '-' {
            r.push('_');
        } else {
            r.push(up[i]);
        }
        i = i + 1;
        assert(r@ =~= guard_name(project_name@).take(i as int));
    }
    assert(guard_name(project_name@).take(i as int) =~= guard_name(project_name@));
    r
}

/// `template` with `placeholder` replaced by `value` everywhere.
fn fill(template: &str, placeholder: &str, value: &str) -> (r: String)
    requires
        placeholder@.len() > 0,
    ensures
        r@ == replace_all(template@, placeholder@, value@),
{
    replace(&chars_of(template), &chars_of(placeholder), &chars_of(value))
}

/// The files of a new project named `project_name`, as (path in the project, contents).
pub fn project_files(project_name: &str) -> (files: Vec<(String, String)>)
    ensures
        crate::cpm_core::toml::rules::pairs_view(files@) == project_file_list(project_name@),
{
    proof {
        reveal_strlit("{project_name}");
        reveal_strlit("{project_name_upper}");
    }
    let upper = project_name_upper(project_name);
    let mut files: Vec<(String, String)> = Vec::new();
    files.push(("src/main.cpp".to_string(), fill(MAIN_FILE, "{project_name}", project_name)));
    let mut header_path = "include/".to_string();
    push_str(&mut header_path, project_name);
    push_str(&mut header_path, ".hpp");
    let header = fill(HEADER_FILE, "{project_name}", project_name);
    files.push(
        (header_path, fill(header.as_str(), "{project_name_upper}", upper.as_str())),
    );
    files.push(("cpm.toml".to_string(), fill(CPM_FILE, "{project_name}", project_name)));
    files.push(("README.md".to_string(), fill(README_FILE, "{project_name}", project_name)));
    files.push((".gitignore".to_string(), GITIGNORE_FILE.to_string()));
    assert(crate::cpm_core::toml::rules::pairs_view(files@) =~= project_file_list(project_name@));
    files
}

} // verus!
