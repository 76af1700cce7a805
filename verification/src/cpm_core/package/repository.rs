//! Fetching and building a package: the decisions between the steps that run Git,
//! CMake and Make and copy files.

use vstd::prelude::*;
use crate::builder::compiler_trait::CommandLine;
use crate::utils::text::{chars_of, ends_with, push_str, strings_view};

verus! {

/// What to do before cloning into a directory.
#[derive(Debug, Clone, Copy, PartialEq, Eq, Structural)]
pub enum CloneAction {
    /// The directory already holds a Git repository: leave it.
    Skip,
    /// The directory does not exist: clone into it.
    Clone,
    /// The directory exists without `.git`: delete it, then clone.
    ReplaceAndClone,
}

/// What to do for a target directory, given whether it holds `.git` and whether it exists.
pub fn clone_action(git_exists: bool, dir_exists: bool) -> (a: CloneAction)
    ensures
        git_exists ==> a == CloneAction::Skip,
        !git_exists && dir_exists ==> a == CloneAction::ReplaceAndClone,
        !git_exists && !dir_exists ==> a == CloneAction::Clone,
{
    if git_exists {
        CloneAction::Skip
    } else if dir_exists {
        CloneAction::ReplaceAndClone
    } else {
        CloneAction::Clone
    }
}

/// The shallow clone of `url` into `target_dir`: `git clone --depth 1 <url> <target>`.
pub fn clone_command(url: &str, target_dir: &str) -> (cmd: CommandLine)
    ensures
        cmd@ == ("git"@, seq!["clone"@, "--depth"@, "1"@, url@, target_dir@]),
{
    let mut args: Vec<String> = Vec::new();
    args.push("clone".to_string());
    args.push("--depth".to_string());
    args.push("1".to_string());
    args.push(url.to_string());
    args.push(target_dir.to_string());
    assert(strings_view(args@) =~= seq!["clone"@, "--depth"@, "1"@, url@, target_dir@]);
    CommandLine { program: "git".to_string(), args }
}

/// A built library file: its name ends with `.a`, `.so`, `.dll` or `.lib`.
pub open spec fn is_library_name(name: Seq<char>) -> bool {
    ||| ends_with(name, seq!['.', 'a'])
    ||| ends_with(name, seq!['.', 's', 'o'])
    ||| ends_with(name, seq!['.', 'd', 'l', 'l'])
    ||| ends_with(name, seq!['.', 'l', 'i', 'b'])
}

fn has_suffix(v: &Vec<char>, suffix: &Vec<char>) -> (r: bool)
    ensures
        r == ends_with(v@, suffix@),
{
    if suffix.len() > v.len() {
        return false;
    }
    let r = crate::utils::text::matches_at(v, suffix, v.len() - suffix.len());
    assert(v@.skip(v@.len() - suffix@.len()) =~= v@.subrange(
        v@.len() - suffix@.len(),
        v@.len() as int,
    ));
    r
}

/// Whether a file of a package's build directory is a library to install.
pub fn is_library_file(file_name: &str) -> (r: bool)
    ensures
        r == is_library_name(file_name@),
{
    let v = chars_of(file_name);
    let a: Vec<char> = vec!['.', 'a'];
    let so: Vec<char> = vec!['.', 's', 'o'];
    let dll: Vec<char> = vec!['.', 'd', 'l', 'l'];
    let lib: Vec<char> = vec!['.', 'l', 'i', 'b'];
    assert(a@ =~= seq!['.', 'a']);
    assert(so@ =~= seq!['.', 's', 'o']);
    assert(dll@ =~= seq!['.', 'd', 'l', 'l']);
    assert(lib@ =~= seq!['.', 'l', 'i', 'b']);
    has_suffix(&v, &a) || has_suffix(&v, &so) || has_suffix(&v, &dll) || has_suffix(&v, &lib)
}

/// Where a package's build puts its libraries and headers: `<dist>/build` and
/// `<dist>/include`.
pub fn artifact_dirs(dist_path: &str) -> (dirs: (String, String))
    ensures
        dirs.0@ == dist_path@ + "/build"@,
        dirs.1@ == dist_path@ + "/include"@,
{
    let mut build = String::new();
    push_str(&mut build, dist_path);
    push_str(&mut build, "/build");
    let mut headers = String::new();
    push_str(&mut headers, dist_path);
    push_str(&mut headers, "/include");
    (build, headers)
}

} // verus!
