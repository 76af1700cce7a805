//! Uninstalling dependencies: which package is meant, and removing it from the
//! project file.

use vstd::prelude::*;
use crate::cpm_core::toml::operation::{after_removal, removable, OperationToml};
use crate::cpm_core::toml::rules::{pairs_view, unique_keys};
use crate::utils::file::operation::{get_repo_name, repo_name};
use crate::utils::text::push_str;

verus! {

/// Which table an uninstalled package was removed from.
#[derive(Debug, Clone, Copy, PartialEq, Eq, Structural)]
pub enum ConfigRemoval {
    Dependency,
    DevDependency,
    NotFound,
}

/// The package meant by the argument of `uninstall`: the repository name of a URL
/// (an argument that is not an existing path), else the last component of the
/// path, or `unknown` where it has none.
pub open spec fn package_of(arg: Seq<char>, path_exists: bool, local_name: Option<Seq<char>>) -> Seq<
    char,
> {
    if !path_exists {
        repo_name(arg)
    } else {
        match local_name {
            Some(n) => n,
            None => "unknown"@,
        }
    }
}

/// The package meant by the argument of `uninstall`, given whether it is an existing
/// path and that path's last component.
pub fn package_name(project_path: &str, path_exists: bool, local_name: Option<&str>) -> (r: String)
    ensures
        r@ == package_of(
            project_path@,
            path_exists,
            match local_name {
                Some(n) => Some(n@),
                None => None,
            },
        ),
{
    if !path_exists {
        get_repo_name(project_path)
    } else {
        match local_name {
            Some(n) => n.to_string(),
            None => "unknown".to_string(),
        }
    }
}

/// The directory of an installed package: `<base>/modules/<package>`.
pub fn package_dir(base_path: &str, package: &str) -> (r: String)
    ensures
        r@ == base_path@ + "/modules/"@ + package@,
{
    let mut r = String::new();
    push_str(&mut r, base_path);
    push_str(&mut r, "/modules/");
    push_str(&mut r, package);
    r
}

/// Remove an uninstalled package from the project file: from the dependencies if
/// it stands there (by name or source), else from the development dependencies.
pub fn remove_from_config(parse: &mut OperationToml, package: &str) -> (r: ConfigRemoval)
    requires
        old(parse).wf(),
    ensures
        final(parse).wf(),
        final(parse).location() == old(parse).location(),
        final(parse).config().project == old(parse).config().project,
        final(parse).config().build == old(parse).config().build,
        removable(old(parse).deps(), package@) ==> r == ConfigRemoval::Dependency
            && final(parse).deps() == after_removal(old(parse).deps(), package@)
            && final(parse).dev_deps() == old(parse).dev_deps() && final(parse).pending(),
        !removable(old(parse).deps(), package@) && removable(old(parse).dev_deps(), package@)
            ==> r == ConfigRemoval::DevDependency && final(parse).dev_deps() == after_removal(
            old(parse).dev_deps(),
            package@,
        ) && final(parse).deps() == old(parse).deps() && final(parse).pending(),
        !removable(old(parse).deps(), package@) && !removable(old(parse).dev_deps(), package@)
            ==> r == ConfigRemoval::NotFound && *final(parse) == *old(parse),
{
    if parse.try_remove_dependency(package) {
        ConfigRemoval::Dependency
    } else if parse.try_remove_dev_dependency(package) {
        ConfigRemoval::DevDependency
    } else {
        ConfigRemoval::NotFound
    }
}

/// A dependency table of the project file: the development one where `is_dev`.
pub open spec fn table_of(p: OperationToml, is_dev: bool) -> Map<Seq<char>, Seq<char>> {
    if is_dev {
        p.dev_deps()
    } else {
        p.deps()
    }
}

/// Remove every name of `names` from a table of the project file (the development
/// one where `is_dev`), as far as it stands there.
fn remove_names(parse: &mut OperationToml, names: &Vec<(String, String)>, is_dev: bool)
    requires
        old(parse).wf(),
        is_dev ==> pairs_view(names@) == old(parse).config().dev_dependencies.entries(),
        !is_dev ==> pairs_view(names@) == old(parse).config().dependencies.entries(),
    ensures
        final(parse).wf(),
        final(parse).location() == old(parse).location(),
        final(parse).config().project == old(parse).config().project,
        final(parse).config().build == old(parse).config().build,
        is_dev ==> final(parse).dev_deps().dom() == Set::<Seq<char>>::empty()
            && final(parse).config().dependencies == old(parse).config().dependencies,
        !is_dev ==> final(parse).deps().dom() == Set::<Seq<char>>::empty()
            && final(parse).config().dev_dependencies == old(parse).config().dev_dependencies,
        names@.len() > 0 ==> final(parse).pending(),
        names@.len() == 0 ==> final(parse).pending() == old(parse).pending(),
{
    let ghost s = pairs_view(names@);
    let ghost first = *parse;
    let mut i: usize = 0;
    while i < names.len()
        invariant
            parse.wf(),
            i <= names@.len(),
            s == pairs_view(names@),
            unique_keys(s),
            parse.location() == first.location(),
            parse.config().project == first.config().project,
            parse.config().build == first.config().build,
            is_dev ==> parse.config().dependencies == first.config().dependencies,
            !is_dev ==> parse.config().dev_dependencies == first.config().dev_dependencies,
            forall|k: Seq<char>|
                #[trigger] table_of(*parse, is_dev).dom().contains(k) <==> exists|
                    j: int,
                | i <= j < s.len() && #[trigger] s[j].0 == k,
            i > 0 ==> parse.pending(),
            i == 0 ==> parse.pending() == first.pending(),
        decreases names@.len() - i,
    {
        let ghost key = s[i as int].0;
        assert(s[i as int].0 == key);
        let ghost before = table_of(*parse, is_dev);
        assert(before.dom().contains(key));
        if is_dev {
            parse.try_remove_dev_dependency(names[i].0.as_str());
        } else {
            parse.try_remove_dependency(names[i].0.as_str());
        }
        assert forall|k: Seq<char>|
            #[trigger] table_of(*parse, is_dev).dom().contains(k) <==> exists|
                j: int,
            | i + 1 <= j < s.len() && #[trigger] s[j].0 == k by {
            if exists|j: int| i + 1 <= j < s.len() && #[trigger] s[j].0 == k {
                let j = choose|j: int| i + 1 <= j < s.len() && #[trigger] s[j].0 == k;
                assert(s[j].0 != s[i as int].0);
                assert(before.dom().contains(k));
            }
            if #[trigger] table_of(*parse, is_dev).dom().contains(k) {
                assert(before.dom().contains(k) && k != key);
                let j = choose|j: int| i <= j < s.len() && #[trigger] s[j].0 == k;
                assert(j != i);
            }
        }
        i = i + 1;
    }
    proof {
        let m = table_of(*parse, is_dev);
        assert(m.dom() =~= Set::<Seq<char>>::empty());
    }
}

/// Clear both dependency tables of the project file, as uninstalling every package
/// does.
pub fn clear_config(parse: &mut OperationToml)
    requires
        old(parse).wf(),
    ensures
        final(parse).wf(),
        final(parse).location() == old(parse).location(),
        final(parse).config().project == old(parse).config().project,
        final(parse).config().build == old(parse).config().build,
        final(parse).deps() == Map::<Seq<char>, Seq<char>>::empty(),
        final(parse).dev_deps() == Map::<Seq<char>, Seq<char>>::empty(),
        (old(parse).deps().len() > 0 || old(parse).dev_deps().len() > 0) ==> final(parse).pending(),
        (old(parse).deps().len() == 0 && old(parse).dev_deps().len() == 0) ==> final(parse).pending()
            == old(parse).pending(),
{
    let dependencies = parse.list(false);
    let dev_dependencies = parse.list(true);
    proof {
        crate::cpm_core::toml::rules::lemma_pairs_map_finite(parse.config().dependencies.entries());
        crate::cpm_core::toml::rules::lemma_pairs_map_finite(
            parse.config().dev_dependencies.entries(),
        );
    }
    remove_names(parse, &dependencies, false);
    remove_names(parse, &dev_dependencies, true);
    assert(parse.deps() =~= Map::<Seq<char>, Seq<char>>::empty());
    assert(parse.dev_deps() =~= Map::<Seq<char>, Seq<char>>::empty());
}

} // verus!
