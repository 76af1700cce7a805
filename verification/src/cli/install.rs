//! Installing a dependency: where its files go, and how it is recorded.

use vstd::prelude::*;
use crate::cpm_core::toml::operation::OperationToml;
use crate::utils::file::operation::{get_repo_name, repo_name};
use crate::utils::text::push_str;

verus! {

/// The directories and files that installing one package works with.
pub struct InstallPlan {
    pub repo_name: String,
    pub temp_dir: String,
    pub repo_path: String,
    pub build_dir: String,
    pub modules_base: String,
    pub include_dir: String,
    pub lib_dir: String,
    pub toml_path: String,
}

impl InstallPlan {
    /// The plan for installing the repository `url` into the project at `base_dir`.
    pub open spec fn spec_for(self, base_dir: Seq<char>, url: Seq<char>) -> bool {
        let name = repo_name(url);
        &&& self.repo_name@ == name
        &&& self.temp_dir@ == base_dir + "/temp"@
        &&& self.repo_path@ == base_dir + "/temp"@ + "/"@ + name
        &&& self.build_dir@ == base_dir + "/temp"@ + "/"@ + name + "/build"@
        &&& self.modules_base@ == base_dir + "/modules/"@ + name
        &&& self.include_dir@ == base_dir + "/modules/"@ + name + "/include"@
        &&& self.lib_dir@ == base_dir + "/modules/"@ + name + "/lib"@
        &&& self.toml_path@ == base_dir + "/cpm.toml"@
    }
}

fn joined(a: &str, b: &str) -> (r: String)
    ensures
        r@ == a@ + b@,
{
    let mut r = String::new();
    push_str(&mut r, a);
    push_str(&mut r, b);
    r
}

/// Where installing the repository `url` into the project at `base_dir` clones,
/// builds and puts the package's headers and libraries.
pub fn install_plan(base_dir: &str, url: &str) -> (plan: InstallPlan)
    ensures
        plan.spec_for(base_dir@, url@),
{
    let repo_name = get_repo_name(url);
    let temp_dir = joined(base_dir, "/temp");
    let mut repo_path = joined(temp_dir.as_str(), "/");
    push_str(&mut repo_path, repo_name.as_str());
    let build_dir = joined(repo_path.as_str(), "/build");
    let mut modules_base = joined(base_dir, "/modules/");
    push_str(&mut modules_base, repo_name.as_str());
    let include_dir = joined(modules_base.as_str(), "/include");
    let lib_dir = joined(modules_base.as_str(), "/lib");
    let toml_path = joined(base_dir, "/cpm.toml");
    InstallPlan {
        repo_name,
        temp_dir,
        repo_path,
        build_dir,
        modules_base,
        include_dir,
        lib_dir,
        toml_path,
    }
}

/// Record an installed package in the project file: as a development dependency
/// where `dev`, else as a dependency.
pub fn record_dependency(parse: &mut OperationToml, repo_name: &str, url: &str, dev: bool)
    requires
        old(parse).wf(),
    ensures
        final(parse).wf(),
        final(parse).pending(),
        final(parse).location() == old(parse).location(),
        final(parse).config().project == old(parse).config().project,
        final(parse).config().build == old(parse).config().build,
        dev ==> final(parse).dev_deps() == old(parse).dev_deps().insert(repo_name@, url@)
            && final(parse).deps() == old(parse).deps(),
        !dev ==> final(parse).deps() == old(parse).deps().insert(repo_name@, url@)
            && final(parse).dev_deps() == old(parse).dev_deps(),
{
    if dev {
        parse.add_dev_dependency(repo_name, url);
    } else {
        parse.add_dependency(repo_name, url);
    }
}

} // verus!
