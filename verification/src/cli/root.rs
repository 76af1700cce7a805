//! The command line: its commands and what each asks the program to do.

use vstd::prelude::*;
use crate::utils::text::str_eq;

verus! {

/// Main structure of the CPM command-line interface.
pub struct Cli {
    pub command: Commands,
}

/// The commands that CPM supports.
pub enum Commands {
    /// Create a new C/C++ project
    Create { name: String },
    /// Install a package (`.`: every dependency of the current project)
    Install { url: String, dev: bool },
    /// Uninstall a package (`.`: every installed package)
    Uninstall { url: String },
    /// Build the project at `path` (`.`: the current directory)
    Build { path: String },
    /// Run the project at `path` (`.`: the current directory)
    Run { path: String },
}

/// The project directory a command works on.
pub enum ProjectDir {
    /// The current working directory
    Current,
    /// The directory given on the command line
    Given(String),
}

/// What a command asks the program to do.
pub enum Action {
    CreateProject(String),
    InstallAll,
    Install { url: String, dev: bool },
    UninstallAll,
    Uninstall(String),
    Build(ProjectDir),
    Run(ProjectDir),
}

/// `.` stands for the current project.
pub open spec fn is_dot(s: Seq<char>) -> bool {
    s == "."@
}

/// Only the exact argument `.` means the current project: any other argument,
/// `./demo` and `../demo` among them, is a path or URL of its own.
pub proof fn lemma_only_dot_means_current(s: Seq<char>)
    ensures
        is_dot(s) <==> (s.len() == 1 && s[0] == '.'),
        s.len() != 1 ==> !is_dot(s),
{
    reveal_strlit(".");
    if s.len() == 1 && s[0] == '.' {
        assert(s =~= "."@);
    }
}

fn project_dir(path: String) -> (d: ProjectDir)
    ensures
        is_dot(path@) ==> d is Current,
        !is_dot(path@) ==> d == ProjectDir::Given(path),
{
    if str_eq(path.as_str(), ".") {
        ProjectDir::Current
    } else {
        ProjectDir::Given(path)
    }
}

impl Cli {
    /// What the command asks for: `install .` installs every dependency,
    /// `uninstall .` uninstalls every package, and `build .`/`run .` work on the
    /// current directory.
    pub fn action(self) -> (a: Action)
        ensures
            match self.command {
                Commands::Create { name } => a == Action::CreateProject(name),
                Commands::Install { url, dev } => if is_dot(url@) {
                    a is InstallAll
                } else {
                    a == (Action::Install { url, dev })
                },
                Commands::Uninstall { url } => if is_dot(url@) {
                    a is UninstallAll
                } else {
                    a == Action::Uninstall(url)
                },
                Commands::Build { path } => if is_dot(path@) {
                    a == Action::Build(ProjectDir::Current)
                } else {
                    a == Action::Build(ProjectDir::Given(path))
                },
                Commands::Run { path } => if is_dot(path@) {
                    a == Action::Run(ProjectDir::Current)
                } else {
                    a == Action::Run(ProjectDir::Given(path))
                },
            },
    {
        match self.command {
            Commands::Create { name } => Action::CreateProject(name),
            Commands::Install { url, dev } => {
                if str_eq(url.as_str(), ".") {
                    Action::InstallAll
                } else {
                    Action::Install { url, dev }
                }
            },
            Commands::Uninstall { url } => {
                if str_eq(url.as_str(), ".") {
                    Action::UninstallAll
                } else {
                    Action::Uninstall(url)
                }
            },
            Commands::Build { path } => Action::Build(project_dir(path)),
            Commands::Run { path } => Action::Run(project_dir(path)),
        }
    }
}

} // verus!
