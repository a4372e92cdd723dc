//! The command model: what each subcommand of the tool carries. Parsing the
//! command line into these values belongs to the caller; the library works on
//! the parsed form.

use vstd::prelude::*;

verus! {

/// A parsed invocation of the tool.
#[derive(Debug)]
pub struct Cli {
    pub command: Commands,
}

/// The tool's subcommands, with their parsed arguments.
#[derive(Debug)]
pub enum Commands {
    /// Install packages (each `packages` entry is a package spec string).
    Install {
        packages: Vec<String>,
        venv: Option<String>,
        force: bool,
        dev: bool,
        jobs: Option<usize>,
    },
    /// Uninstall packages.
    Uninstall { packages: Vec<String>, venv: Option<String>, yes: bool },
    /// Create a virtual environment.
    VenvCreate { name: String, python: Option<String> },
    /// Delete a virtual environment.
    VenvDelete { name: String, force: bool },
    /// Run a script in a virtual environment.
    Run { venv: String, script: String, args: Vec<String> },
    /// List installed packages.
    List { venv: Option<String>, outdated: bool },
    /// Show one package's information.
    Show { package: String, venv: Option<String> },
    /// Search the index.
    Search { query: String, limit: Option<usize> },
    /// Delete expired cache files.
    CacheClean,
    /// Show cache information.
    CacheInfo,
    /// Install the packages a requirements file names.
    InstallRequirements { requirements: Option<String>, venv: Option<String> },
    /// Write the installed packages as a requirements file.
    Freeze { output: Option<String>, venv: Option<String> },
}

} // verus!
