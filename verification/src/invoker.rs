//! Command lines for the external package tool (the install invoker).
//!
//! The tool itself is a black box run by the caller; this module only decides
//! which executable and which arguments to hand it.

use vstd::prelude::*;

verus! {

/// Name of the Python executable to run when no virtual environment is given.
pub fn get_python_executable(windows: bool) -> (r: &'static str)
    ensures
        r@ == (if windows { "python.exe"@ } else { "python3"@ }),
{
    if windows {
        "python.exe"
    } else {
        "python3"
    }
}

/// Name of the pip executable to run when no virtual environment is given.
pub fn get_pip_executable(windows: bool) -> (r: &'static str)
    ensures
        r@ == (if windows { "pip.exe"@ } else { "pip3"@ }),
{
    if windows {
        "pip.exe"
    } else {
        "pip3"
    }
}

/// The Python executable that serves a virtual environment, or the bare
/// platform executable when none is given.
pub fn python_for_env(venv: &Option<String>, windows: bool) -> (r: String)
    ensures
        match venv {
            Some(v) => r@ == v@ + (if windows {
                "\\Scripts\\python.exe"@
            } else {
                "/bin/python3"@
            }),
            None => r@ == (if windows {
                "python.exe"@
            } else {
                "python3"@
            }),
        },
{
    match venv {
        Some(v) => {
            if windows {
                v.clone().concat("\\Scripts\\python.exe")
            } else {
                v.clone().concat("/bin/python3")
            }
        },
        None => String::from_str(get_python_executable(windows)),
    }
}

/// The arguments handed to Python to install one wheel through pip, without
/// dependencies and reinstalling over any present version.
pub fn pip_install_args(path: &str) -> (r: Vec<String>)
    ensures
        r@.len() == 6,
        r@[0]@ == "-m"@,
        r@[1]@ == "pip"@,
        r@[2]@ == "install"@,
        r@[3]@ == "--no-deps"@,
        r@[4]@ == "--force-reinstall"@,
        r@[5]@ == path@,
{
    let mut v: Vec<String> = Vec::new();
    v.push(String::from_str("-m"));
    v.push(String::from_str("pip"));
    v.push(String::from_str("install"));
    v.push(String::from_str("--no-deps"));
    v.push(String::from_str("--force-reinstall"));
    v.push(String::from_str(path));
    v
}

/// The arguments handed to Python to uninstall one package through pip,
/// without asking.
pub fn pip_uninstall_args(pkg: &str) -> (r: Vec<String>)
    ensures
        r@.len() == 5,
        r@[0]@ == "-m"@,
        r@[1]@ == "pip"@,
        r@[2]@ == "uninstall"@,
        r@[3]@ == "-y"@,
        r@[4]@ == pkg@,
{
    let mut v: Vec<String> = Vec::new();
    v.push(String::from_str("-m"));
    v.push(String::from_str("pip"));
    v.push(String::from_str("uninstall"));
    v.push(String::from_str("-y"));
    v.push(String::from_str(pkg));
    v
}

/// The arguments handed to Python to create a virtual environment.
pub fn venv_create_args(name: &str) -> (r: Vec<String>)
    ensures
        r@.len() == 3,
        r@[0]@ == "-m"@,
        r@[1]@ == "venv"@,
        r@[2]@ == name@,
{
    let mut v: Vec<String> = Vec::new();
    v.push(String::from_str("-m"));
    v.push(String::from_str("venv"));
    v.push(String::from_str(name));
    v
}

/// The arguments handed to a virtual environment's Python to run a script
/// text.
pub fn run_script_args(script: &str) -> (r: Vec<String>)
    ensures
        r@.len() == 2,
        r@[0]@ == "-c"@,
        r@[1]@ == script@,
{
    let mut v: Vec<String> = Vec::new();
    v.push(String::from_str("-c"));
    v.push(String::from_str(script));
    v
}

} // verus!
