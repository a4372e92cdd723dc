//! Tool configuration: values the caller loads from (and saves to) the
//! configuration file, with the built-in defaults. Reading and writing the
//! file belongs to the caller; the defaults and the job-count policy live
//! here.

use vstd::prelude::*;

verus! {

/// The tool's configuration values.
#[derive(Clone, Debug)]
pub struct Config {
    pub cache_dir: Option<String>,
    pub parallel_downloads: Option<usize>,
    pub timeout_seconds: Option<u64>,
    pub retry_attempts: Option<u32>,
    pub default_python: Option<String>,
    pub trusted_hosts: Vec<String>,
}

/// Relies on num_cpus::get: the number of logical CPUs of this machine,
/// documented to always be at least 1.
#[verifier::external_body]
fn detected_parallelism() -> (r: usize)
    ensures
        1 <= r,
{
    num_cpus::get()
}

impl Default for Config {
    /// The built-in defaults: parallel downloads set to this machine's
    /// detected parallelism, a 30 second timeout, 3 retry attempts, and the
    /// two index hosts trusted.
    fn default() -> (r: Config)
        ensures
            r.cache_dir is None,
            r.parallel_downloads matches Some(n) && n >= 1,
            r.timeout_seconds == Some(30u64),
            r.retry_attempts == Some(3u32),
            r.default_python is None,
            r.trusted_hosts@.len() == 2,
            r.trusted_hosts@[0]@ == "pypi.org"@,
            r.trusted_hosts@[1]@ == "files.pythonhosted.org"@,
    {
        let mut hosts: Vec<String> = Vec::new();
        hosts.push(String::from_str("pypi.org"));
        hosts.push(String::from_str("files.pythonhosted.org"));
        Config {
            cache_dir: None,
            parallel_downloads: Some(detected_parallelism()),
            timeout_seconds: Some(30),
            retry_attempts: Some(3),
            default_python: None,
            trusted_hosts: hosts,
        }
    }
}

/// How many packages may run in parallel: the requested count when one is
/// given (raised to 1 if it is 0, so the batch can make progress), and this
/// machine's detected parallelism otherwise.
pub fn effective_jobs(requested: Option<usize>) -> (r: usize)
    ensures
        1 <= r,
        match requested {
            Some(j) => r == (if j >= 1 {
                j
            } else {
                1
            }),
            None => true,
        },
{
    match requested {
        Some(j) => {
            if j >= 1 {
                j
            } else {
                1
            }
        },
        None => detected_parallelism(),
    }
}

} // verus!
