use mint_core::config::{effective_jobs, Config};
use mint_core::downloader::{DownloadStats, ProgressTracker};
use mint_core::invoker::{
    get_pip_executable, get_python_executable, pip_install_args, pip_uninstall_args,
    python_for_env, run_script_args, venv_create_args,
};
use mint_core::lockfile::{dependency_from_metadata, Dependency, LockFile};
use mint_core::resolver::{PackageMetadata, ReleaseEntry};
use mint_core::requirements::{classify_requirement_line, trim_ws, RequirementLine};
use mint_core::utils::{format_bytes, is_valid_package_name};

#[test]
fn format_bytes_exact_values() {
    assert_eq!(format_bytes(0), "0 B");
    assert_eq!(format_bytes(512), "512 B");
    assert_eq!(format_bytes(1023), "1023 B");
    assert_eq!(format_bytes(1024), "1.0 KB");
    assert_eq!(format_bytes(1536), "1.5 KB");
    assert_eq!(format_bytes(2048), "2.0 KB");
    assert_eq!(format_bytes(1048576), "1.0 MB");
    assert_eq!(format_bytes(5 * 1048576 + 1048576 / 2), "5.5 MB");
    assert_eq!(format_bytes(1073741824), "1.0 GB");
    assert_eq!(format_bytes(1099511627776), "1.0 TB");
    assert_eq!(format_bytes(u64::MAX), "16777215.9 TB");
}

#[test]
fn package_name_validation() {
    assert!(is_valid_package_name("requests"));
    assert!(is_valid_package_name("a"));
    assert!(is_valid_package_name("a.b_c-d"));
    assert!(is_valid_package_name("A2"));
    assert!(!is_valid_package_name(""));
    assert!(!is_valid_package_name("-abc"));
    assert!(!is_valid_package_name("abc-"));
    assert!(!is_valid_package_name(".abc"));
    assert!(!is_valid_package_name("abc_"));
    assert!(!is_valid_package_name("has space"));
    assert!(!is_valid_package_name("bang!"));
    let max = "a".repeat(214);
    assert!(is_valid_package_name(&max));
    let too_long = "a".repeat(215);
    assert!(!is_valid_package_name(&too_long));
}

#[test]
fn python_and_pip_executables_per_platform() {
    assert_eq!(get_python_executable(false), "python3");
    assert_eq!(get_python_executable(true), "python.exe");
    assert_eq!(get_pip_executable(false), "pip3");
    assert_eq!(get_pip_executable(true), "pip.exe");
}

#[test]
fn python_for_env_builds_the_venv_path() {
    assert_eq!(python_for_env(&Some("env".to_string()), false), "env/bin/python3");
    assert_eq!(python_for_env(&Some("env".to_string()), true), "env\\Scripts\\python.exe");
    assert_eq!(python_for_env(&None, false), "python3");
    assert_eq!(python_for_env(&None, true), "python.exe");
}

#[test]
fn invoker_argument_lists() {
    assert_eq!(
        pip_install_args("/cache/a.whl"),
        vec!["-m", "pip", "install", "--no-deps", "--force-reinstall", "/cache/a.whl"]
    );
    assert_eq!(pip_uninstall_args("requests"), vec!["-m", "pip", "uninstall", "-y", "requests"]);
    assert_eq!(venv_create_args("env"), vec!["-m", "venv", "env"]);
    assert_eq!(run_script_args("print(1)"), vec!["-c", "print(1)"]);
}

#[test]
fn config_defaults() {
    let c = Config::default();
    assert_eq!(c.cache_dir, None);
    assert!(c.parallel_downloads.unwrap() >= 1);
    assert_eq!(c.timeout_seconds, Some(30));
    assert_eq!(c.retry_attempts, Some(3));
    assert_eq!(c.default_python, None);
    assert_eq!(c.trusted_hosts, vec!["pypi.org", "files.pythonhosted.org"]);
}

#[test]
fn effective_jobs_policy() {
    assert_eq!(effective_jobs(Some(4)), 4);
    assert_eq!(effective_jobs(Some(1)), 1);
    assert_eq!(effective_jobs(Some(0)), 1);
    assert!(effective_jobs(None) >= 1);
}

#[test]
fn lockfile_add_has_get() {
    let mut lock = LockFile::new("3.12".to_string(), "0.1.0".to_string());
    assert_eq!(lock.metadata.version, "1.0");
    assert_eq!(lock.metadata.python_version, "3.12");
    assert_eq!(lock.metadata.mint_version, "0.1.0");
    assert!(!lock.has_package("requests"));
    assert!(lock.get_package("requests").is_none());
    lock.add_package(Dependency {
        name: "requests".to_string(),
        version: "2.31.0".to_string(),
        source: "https://files.host/r/requests.whl".to_string(),
        dependencies: Vec::new(),
    });
    assert!(lock.has_package("requests"));
    assert_eq!(lock.get_package("requests").unwrap().version, "2.31.0");
    // adding the same name replaces the entry instead of duplicating it
    lock.add_package(Dependency {
        name: "requests".to_string(),
        version: "2.32.0".to_string(),
        source: "https://files.host/r/requests2.whl".to_string(),
        dependencies: Vec::new(),
    });
    assert_eq!(lock.packages.len(), 1);
    assert_eq!(lock.get_package("requests").unwrap().version, "2.32.0");
}

#[test]
fn dependency_lookup_one_level() {
    let meta = PackageMetadata {
        releases: vec![
            ReleaseEntry {
                version: "1.0".to_string(),
                files: vec!["https://files.host/p/pkg-1.0.whl".to_string()],
            },
            ReleaseEntry {
                version: "2.0".to_string(),
                files: vec!["https://files.host/p/pkg-2.0.whl".to_string()],
            },
        ],
    };
    let d = dependency_from_metadata("pkg", Some("1.0"), &meta).unwrap();
    assert_eq!(d.name, "pkg");
    assert_eq!(d.version, "1.0");
    assert_eq!(d.source, "https://files.host/p/pkg-1.0.whl");
    assert!(d.dependencies.is_empty());
    // no requested version: the last release in index order
    let latest = dependency_from_metadata("pkg", None, &meta).unwrap();
    assert_eq!(latest.version, "latest");
    assert_eq!(latest.source, "https://files.host/p/pkg-2.0.whl");
    // an absent version yields nothing
    assert!(dependency_from_metadata("pkg", Some("9.9"), &meta).is_none());
    // a release with no files yields nothing
    let bare = PackageMetadata {
        releases: vec![ReleaseEntry { version: "1.0".to_string(), files: vec![] }],
    };
    assert!(dependency_from_metadata("pkg", Some("1.0"), &bare).is_none());
    let empty = PackageMetadata { releases: vec![] };
    assert!(dependency_from_metadata("pkg", None, &empty).is_none());
}

#[test]
fn requirement_lines_classify() {
    assert!(matches!(classify_requirement_line(""), RequirementLine::Empty));
    assert!(matches!(classify_requirement_line("   "), RequirementLine::Empty));
    assert!(matches!(classify_requirement_line("# comment"), RequirementLine::Empty));
    assert!(matches!(classify_requirement_line("  # indented comment"), RequirementLine::Empty));
    match classify_requirement_line("-r other.txt") {
        RequirementLine::Include(p) => assert_eq!(p, "other.txt"),
        other => panic!("expected Include, got {:?}", other),
    }
    match classify_requirement_line("  -r   nested/more.txt  ") {
        RequirementLine::Include(p) => assert_eq!(p, "nested/more.txt"),
        other => panic!("expected Include, got {:?}", other),
    }
    match classify_requirement_line("-e ./local-pkg") {
        RequirementLine::Editable(x) => assert_eq!(x, "-e ./local-pkg"),
        other => panic!("expected Editable, got {:?}", other),
    }
    match classify_requirement_line("  requests==2.31.0  ") {
        RequirementLine::Package(x) => assert_eq!(x, "requests==2.31.0"),
        other => panic!("expected Package, got {:?}", other),
    }
}

#[test]
fn trim_ws_strips_both_ends() {
    assert_eq!(trim_ws("  abc \t"), "abc");
    assert_eq!(trim_ws("abc"), "abc");
    assert_eq!(trim_ws(" \t\r\n "), "");
    assert_eq!(trim_ws(""), "");
}

#[test]
fn progress_tracker_counts_chunks() {
    let mut p = ProgressTracker::new(Some(100));
    assert_eq!(p.total, 100);
    assert_eq!(p.received, 0);
    p.record_chunk(40);
    p.record_chunk(25);
    assert_eq!(p.received, 65);
    let stats = p.finish(2);
    assert_eq!(stats, DownloadStats { bytes: 65, elapsed_secs: 2 });
}

#[test]
fn unknown_content_length_fails_open() {
    let p = ProgressTracker::new(None);
    assert_eq!(p.total, 0);
}

#[test]
fn download_speed_guards_zero_elapsed() {
    let fast = DownloadStats { bytes: 1000, elapsed_secs: 0 };
    assert_eq!(fast.bytes_per_sec(), 0);
    let steady = DownloadStats { bytes: 1000, elapsed_secs: 2 };
    assert_eq!(steady.bytes_per_sec(), 500);
}
