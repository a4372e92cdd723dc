use mint_core::orchestrator::{
    start, step, AcquisitionResult, BatchReport, ConcurrencyGate, FailureReason, PackageTask,
    StepAction, StepEvent,
};
use mint_core::pkgspec::parse_package_spec;
use mint_core::resolver::{PackageMetadata, ReleaseEntry};

fn metadata_with_one_file(version: &str, url: &str) -> PackageMetadata {
    PackageMetadata {
        releases: vec![ReleaseEntry {
            version: version.to_string(),
            files: vec![url.to_string()],
        }],
    }
}

/// Drive one package to its terminal state, answering every download attempt
/// from `download_outcomes` (true = succeeds) and every cache store and
/// install with success. Returns the result and the number of download
/// attempts made.
fn run_package(
    name: &str,
    meta: PackageMetadata,
    download_outcomes: &[bool],
) -> (AcquisitionResult, usize) {
    let spec = parse_package_spec(name);
    let (mut task, mut action) = start(spec, None);
    let mut downloads = 0usize;
    loop {
        let event = match &action {
            StepAction::FetchMetadata(_) => StepEvent::MetadataReady(meta.clone()),
            StepAction::Download(_, _) => {
                let ok = download_outcomes[downloads];
                downloads += 1;
                if ok {
                    StepEvent::DownloadFinished
                } else {
                    StepEvent::DownloadFailed
                }
            }
            StepAction::Store(_, file) => StepEvent::CacheStored(format!("/cache/{}", file)),
            StepAction::Install(_, _) => StepEvent::InstallSucceeded,
            StepAction::Finish(result) => return (result.clone(), downloads),
        };
        let (t2, a2) = step(task, event);
        task = t2;
        action = a2;
    }
}

#[test]
fn download_fails_twice_then_succeeds_installs() {
    let meta = metadata_with_one_file("1.0", "https://files.host/a/pkg-1.0.whl");
    let (result, downloads) = run_package("pkg", meta, &[false, false, true]);
    assert!(matches!(result, AcquisitionResult::Installed));
    assert_eq!(downloads, 3);
}

#[test]
fn download_always_failing_makes_exactly_three_attempts() {
    let meta = metadata_with_one_file("1.0", "https://files.host/a/pkg-1.0.whl");
    let (result, downloads) = run_package("pkg", meta, &[false, false, false, false, false]);
    assert_eq!(downloads, 3);
    match result {
        AcquisitionResult::Failed(FailureReason::DownloadExhausted(file)) => {
            assert_eq!(file, "pkg-1.0.whl");
        }
        other => panic!("expected DownloadExhausted, got {:?}", other),
    }
}

#[test]
fn metadata_failure_is_terminal() {
    let spec = parse_package_spec("gone");
    let (task, action) = start(spec, None);
    assert!(matches!(action, StepAction::FetchMetadata(_)));
    let (task, action) = step(task, StepEvent::MetadataFailed("index unreachable".to_string()));
    match &action {
        StepAction::Finish(AcquisitionResult::Failed(FailureReason::MetadataFetch(m))) => {
            assert_eq!(m, "index unreachable");
        }
        other => panic!("expected MetadataFetch failure, got {:?}", other),
    }
    let _ = task;
}

#[test]
fn absent_exact_version_fails_with_no_matching_release() {
    let meta = metadata_with_one_file("1.0", "https://files.host/a/pkg-1.0.whl");
    let spec = parse_package_spec("pkg==9.9");
    let (task, _) = start(spec, None);
    let (_, action) = step(task, StepEvent::MetadataReady(meta));
    assert!(matches!(
        action,
        StepAction::Finish(AcquisitionResult::Failed(FailureReason::NoMatchingRelease))
    ));
}

#[test]
fn install_failure_carries_diagnostics() {
    let meta = metadata_with_one_file("1.0", "https://files.host/a/pkg-1.0.whl");
    let spec = parse_package_spec("pkg");
    let (task, _) = start(spec, None);
    let (task, _) = step(task, StepEvent::MetadataReady(meta));
    let (task, _) = step(task, StepEvent::DownloadFinished);
    let (task, action) = step(task, StepEvent::CacheStored("/cache/pkg-1.0.whl".to_string()));
    assert!(matches!(action, StepAction::Install(_, _)));
    let (_, action) = step(task, StepEvent::InstallFailed("pip exploded".to_string()));
    match action {
        StepAction::Finish(AcquisitionResult::Failed(FailureReason::Install(d))) => {
            assert_eq!(d, "pip exploded");
        }
        other => panic!("expected Install failure, got {:?}", other),
    }
}

#[test]
fn cache_failure_is_terminal() {
    let meta = metadata_with_one_file("1.0", "https://files.host/a/pkg-1.0.whl");
    let spec = parse_package_spec("pkg");
    let (task, _) = start(spec, None);
    let (task, _) = step(task, StepEvent::MetadataReady(meta));
    let (task, _) = step(task, StepEvent::DownloadFinished);
    let (_, action) = step(task, StepEvent::CacheFailed("disk full".to_string()));
    assert!(matches!(
        action,
        StepAction::Finish(AcquisitionResult::Failed(FailureReason::CacheIo(_)))
    ));
}

#[test]
fn venv_is_handed_to_the_installer() {
    let meta = metadata_with_one_file("1.0", "https://files.host/a/pkg-1.0.whl");
    let spec = parse_package_spec("pkg");
    let (task, _) = start(spec, Some("myenv".to_string()));
    let (task, _) = step(task, StepEvent::MetadataReady(meta));
    let (task, _) = step(task, StepEvent::DownloadFinished);
    let (_, action) = step(task, StepEvent::CacheStored("/cache/pkg-1.0.whl".to_string()));
    match action {
        StepAction::Install(path, venv) => {
            assert_eq!(path, "/cache/pkg-1.0.whl");
            assert_eq!(venv, Some("myenv".to_string()));
        }
        other => panic!("expected Install, got {:?}", other),
    }
}

#[test]
fn batch_isolation_one_failure_does_not_touch_the_others() {
    let good = metadata_with_one_file("1.0", "https://files.host/a/pkg-1.0.whl");
    let mut report = BatchReport::new();

    let (res_a, _) = run_package("a", good.clone(), &[true]);
    report.record("a".to_string(), res_a);

    // package b: its metadata fetch fails
    let spec_b = parse_package_spec("b");
    let (task_b, _) = start(spec_b, None);
    let (_, action_b) = step(task_b, StepEvent::MetadataFailed("timeout".to_string()));
    let res_b = match action_b {
        StepAction::Finish(r) => r,
        other => panic!("expected Finish, got {:?}", other),
    };
    report.record("b".to_string(), res_b);

    let (res_c, _) = run_package("c", good, &[true]);
    report.record("c".to_string(), res_c);

    assert_eq!(report.completed, 2);
    assert_eq!(report.failed, 1);
    assert_eq!(report.total(), 3);
    assert_eq!(report.results[0].0, "a");
    assert!(matches!(report.results[0].1, AcquisitionResult::Installed));
    assert_eq!(report.results[1].0, "b");
    assert!(matches!(
        report.results[1].1,
        AcquisitionResult::Failed(FailureReason::MetadataFetch(_))
    ));
    assert_eq!(report.results[2].0, "c");
    assert!(matches!(report.results[2].1, AcquisitionResult::Installed));
}

#[test]
fn gate_never_admits_more_than_the_limit() {
    let k = 2usize;
    let n = 5usize;
    let mut gate = ConcurrencyGate::new(k);
    let mut waiting = n;
    let mut active = 0usize;
    let mut max_active = 0usize;
    let mut finished = 0usize;
    // take slots while one is free, then complete one package and refill,
    // until all five simulated packages are done
    while finished < n {
        while waiting > 0 && gate.try_acquire() {
            waiting -= 1;
            active += 1;
        }
        assert!(gate.active <= k);
        if active > max_active {
            max_active = active;
        }
        // one active package finishes
        gate.release();
        active -= 1;
        finished += 1;
    }
    assert_eq!(max_active, k);
    assert_eq!(gate.active, 0);
}

#[test]
fn multi_file_release_installs_files_in_order() {
    let meta = PackageMetadata {
        releases: vec![ReleaseEntry {
            version: "2.0".to_string(),
            files: vec![
                "https://files.host/a/one.whl".to_string(),
                "https://files.host/a/two.whl".to_string(),
            ],
        }],
    };
    let spec = parse_package_spec("pkg");
    let (task, _) = start(spec, None);
    let (task, action) = step(task, StepEvent::MetadataReady(meta));
    match &action {
        StepAction::Download(_, dest) => assert_eq!(dest, "one.whl"),
        other => panic!("expected Download, got {:?}", other),
    }
    let (task, _) = step(task, StepEvent::DownloadFinished);
    let (task, _) = step(task, StepEvent::CacheStored("/cache/one.whl".to_string()));
    let (task, action) = step(task, StepEvent::InstallSucceeded);
    match &action {
        StepAction::Download(_, dest) => assert_eq!(dest, "two.whl"),
        other => panic!("expected Download of second file, got {:?}", other),
    }
    let (task, _) = step(task, StepEvent::DownloadFinished);
    let (task, _) = step(task, StepEvent::CacheStored("/cache/two.whl".to_string()));
    let (task, action) = step(task, StepEvent::InstallSucceeded);
    assert!(matches!(action, StepAction::Finish(AcquisitionResult::Installed)));
    let _ = task;
}
