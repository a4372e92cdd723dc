//! The per-package acquisition state machine and the batch accumulator.
//!
//! One package moves through metadata fetch, file selection, a bounded
//! download-retry loop, caching, and installation. The machine here decides
//! every transition; the caller performs the returned action (a network
//! fetch, a download, a copy, an install) and feeds the outcome back as the
//! next event. Results of many packages fold into a `BatchReport`; a
//! `ConcurrencyGate` bounds how many packages are in flight at once.

use vstd::prelude::*;
use crate::pkgspec::PackageSpec;
use crate::resolver::{get_download_urls, select_files_post, PackageMetadata, ReleaseFile, SelectError};

verus! {

/// Total download attempts allowed per file before the package fails.
pub const MAX_DOWNLOAD_ATTEMPTS: u8 = 3;

/// Why a package's acquisition ended in failure.
#[derive(Clone, Debug)]
pub enum FailureReason {
    /// Fetching or decoding the index metadata failed, with the message.
    MetadataFetch(String),
    /// No release matched the constraint, or the release lists no files.
    NoMatchingRelease,
    /// Every download attempt for the named file failed.
    DownloadExhausted(String),
    /// Copying the artifact into the cache failed, with the message.
    CacheIo(String),
    /// The external install tool reported failure, with its diagnostics.
    Install(String),
}

/// The terminal outcome of one package's acquisition: set once per
/// package per run, never mutated afterwards.
#[derive(Clone, Debug)]
pub enum AcquisitionResult {
    Installed,
    Failed(FailureReason),
}

/// Where one package stands in its acquisition.
#[derive(Clone, Debug)]
pub enum PackagePhase {
    /// Waiting for the index metadata.
    FetchingMetadata,
    /// Waiting for attempt `attempt` (1-based) of file `file_idx` to finish.
    Downloading { file_idx: usize, attempt: u8 },
    /// Waiting for file `file_idx` to be stored in the cache.
    Caching { file_idx: usize },
    /// Waiting for the install tool's verdict on file `file_idx`.
    Installing { file_idx: usize },
    /// Finished, one way or the other.
    Done { result: AcquisitionResult },
}

/// The acquisition state of one package: what was asked for, the files
/// selected for it, and the current phase.
#[derive(Clone, Debug)]
pub struct PackageTask {
    pub spec: PackageSpec,
    pub venv: Option<String>,
    pub files: Vec<ReleaseFile>,
    pub phase: PackagePhase,
}

/// The outcome of the action the caller last performed for a package.
#[derive(Clone, Debug)]
pub enum StepEvent {
    /// The index answered with metadata.
    MetadataReady(PackageMetadata),
    /// The index could not be reached or its answer not decoded.
    MetadataFailed(String),
    /// The pending download attempt completed.
    DownloadFinished,
    /// The pending download attempt failed.
    DownloadFailed,
    /// The artifact was stored; its cached path.
    CacheStored(String),
    /// Storing the artifact failed, with the message.
    CacheFailed(String),
    /// The install tool succeeded.
    InstallSucceeded,
    /// The install tool failed, with its diagnostics.
    InstallFailed(String),
}

/// What the caller must do next for a package.
#[derive(Clone, Debug)]
pub enum StepAction {
    /// Fetch index metadata for the named package.
    FetchMetadata(String),
    /// Download the URL to the destination file.
    Download(String, String),
    /// Store the named package's downloaded file (second field) in the cache.
    Store(String, String),
    /// Hand the cached path to the install tool, in the optional environment.
    Install(String, Option<String>),
    /// Nothing remains; fold this result into the batch report.
    Finish(AcquisitionResult),
}

impl PackageTask {
    /// Phase indices stay inside the selected files; the attempt counter
    /// stays within the allowed attempts; no files exist before selection.
    pub open spec fn wf(self) -> bool {
        match self.phase {
            PackagePhase::FetchingMetadata => self.files@.len() == 0,
            PackagePhase::Downloading { file_idx, attempt } => file_idx < self.files@.len() && 1
                <= attempt <= MAX_DOWNLOAD_ATTEMPTS,
            PackagePhase::Caching { file_idx } => file_idx < self.files@.len(),
            PackagePhase::Installing { file_idx } => file_idx < self.files@.len(),
            PackagePhase::Done { .. } => true,
        }
    }
}

/// The event answers the action that the task's phase is waiting on.
pub open spec fn event_fits(task: PackageTask, event: StepEvent) -> bool {
    match task.phase {
        PackagePhase::FetchingMetadata => event matches StepEvent::MetadataReady(_) || event
            matches StepEvent::MetadataFailed(_),
        PackagePhase::Downloading { .. } => event matches StepEvent::DownloadFinished || event
            matches StepEvent::DownloadFailed,
        PackagePhase::Caching { .. } => event matches StepEvent::CacheStored(_) || event
            matches StepEvent::CacheFailed(_),
        PackagePhase::Installing { .. } => event matches StepEvent::InstallSucceeded || event
            matches StepEvent::InstallFailed(_),
        PackagePhase::Done { .. } => false,
    }
}

/// The transition relation of every phase after file selection: given a task
/// and a fitting event, the successor task and the action the caller must
/// perform. A failed download attempt below the attempt cap retries the same
/// file (the caller chooses when to carry the retry out, so any delay policy
/// can sit between the attempts); at the cap the package fails with
/// `DownloadExhausted`. After an install, the next file (if any) starts
/// downloading at attempt 1.
pub open spec fn next(task: PackageTask, event: StepEvent) -> (PackageTask, StepAction)
    recommends
        task.wf(),
        event_fits(task, event),
        !(task.phase is FetchingMetadata),
{
    match task.phase {
        PackagePhase::Downloading { file_idx, attempt } => match event {
            StepEvent::DownloadFinished => (
                PackageTask { phase: PackagePhase::Caching { file_idx }, ..task },
                StepAction::Store(task.spec.name, task.files@[file_idx as int].file_name),
            ),
            _ => {
                if attempt < MAX_DOWNLOAD_ATTEMPTS {
                    (
                        PackageTask {
                            phase: PackagePhase::Downloading {
                                file_idx,
                                attempt: (attempt + 1) as u8,
                            },
                            ..task
                        },
                        StepAction::Download(
                            task.files@[file_idx as int].url,
                            task.files@[file_idx as int].file_name,
                        ),
                    )
                } else {
                    let result = AcquisitionResult::Failed(
                        FailureReason::DownloadExhausted(task.files@[file_idx as int].file_name),
                    );
                    (
                        PackageTask { phase: PackagePhase::Done { result }, ..task },
                        StepAction::Finish(result),
                    )
                }
            },
        },
        PackagePhase::Caching { file_idx } => match event {
            StepEvent::CacheStored(path) => (
                PackageTask { phase: PackagePhase::Installing { file_idx }, ..task },
                StepAction::Install(path, task.venv),
            ),
            _ => {
                let msg = match event {
                    StepEvent::CacheFailed(m) => m,
                    _ => task.spec.name,
                };
                let result = AcquisitionResult::Failed(FailureReason::CacheIo(msg));
                (
                    PackageTask { phase: PackagePhase::Done { result }, ..task },
                    StepAction::Finish(result),
                )
            },
        },
        PackagePhase::Installing { file_idx } => match event {
            StepEvent::InstallSucceeded => {
                if file_idx + 1 < task.files@.len() {
                    (
                        PackageTask {
                            phase: PackagePhase::Downloading {
                                file_idx: (file_idx + 1) as usize,
                                attempt: 1,
                            },
                            ..task
                        },
                        StepAction::Download(
                            task.files@[file_idx + 1].url,
                            task.files@[file_idx + 1].file_name,
                        ),
                    )
                } else {
                    (
                        PackageTask {
                            phase: PackagePhase::Done { result: AcquisitionResult::Installed },
                            ..task
                        },
                        StepAction::Finish(AcquisitionResult::Installed),
                    )
                }
            },
            _ => {
                let msg = match event {
                    StepEvent::InstallFailed(m) => m,
                    _ => task.spec.name,
                };
                let result = AcquisitionResult::Failed(FailureReason::Install(msg));
                (
                    PackageTask { phase: PackagePhase::Done { result }, ..task },
                    StepAction::Finish(result),
                )
            },
        },
        _ => (task, StepAction::Finish(AcquisitionResult::Installed)),
    }
}

/// What `step` promises while the task waits for metadata: a failure is
/// terminal with the reported message; an answer selects files and either
/// starts the first download (attempt 1 of file 0) or fails with
/// `NoMatchingRelease` exactly when selection fails.
pub open spec fn metadata_step_post(
    task: PackageTask,
    event: StepEvent,
    t2: PackageTask,
    a: StepAction,
) -> bool {
    match event {
        StepEvent::MetadataFailed(msg) => {
            &&& t2.phase matches PackagePhase::Done { result } && (result matches
                AcquisitionResult::Failed(r) && r matches FailureReason::MetadataFetch(m) && m@
                == msg@)
            &&& t2.files@ == task.files@
            &&& a matches StepAction::Finish(res2) && (res2 matches AcquisitionResult::Failed(r2)
                && r2 matches FailureReason::MetadataFetch(m2) && m2@ == msg@)
        },
        StepEvent::MetadataReady(meta) => match t2.phase {
            PackagePhase::Done { result } => {
                &&& result matches AcquisitionResult::Failed(r) && r is NoMatchingRelease
                &&& select_files_post(
                    meta.releases@,
                    task.spec.constraint,
                    Err(SelectError::NoMatchingRelease),
                )
                &&& a matches StepAction::Finish(res2) && (res2 matches AcquisitionResult::Failed(
                    r2,
                ) && r2 is NoMatchingRelease)
            },
            PackagePhase::Downloading { file_idx, attempt } => {
                &&& file_idx == 0 && attempt == 1
                &&& select_files_post(meta.releases@, task.spec.constraint, Ok(t2.files))
                &&& t2.files@.len() > 0
                &&& a == StepAction::Download(t2.files@[0].url, t2.files@[0].file_name)
            },
            _ => false,
        },
        _ => false,
    }
}

/// Begin acquiring one package: the initial task and the metadata fetch the
/// caller must perform.
pub fn start(spec: PackageSpec, venv: Option<String>) -> (r: (PackageTask, StepAction))
    ensures
        r.0.wf(),
        r.0.spec == spec,
        r.0.venv == venv,
        r.0.phase is FetchingMetadata,
        r.1 matches StepAction::FetchMetadata(n) && n@ == spec.name@,
{
    let action = StepAction::FetchMetadata(spec.name.clone());
    (
        PackageTask { spec, venv, files: Vec::new(), phase: PackagePhase::FetchingMetadata },
        action,
    )
}

/// Advance one package by one event. While metadata is pending the answer is
/// fed to file selection (`metadata_step_post`); every later phase follows
/// the transition relation `next` exactly.
pub fn step(task: PackageTask, event: StepEvent) -> (r: (PackageTask, StepAction))
    requires
        task.wf(),
        event_fits(task, event),
        event matches StepEvent::MetadataReady(m) ==> m.wf(),
    ensures
        r.0.wf(),
        r.0.spec == task.spec,
        r.0.venv == task.venv,
        task.phase is FetchingMetadata ==> metadata_step_post(task, event, r.0, r.1),
        !(task.phase is FetchingMetadata) ==> r == next(task, event),
{
    match task.phase {
        PackagePhase::FetchingMetadata => match event {
            StepEvent::MetadataReady(meta) => {
                match get_download_urls(&meta, &task.spec.constraint) {
                    Ok(files) => {
                        let url = files[0].url.clone();
                        let dest = files[0].file_name.clone();
                        let t2 = PackageTask {
                            files,
                            phase: PackagePhase::Downloading { file_idx: 0, attempt: 1 },
                            ..task
                        };
                        (t2, StepAction::Download(url, dest))
                    },
                    Err(_) => {
                        let t2 = PackageTask {
                            phase: PackagePhase::Done {
                                result: AcquisitionResult::Failed(FailureReason::NoMatchingRelease),
                            },
                            ..task
                        };
                        (
                            t2,
                            StepAction::Finish(
                                AcquisitionResult::Failed(FailureReason::NoMatchingRelease),
                            ),
                        )
                    },
                }
            },
            _ => {
                let msg = match event {
                    StepEvent::MetadataFailed(m) => m,
                    _ => String::new(),
                };
                let msg2 = msg.clone();
                let t2 = PackageTask {
                    phase: PackagePhase::Done {
                        result: AcquisitionResult::Failed(FailureReason::MetadataFetch(msg)),
                    },
                    ..task
                };
                (
                    t2,
                    StepAction::Finish(
                        AcquisitionResult::Failed(FailureReason::MetadataFetch(msg2)),
                    ),
                )
            },
        },
        PackagePhase::Downloading { file_idx, attempt } => match event {
            StepEvent::DownloadFinished => {
                let name = task.spec.name.clone();
                let dest = task.files[file_idx].file_name.clone();
                let t2 = PackageTask { phase: PackagePhase::Caching { file_idx }, ..task };
                (t2, StepAction::Store(name, dest))
            },
            _ => {
                if attempt < MAX_DOWNLOAD_ATTEMPTS {
                    let url = task.files[file_idx].url.clone();
                    let dest = task.files[file_idx].file_name.clone();
                    let t2 = PackageTask {
                        phase: PackagePhase::Downloading { file_idx, attempt: attempt + 1 },
                        ..task
                    };
                    (t2, StepAction::Download(url, dest))
                } else {
                    let dest = task.files[file_idx].file_name.clone();
                    let dest2 = dest.clone();
                    let t2 = PackageTask {
                        phase: PackagePhase::Done {
                            result: AcquisitionResult::Failed(
                                FailureReason::DownloadExhausted(dest),
                            ),
                        },
                        ..task
                    };
                    (
                        t2,
                        StepAction::Finish(
                            AcquisitionResult::Failed(FailureReason::DownloadExhausted(dest2)),
                        ),
                    )
                }
            },
        },
        PackagePhase::Caching { file_idx } => match event {
            StepEvent::CacheStored(path) => {
                let venv = clone_opt_string(&task.venv);
                let t2 = PackageTask { phase: PackagePhase::Installing { file_idx }, ..task };
                (t2, StepAction::Install(path, venv))
            },
            _ => {
                let msg = match event {
                    StepEvent::CacheFailed(m) => m,
                    _ => task.spec.name.clone(),
                };
                let msg2 = msg.clone();
                let t2 = PackageTask {
                    phase: PackagePhase::Done {
                        result: AcquisitionResult::Failed(FailureReason::CacheIo(msg)),
                    },
                    ..task
                };
                (
                    t2,
                    StepAction::Finish(AcquisitionResult::Failed(FailureReason::CacheIo(msg2))),
                )
            },
        },
        PackagePhase::Installing { file_idx } => match event {
            StepEvent::InstallSucceeded => {
                if file_idx < task.files.len() - 1 {
                    let url = task.files[file_idx + 1].url.clone();
                    let dest = task.files[file_idx + 1].file_name.clone();
                    let t2 = PackageTask {
                        phase: PackagePhase::Downloading { file_idx: file_idx + 1, attempt: 1 },
                        ..task
                    };
                    (t2, StepAction::Download(url, dest))
                } else {
                    let t2 = PackageTask {
                        phase: PackagePhase::Done { result: AcquisitionResult::Installed },
                        ..task
                    };
                    (t2, StepAction::Finish(AcquisitionResult::Installed))
                }
            },
            _ => {
                let msg = match event {
                    StepEvent::InstallFailed(m) => m,
                    _ => task.spec.name.clone(),
                };
                let msg2 = msg.clone();
                let t2 = PackageTask {
                    phase: PackagePhase::Done {
                        result: AcquisitionResult::Failed(FailureReason::Install(msg)),
                    },
                    ..task
                };
                (
                    t2,
                    StepAction::Finish(AcquisitionResult::Failed(FailureReason::Install(msg2))),
                )
            },
        },
        PackagePhase::Done { .. } => {
            // excluded by the precondition: a done task takes no event
            proof {
                assert(false);
            }
            (task, StepAction::Finish(AcquisitionResult::Installed))
        },
    }
}

/// A copy of an optional string.
fn clone_opt_string(s: &Option<String>) -> (r: Option<String>)
    ensures
        r == *s,
{
    match s {
        Some(v) => Some(v.clone()),
        None => None,
    }
}


/// The file index a phase is working on, or -1 for phases with none.
pub open spec fn phase_file_idx(p: PackagePhase) -> int {
    match p {
        PackagePhase::Downloading { file_idx, .. } => file_idx as int,
        PackagePhase::Caching { file_idx } => file_idx as int,
        PackagePhase::Installing { file_idx } => file_idx as int,
        _ => -1,
    }
}

/// The download attempt a phase is on, or -1 for phases with none.
pub open spec fn phase_attempt(p: PackagePhase) -> int {
    match p {
        PackagePhase::Downloading { attempt, .. } => attempt as int,
        _ => -1,
    }
}

/// Law: a download of the last file that fails twice and then succeeds
/// recovers: each failure triggers an immediate retry of the same file, and
/// with the cache store and the install succeeding the package ends
/// `Installed`.
pub proof fn lemma_download_retry_recovers(task: PackageTask, path: String)
    requires
        task.wf(),
        task.phase matches PackagePhase::Downloading { file_idx, attempt } && attempt == 1
            && file_idx == task.files@.len() - 1,
    ensures
        ({
            let s1 = next(task, StepEvent::DownloadFailed);
            let s2 = next(s1.0, StepEvent::DownloadFailed);
            let s3 = next(s2.0, StepEvent::DownloadFinished);
            let s4 = next(s3.0, StepEvent::CacheStored(path));
            let s5 = next(s4.0, StepEvent::InstallSucceeded);
            &&& s1.1 is Download && phase_attempt(s1.0.phase) == 2
            &&& s2.1 is Download && phase_attempt(s2.0.phase) == 3
            &&& s3.0.phase is Caching
            &&& s4.0.phase is Installing
            &&& s5.0.phase matches PackagePhase::Done { result } && result is Installed
            &&& s5.1 == StepAction::Finish(AcquisitionResult::Installed)
        }),
{
}

/// Law: a download whose three allowed attempts all fail is exhausted:
/// exactly two retries follow the first attempt, and the third failure ends
/// the package `Failed(DownloadExhausted)` naming the file.
pub proof fn lemma_download_exhausted(task: PackageTask)
    requires
        task.wf(),
        task.phase matches PackagePhase::Downloading { file_idx, attempt } && attempt == 1,
    ensures
        ({
            let fi = phase_file_idx(task.phase);
            let s1 = next(task, StepEvent::DownloadFailed);
            let s2 = next(s1.0, StepEvent::DownloadFailed);
            let s3 = next(s2.0, StepEvent::DownloadFailed);
            &&& s1.1 is Download && phase_attempt(s1.0.phase) == 2 && phase_file_idx(s1.0.phase)
                == fi
            &&& s2.1 is Download && phase_attempt(s2.0.phase) == 3 && phase_file_idx(s2.0.phase)
                == fi
            &&& s3.0.phase matches PackagePhase::Done { result } && (result matches
                AcquisitionResult::Failed(r) && r matches FailureReason::DownloadExhausted(f) && f@
                == task.files@[fi].file_name@)
            &&& s3.1 matches StepAction::Finish(res2) && (res2 matches AcquisitionResult::Failed(
                r2,
            ) && r2 is DownloadExhausted)
        }),
{
}

/// How many of the recorded outcomes are `Installed`.
pub open spec fn count_installed(rs: Seq<(String, AcquisitionResult)>) -> nat
    decreases rs.len(),
{
    if rs.len() == 0 {
        0
    } else {
        count_installed(rs.drop_last()) + (if rs.last().1 is Installed {
            1nat
        } else {
            0nat
        })
    }
}

/// How many of the recorded outcomes are `Failed`.
pub open spec fn count_failed(rs: Seq<(String, AcquisitionResult)>) -> nat
    decreases rs.len(),
{
    if rs.len() == 0 {
        0
    } else {
        count_failed(rs.drop_last()) + (if rs.last().1 is Failed {
            1nat
        } else {
            0nat
        })
    }
}

/// Law: every package gets exactly one terminal outcome, so the two tallies
/// partition the report: completed plus failed equals the number of
/// packages recorded.
pub proof fn lemma_outcomes_partition(rs: Seq<(String, AcquisitionResult)>)
    ensures
        count_installed(rs) + count_failed(rs) == rs.len(),
        count_installed(rs) <= rs.len(),
        count_failed(rs) <= rs.len(),
    decreases rs.len(),
{
    if rs.len() > 0 {
        lemma_outcomes_partition(rs.drop_last());
    }
}

/// Law: folding one package's result into a report never changes another
/// package's recorded entry; outcomes are isolated from one another.
pub proof fn lemma_record_isolates(
    rs: Seq<(String, AcquisitionResult)>,
    entry: (String, AcquisitionResult),
    j: int,
)
    requires
        0 <= j < rs.len(),
    ensures
        rs.push(entry)[j] == rs[j],
{
}

/// The per-batch report: each package's spec string with its terminal
/// outcome, in completion order, plus the two running tallies. Built
/// incrementally as package tasks finish.
#[derive(Debug)]
pub struct BatchReport {
    pub results: Vec<(String, AcquisitionResult)>,
    pub completed: u64,
    pub failed: u64,
}

impl BatchReport {
    /// The tallies agree with the recorded outcomes.
    pub open spec fn wf(self) -> bool {
        &&& self.completed == count_installed(self.results@)
        &&& self.failed == count_failed(self.results@)
    }

    /// An empty report.
    pub fn new() -> (r: BatchReport)
        ensures
            r.wf(),
            r.results@.len() == 0,
            r.completed == 0,
            r.failed == 0,
    {
        BatchReport { results: Vec::new(), completed: 0, failed: 0 }
    }

    /// Fold one package's terminal outcome into the report: the entry is
    /// appended, the matching tally grows by one, and every earlier entry is
    /// left exactly as it was.
    pub fn record(&mut self, spec_str: String, result: AcquisitionResult)
        requires
            old(self).wf(),
            old(self).results@.len() < usize::MAX,
        ensures
            final(self).wf(),
            final(self).results@ == old(self).results@.push((spec_str, result)),
            final(self).completed == old(self).completed + (if result is Installed {
                1u64
            } else {
                0u64
            }),
            final(self).failed == old(self).failed + (if result is Failed {
                1u64
            } else {
                0u64
            }),
            forall|j: int|
                0 <= j < old(self).results@.len() ==> final(self).results@[j] == #[trigger] old(
                    self,
                ).results@[j],
    {
        proof {
            lemma_outcomes_partition(self.results@);
        }
        match &result {
            AcquisitionResult::Installed => {
                self.completed = self.completed + 1;
            },
            AcquisitionResult::Failed(_) => {
                self.failed = self.failed + 1;
            },
        }
        self.results.push((spec_str, result));
        proof {
            assert(self.results@.drop_last() =~= old(self).results@);
        }
    }

    /// How many packages have been recorded so far.
    pub fn total(&self) -> (r: usize)
        ensures
            r == self.results@.len(),
    {
        self.results.len()
    }
}

/// One operation on the concurrency gate.
#[derive(Clone, Copy, Debug, PartialEq, Eq, Structural)]
pub enum GateOp {
    /// A package asks to start its pipeline.
    Acquire,
    /// A finished package frees its slot.
    Release,
}

/// The cap on simultaneously active per-package pipelines: packages beyond
/// the cap wait until a slot frees.
#[derive(Clone, Copy, Debug, PartialEq, Eq, Structural)]
pub struct ConcurrencyGate {
    pub limit: usize,
    pub active: usize,
}

/// What one gate operation does: an acquire below the limit takes a slot and
/// otherwise changes nothing (the package queues); a release frees a slot
/// when one is held.
pub open spec fn gate_apply(g: ConcurrencyGate, op: GateOp) -> ConcurrencyGate {
    match op {
        GateOp::Acquire => {
            if g.active < g.limit {
                ConcurrencyGate { active: (g.active + 1) as usize, ..g }
            } else {
                g
            }
        },
        GateOp::Release => {
            if g.active > 0 {
                ConcurrencyGate { active: (g.active - 1) as usize, ..g }
            } else {
                g
            }
        },
    }
}

/// Fold a whole sequence of gate operations over a starting gate.
pub open spec fn gate_run(g: ConcurrencyGate, ops: Seq<GateOp>) -> ConcurrencyGate
    decreases ops.len(),
{
    if ops.len() == 0 {
        g
    } else {
        gate_apply(gate_run(g, ops.drop_last()), ops.last())
    }
}

/// Law: under every sequence of acquire and release operations, the number
/// of simultaneously active pipelines never exceeds the limit.
pub proof fn lemma_gate_bounded(g: ConcurrencyGate, ops: Seq<GateOp>)
    requires
        g.wf(),
    ensures
        gate_run(g, ops).wf(),
        gate_run(g, ops).active <= g.limit,
        gate_run(g, ops).limit == g.limit,
    decreases ops.len(),
{
    if ops.len() > 0 {
        lemma_gate_bounded(g, ops.drop_last());
    }
}

impl ConcurrencyGate {
    /// No more pipelines are active than the limit allows.
    pub open spec fn wf(self) -> bool {
        self.active <= self.limit && 1 <= self.limit
    }

    /// A gate with the given limit and no active pipeline.
    pub fn new(limit: usize) -> (r: ConcurrencyGate)
        requires
            limit >= 1,
        ensures
            r.wf(),
            r.limit == limit,
            r.active == 0,
    {
        ConcurrencyGate { limit, active: 0 }
    }

    /// Take a slot if one is free; a package denied a slot must wait and ask
    /// again once a slot is released.
    pub fn try_acquire(&mut self) -> (r: bool)
        requires
            old(self).wf(),
        ensures
            final(self).wf(),
            *final(self) == gate_apply(*old(self), GateOp::Acquire),
            r == (old(self).active < old(self).limit),
    {
        if self.active < self.limit {
            self.active = self.active + 1;
            true
        } else {
            false
        }
    }

    /// Free a slot after a package's pipeline reaches its terminal state.
    pub fn release(&mut self)
        requires
            old(self).wf(),
        ensures
            final(self).wf(),
            *final(self) == gate_apply(*old(self), GateOp::Release),
    {
        if self.active > 0 {
            self.active = self.active - 1;
        }
    }
}

} // verus!

