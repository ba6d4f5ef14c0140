//! Security scanner gateway: submits the verified artifact to the scan
//! backends and aggregates what they report, worst severity first.

use crate::failure::FailureReason;
use crate::retry::{RetryDecision, RetryPolicy};
pub use crate::scan_error::ScanError;
use crate::types::ScanStatus;
use vstd::prelude::*;
use vstd::string::*;

verus! {

/// Result type for scan operations.
pub type ScanResult<T> = Result<T, ScanError>;

/// Severity of a finding or of a report, from harmless to critical.
#[derive(Debug, Clone, Copy, PartialEq, Eq, Structural)]
pub enum Severity {
    Passed,
    Warning,
    Failed,
    Critical,
}

impl Severity {
    /// Position in the order `Critical > Failed > Warning > Passed`.
    pub open spec fn spec_rank(self) -> u8 {
        match self {
            Severity::Passed => 0u8,
            Severity::Warning => 1u8,
            Severity::Failed => 2u8,
            Severity::Critical => 3u8,
        }
    }

    /// The worse of two severities.
    pub open spec fn spec_worse(self, other: Severity) -> Severity {
        if self.spec_rank() >= other.spec_rank() {
            self
        } else {
            other
        }
    }

    /// The severity that a final scan status stands for; a status that is not
    /// final stands for none.
    pub open spec fn spec_from_status(status: ScanStatus) -> Option<Severity> {
        match status {
            ScanStatus::Passed => Some(Severity::Passed),
            ScanStatus::Warning => Some(Severity::Warning),
            ScanStatus::Failed => Some(Severity::Failed),
            _ => None,
        }
    }

    /// Position in the order `Critical > Failed > Warning > Passed`.
    #[verifier::when_used_as_spec(spec_rank)]
    pub fn rank(self) -> (r: u8)
        ensures
            r == self.spec_rank(),
    {
        match self {
            Severity::Passed => 0,
            Severity::Warning => 1,
            Severity::Failed => 2,
            Severity::Critical => 3,
        }
    }

    /// The worse of two severities.
    #[verifier::when_used_as_spec(spec_worse)]
    pub fn worse(self, other: Severity) -> (w: Severity)
        ensures
            w == self.spec_worse(other),
    {
        if self.rank() >= other.rank() {
            self
        } else {
            other
        }
    }

    /// The severity that a final scan status stands for.
    #[verifier::when_used_as_spec(spec_from_status)]
    pub fn from_status(status: ScanStatus) -> (s: Option<Severity>)
        ensures
            s == Self::spec_from_status(status),
    {
        match status {
            ScanStatus::Passed => Some(Severity::Passed),
            ScanStatus::Warning => Some(Severity::Warning),
            ScanStatus::Failed => Some(Severity::Failed),
            _ => None,
        }
    }
}

/// One finding of a scan backend.
#[derive(Debug)]
pub struct Finding {
    pub severity: Severity,
    pub description: String,
}

/// The worst severity among `floor` and the findings.
pub open spec fn worst_severity(findings: Seq<Finding>, floor: Severity) -> Severity
    decreases findings.len(),
{
    if findings.len() == 0 {
        floor
    } else {
        worst_severity(findings.drop_last(), floor).worse(findings.last().severity)
    }
}

/// Computes the worst severity among `floor` and the findings.
pub fn worst_of(findings: &Vec<Finding>, floor: Severity) -> (worst: Severity)
    ensures
        worst == worst_severity(findings@, floor),
{
    let mut worst = floor;
    let mut i: usize = 0;
    proof {
        assert(findings@.take(0) =~= Seq::<Finding>::empty());
    }
    while i < findings.len()
        invariant
            i <= findings.len(),
            worst == worst_severity(findings@.take(i as int), floor),
        decreases findings.len() - i,
    {
        proof {
            assert(findings@.take(i as int + 1).drop_last() =~= findings@.take(i as int));
        }
        worst = worst.worse(findings[i].severity);
        i = i + 1;
    }
    proof {
        assert(findings@.take(findings@.len() as int) =~= findings@);
    }
    worst
}

/// What one backend reported for a release.
#[derive(Debug)]
pub struct ScanReport {
    /// The release that was scanned.
    pub release_id: u64,
    /// The backend that scanned it.
    pub backend: usize,
    /// The findings of the backend.
    pub findings: Vec<Finding>,
    /// The verdict of the report.
    pub verdict: Severity,
}

impl ScanReport {
    /// What the report amounts to: the worst of its verdict and the
    /// severities of all its findings. A report never counts for less than
    /// its worst finding, whatever verdict it carries.
    pub open spec fn spec_severity(&self) -> Severity {
        worst_severity(self.findings@, self.verdict)
    }

    /// Builds the report of one backend: its verdict is the worst of the
    /// backend's own verdict and the severities of all findings.
    pub fn new(
        release_id: u64,
        backend: usize,
        backend_verdict: Severity,
        findings: Vec<Finding>,
    ) -> (report: ScanReport)
        ensures
            report.release_id == release_id,
            report.backend == backend,
            report.findings == findings,
            report.verdict == worst_severity(findings@, backend_verdict),
    {
        let verdict = worst_of(&findings, backend_verdict);
        ScanReport { release_id, backend, findings, verdict }
    }

    /// What the report amounts to.
    #[verifier::when_used_as_spec(spec_severity)]
    pub fn severity(&self) -> (severity: Severity)
        ensures
            severity == self.spec_severity(),
    {
        worst_of(&self.findings, self.verdict)
    }
}

/// The worst severity is no less than `floor` and than each finding's
/// severity, and it is the severity of `floor` or of one of the findings.
pub proof fn lemma_worst_severity_is_worst(findings: Seq<Finding>, floor: Severity)
    ensures
        floor.rank() <= worst_severity(findings, floor).rank(),
        forall|i: int|
            0 <= i < findings.len() ==> (#[trigger] findings[i]).severity.rank()
                <= worst_severity(findings, floor).rank(),
        worst_severity(findings, floor) == floor || exists|i: int|
            0 <= i < findings.len() && (#[trigger] findings[i]).severity == worst_severity(
                findings,
                floor,
            ),
    decreases findings.len(),
{
    if findings.len() > 0 {
        let front = findings.drop_last();
        lemma_worst_severity_is_worst(front, floor);
        let worst = worst_severity(findings, floor);
        assert forall|i: int| 0 <= i < findings.len() implies (
        #[trigger] findings[i]).severity.rank() <= worst.rank() by {
            if i < front.len() {
                assert(front[i] == findings[i]);
            }
        }
        if worst != floor {
            if worst == findings.last().severity {
                assert(findings[findings.len() - 1].severity == worst);
            } else {
                let i = choose|i: int|
                    0 <= i < front.len() && (#[trigger] front[i]).severity == worst_severity(
                        front,
                        floor,
                    );
                assert(findings[i] == front[i]);
            }
        }
    }
}

/// A report with a critical finding amounts to critical, whatever verdict
/// it carries and whatever else it found.
pub proof fn lemma_critical_finding_decides(report: ScanReport, i: int)
    requires
        0 <= i < report.findings@.len(),
        report.findings@[i].severity == Severity::Critical,
    ensures
        report.spec_severity() == Severity::Critical,
{
    lemma_worst_severity_is_worst(report.findings@, report.verdict);
}

/// A report made by `ScanReport::new` amounts to its verdict.
pub proof fn lemma_aggregated_verdict_is_severity(findings: Seq<Finding>, floor: Severity)
    ensures
        worst_severity(findings, worst_severity(findings, floor)) == worst_severity(
            findings,
            floor,
        ),
{
    lemma_worst_severity_is_worst(findings, floor);
    lemma_worst_severity_is_worst(findings, worst_severity(findings, floor));
}

/// Where one scan backend stands.
#[derive(Debug, Clone, Copy, PartialEq, Eq, Structural)]
pub enum BackendState {
    /// No final outcome yet.
    Pending,
    /// The backend reported: the worst of its report's verdict and findings.
    Reported(Severity),
    /// The backend produced no result.
    Failed(FailureReason),
}

/// One scan backend of a run.
#[derive(Debug)]
pub struct BackendSlot {
    /// Resubmissions made so far.
    pub retries: u32,
    /// Current state.
    pub state: BackendState,
    /// The report, once the backend has reported.
    pub report: Option<ScanReport>,
}

/// A request to scan the artifact with one backend.
#[derive(Debug)]
pub struct ScanRequest {
    pub release_id: u64,
    pub backend: usize,
    /// Hash of the artifact to scan.
    pub hash: String,
    /// Where the artifact is stored.
    pub artifact_ref: String,
}

/// What the caller does after a backend's outcome was recorded.
#[derive(Debug, Clone, Copy, PartialEq, Eq, Structural)]
pub enum ScanAction {
    /// The outcome is final for that backend.
    Recorded,
    /// Submit the scan to this backend again, after the delay.
    Resubmit { backend: usize, delay: u64 },
    /// The outcome was not recorded: no such backend, or its outcome is
    /// already final.
    Ignored,
}

/// The aggregated verdict of the scan stage.
#[derive(Debug, Clone, Copy, PartialEq, Eq, Structural)]
pub enum ScanVerdict {
    /// Some backend has no final outcome yet.
    Pending,
    /// Every backend passed the artifact.
    Passed,
    /// Warnings were found, and the policy lets the release proceed.
    Warning,
    /// The artifact must not proceed.
    Failed(FailureReason),
}

impl ScanVerdict {
    /// The scan status that the verdict shows to the outside.
    pub open spec fn spec_status(self) -> ScanStatus {
        match self {
            ScanVerdict::Pending => ScanStatus::Scanning,
            ScanVerdict::Passed => ScanStatus::Passed,
            ScanVerdict::Warning => ScanStatus::Warning,
            ScanVerdict::Failed(_) => ScanStatus::Failed,
        }
    }

    /// The scan status that the verdict shows to the outside.
    #[verifier::when_used_as_spec(spec_status)]
    pub fn status(self) -> (s: ScanStatus)
        ensures
            s == self.spec_status(),
    {
        match self {
            ScanVerdict::Pending => ScanStatus::Scanning,
            ScanVerdict::Passed => ScanStatus::Passed,
            ScanVerdict::Warning => ScanStatus::Warning,
            ScanVerdict::Failed(_) => ScanStatus::Failed,
        }
    }
}

/// The scans of one release.
#[derive(Debug)]
pub struct ScanRun {
    /// The release being scanned.
    pub release_id: u64,
    /// Hash of the artifact that was submitted to the backends.
    pub hash: String,
    /// One slot per backend.
    pub slots: Vec<BackendSlot>,
}

/// Some slot before position `end` reported severity `severity`.
pub open spec fn reported_up_to(slots: Seq<BackendSlot>, end: int, severity: Severity) -> bool {
    exists|i: int| 0 <= i < end && (#[trigger] slots[i]).state == BackendState::Reported(severity)
}

/// No slot before position `end` is without a result for good.
pub open spec fn none_failed_up_to(slots: Seq<BackendSlot>, end: int) -> bool {
    forall|i: int| 0 <= i < end ==> !((#[trigger] slots[i]).state is Failed)
}

/// No slot before position `end` is pending.
pub open spec fn none_pending_up_to(slots: Seq<BackendSlot>, end: int) -> bool {
    forall|i: int| 0 <= i < end ==> !((#[trigger] slots[i]).state is Pending)
}

/// The aggregated verdict, as a function of the slots and the warning policy.
/// In this order:
/// - a critical report fails the scan as a critical vulnerability;
/// - a backend without a result fails it with that backend's reason (the
///   first such backend);
/// - a pending backend leaves it pending;
/// - no backend at all fails it as a tool failure: no result is never a pass;
/// - a failed report rejects the artifact;
/// - a warning passes with `Warning` if the policy allows, else rejects;
/// - otherwise the scan passed.
pub open spec fn verdict_holds(
    slots: Seq<BackendSlot>,
    allow_warnings: bool,
    verdict: ScanVerdict,
) -> bool {
    let n = slots.len() as int;
    if reported_up_to(slots, n, Severity::Critical) {
        verdict == ScanVerdict::Failed(FailureReason::CriticalVulnerability)
    } else if !none_failed_up_to(slots, n) {
        exists|i: int|
            {
                &&& 0 <= i < n
                &&& none_failed_up_to(slots, i)
                &&& (#[trigger] slots[i]).state is Failed
                &&& verdict == ScanVerdict::Failed(slots[i].state->Failed_0)
            }
    } else if !none_pending_up_to(slots, n) {
        verdict == ScanVerdict::Pending
    } else if n == 0 {
        verdict == ScanVerdict::Failed(FailureReason::ToolFailed)
    } else if reported_up_to(slots, n, Severity::Failed) {
        verdict == ScanVerdict::Failed(FailureReason::ScanRejected)
    } else if reported_up_to(slots, n, Severity::Warning) {
        verdict == if allow_warnings {
            ScanVerdict::Warning
        } else {
            ScanVerdict::Failed(FailureReason::ScanRejected)
        }
    } else {
        verdict == ScanVerdict::Passed
    }
}

/// Submits artifacts to the scan backends and aggregates their verdicts.
#[derive(Debug, Clone, Copy)]
pub struct ScannerService {
    backends: usize,
    retry: RetryPolicy,
    allow_warnings: bool,
}

impl ScannerService {
    /// Number of configured backends.
    pub closed spec fn spec_backends(&self) -> usize {
        self.backends
    }

    /// Retry budget of each backend.
    pub closed spec fn spec_retry(&self) -> RetryPolicy {
        self.retry
    }

    /// Whether a release with warnings may proceed.
    pub closed spec fn spec_allow_warnings(&self) -> bool {
        self.allow_warnings
    }

    /// Create a scanner service with the default settings: one backend, three
    /// retries per backend, warnings allowed.
    #[must_use]
    pub fn new() -> (service: Self)
        ensures
            service.spec_backends() == 1,
            service.spec_retry() == (RetryPolicy { max_retries: 3, base_delay: 5, max_delay: 300 }),
            service.spec_allow_warnings(),
    {
        ScannerService {
            backends: 1,
            retry: RetryPolicy { max_retries: 3, base_delay: 5, max_delay: 300 },
            allow_warnings: true,
        }
    }

    /// Create a scanner service with the given settings.
    pub fn with_settings(backends: usize, retry: RetryPolicy, allow_warnings: bool) -> (service:
        Self)
        ensures
            service.spec_backends() == backends,
            service.spec_retry() == retry,
            service.spec_allow_warnings() == allow_warnings,
    {
        ScannerService { backends, retry, allow_warnings }
    }

    /// Number of configured backends.
    #[verifier::when_used_as_spec(spec_backends)]
    pub fn backends(&self) -> (n: usize)
        ensures
            n == self.spec_backends(),
    {
        self.backends
    }

    /// Retry budget of each backend.
    #[verifier::when_used_as_spec(spec_retry)]
    pub fn retry(&self) -> (p: RetryPolicy)
        ensures
            p == self.spec_retry(),
    {
        self.retry
    }

    /// Whether a release with warnings may proceed.
    #[verifier::when_used_as_spec(spec_allow_warnings)]
    pub fn allow_warnings(&self) -> (b: bool)
        ensures
            b == self.spec_allow_warnings(),
    {
        self.allow_warnings
    }

    /// Submits the artifact with the given hash: one request per backend, all
    /// for that hash and artifact, and a run in which every backend is pending.
    pub fn submit(&self, release_id: u64, hash: &str, artifact_ref: &str) -> (started: (
        ScanRun,
        Vec<ScanRequest>,
    ))
        ensures
            started.0.release_id == release_id,
            started.0.hash@ == hash@,
            started.0.slots@.len() == self.backends(),
            forall|i: int|
                0 <= i < self.backends() ==> {
                    &&& (#[trigger] started.0.slots@[i]).retries == 0
                    &&& started.0.slots@[i].state == BackendState::Pending
                    &&& started.0.slots@[i].report is None
                },
            started.1@.len() == self.backends(),
            forall|i: int|
                0 <= i < self.backends() ==> {
                    &&& (#[trigger] started.1@[i]).release_id == release_id
                    &&& started.1@[i].backend == i
                    &&& started.1@[i].hash@ == hash@
                    &&& started.1@[i].artifact_ref@ == artifact_ref@
                },
    {
        let mut slots: Vec<BackendSlot> = Vec::new();
        let mut requests: Vec<ScanRequest> = Vec::new();
        let mut i: usize = 0;
        while i < self.backends
            invariant
                i <= self.backends,
                slots@.len() == i,
                requests@.len() == i,
                forall|j: int|
                    0 <= j < i ==> {
                        &&& (#[trigger] slots@[j]).retries == 0
                        &&& slots@[j].state == BackendState::Pending
                        &&& slots@[j].report is None
                    },
                forall|j: int|
                    0 <= j < i ==> {
                        &&& (#[trigger] requests@[j]).release_id == release_id
                        &&& requests@[j].backend == j
                        &&& requests@[j].hash@ == hash@
                        &&& requests@[j].artifact_ref@ == artifact_ref@
                    },
            decreases self.backends - i,
        {
            slots.push(BackendSlot { retries: 0, state: BackendState::Pending, report: None });
            requests.push(
                ScanRequest {
                    release_id,
                    backend: i,
                    hash: String::from_str(hash),
                    artifact_ref: String::from_str(artifact_ref),
                },
            );
            i = i + 1;
        }
        (ScanRun { release_id, hash: String::from_str(hash), slots }, requests)
    }

    /// What recording `result` for `backend` does to a slot, and what the
    /// caller does next:
    /// - a report is recorded with what it amounts to: the worst of its
    ///   verdict and its findings;
    /// - a retryable error, while the backend's budget lasts, counts one more
    ///   retry and asks for resubmission;
    /// - a retryable error with the budget used up fails the backend as a
    ///   tool failure;
    /// - any other error fails the backend with the error's reason.
    pub open spec fn spec_record(
        &self,
        slot: BackendSlot,
        backend: usize,
        result: Result<ScanReport, ScanError>,
    ) -> (BackendSlot, ScanAction) {
        match result {
            Ok(report) => (
                BackendSlot {
                    retries: slot.retries,
                    state: BackendState::Reported(report.spec_severity()),
                    report: Some(report),
                },
                ScanAction::Recorded,
            ),
            Err(e) => if e.reason().is_retryable() {
                match self.retry().spec_decide(slot.retries) {
                    RetryDecision::RetryAfter(delay) => (
                        BackendSlot {
                            retries: (slot.retries + 1) as u32,
                            state: BackendState::Pending,
                            report: None,
                        },
                        ScanAction::Resubmit { backend, delay },
                    ),
                    RetryDecision::GiveUp => (
                        BackendSlot {
                            retries: slot.retries,
                            state: BackendState::Failed(FailureReason::ToolFailed),
                            report: None,
                        },
                        ScanAction::Recorded,
                    ),
                }
            } else {
                (
                    BackendSlot {
                        retries: slot.retries,
                        state: BackendState::Failed(e.reason()),
                        report: None,
                    },
                    ScanAction::Recorded,
                )
            },
        }
    }

    /// Records what `backend` reported. An outcome for an unknown backend, or
    /// for one whose outcome is already final, is ignored and leaves the run
    /// unchanged.
    pub fn record(
        &self,
        run: &mut ScanRun,
        backend: usize,
        result: Result<ScanReport, ScanError>,
    ) -> (action: ScanAction)
        ensures
            final(run).release_id == old(run).release_id,
            final(run).hash == old(run).hash,
            backend < old(run).slots@.len() && old(run).slots@[backend as int].state
                == BackendState::Pending ==> {
                let expected = self.spec_record(old(run).slots@[backend as int], backend, result);
                &&& final(run).slots@ == old(run).slots@.update(backend as int, expected.0)
                &&& action == expected.1
            },
            !(backend < old(run).slots@.len() && old(run).slots@[backend as int].state
                == BackendState::Pending) ==> {
                &&& *final(run) == *old(run)
                &&& action == ScanAction::Ignored
            },
    {
        if backend >= run.slots.len() {
            return ScanAction::Ignored;
        }
        if run.slots[backend].state != BackendState::Pending {
            return ScanAction::Ignored;
        }
        let retries = run.slots[backend].retries;
        let (slot, action) = match result {
            Ok(report) => {
                let severity = report.severity();
                (
                    BackendSlot {
                        retries,
                        state: BackendState::Reported(severity),
                        report: Some(report),
                    },
                    ScanAction::Recorded,
                )
            },
            Err(e) => {
                let reason = e.reason();
                if reason.is_retryable() {
                    match self.retry.decide(retries) {
                        RetryDecision::RetryAfter(delay) => (
                            BackendSlot {
                                retries: retries + 1,
                                state: BackendState::Pending,
                                report: None,
                            },
                            ScanAction::Resubmit { backend, delay },
                        ),
                        RetryDecision::GiveUp => (
                            BackendSlot {
                                retries,
                                state: BackendState::Failed(FailureReason::ToolFailed),
                                report: None,
                            },
                            ScanAction::Recorded,
                        ),
                    }
                } else {
                    (
                        BackendSlot { retries, state: BackendState::Failed(reason), report: None },
                        ScanAction::Recorded,
                    )
                }
            },
        };
        run.slots.set(backend, slot);
        action
    }

    /// Aggregates the backends' outcomes into the verdict of the scan stage.
    pub fn collect(&self, run: &ScanRun) -> (verdict: ScanVerdict)
        ensures
            verdict_holds(run.slots@, self.allow_warnings(), verdict),
    {
        let n = run.slots.len();
        let mut critical = false;
        let mut rejected = false;
        let mut warned = false;
        let mut pending = false;
        let mut failed: Option<FailureReason> = None;
        let mut i: usize = 0;
        while i < n
            invariant
                i <= n,
                n == run.slots@.len(),
                critical == reported_up_to(run.slots@, i as int, Severity::Critical),
                rejected == reported_up_to(run.slots@, i as int, Severity::Failed),
                warned == reported_up_to(run.slots@, i as int, Severity::Warning),
                pending == !none_pending_up_to(run.slots@, i as int),
                failed is None <==> none_failed_up_to(run.slots@, i as int),
                failed matches Some(reason) ==> exists|k: int|
                    {
                        &&& 0 <= k < i
                        &&& none_failed_up_to(run.slots@, k)
                        &&& (#[trigger] run.slots@[k]).state == BackendState::Failed(reason)
                    },
            decreases n - i,
        {
            match run.slots[i].state {
                BackendState::Pending => {
                    pending = true;
                },
                BackendState::Reported(severity) => {
                    match severity {
                        Severity::Critical => {
                            critical = true;
                        },
                        Severity::Failed => {
                            rejected = true;
                        },
                        Severity::Warning => {
                            warned = true;
                        },
                        Severity::Passed => {},
                    }
                },
                BackendState::Failed(reason) => {
                    if failed.is_none() {
                        failed = Some(reason);
                    }
                },
            }
            i = i + 1;
        }
        if critical {
            ScanVerdict::Failed(FailureReason::CriticalVulnerability)
        } else if let Some(reason) = failed {
            ScanVerdict::Failed(reason)
        } else if pending {
            ScanVerdict::Pending
        } else if n == 0 {
            ScanVerdict::Failed(FailureReason::ToolFailed)
        } else if rejected {
            ScanVerdict::Failed(FailureReason::ScanRejected)
        } else if warned {
            if self.allow_warnings {
                ScanVerdict::Warning
            } else {
                ScanVerdict::Failed(FailureReason::ScanRejected)
            }
        } else {
            ScanVerdict::Passed
        }
    }
}

impl Default for ScannerService {
    fn default() -> (service: Self)
        ensures
            service.spec_backends() == 1,
            service.spec_retry() == (RetryPolicy { max_retries: 3, base_delay: 5, max_delay: 300 }),
            service.spec_allow_warnings(),
    {
        Self::new()
    }
}

/// A single critical report forces the verdict, whatever else was reported.
pub proof fn lemma_critical_forces_failure(
    slots: Seq<BackendSlot>,
    allow_warnings: bool,
    verdict: ScanVerdict,
    i: int,
)
    requires
        verdict_holds(slots, allow_warnings, verdict),
        0 <= i < slots.len(),
        slots[i].state == BackendState::Reported(Severity::Critical),
    ensures
        verdict == ScanVerdict::Failed(FailureReason::CriticalVulnerability),
{
}

/// A critical finding can never pass: once a report with a critical finding
/// is recorded for a pending backend, the scan fails as a critical
/// vulnerability, whatever verdict the report carries and whatever the other
/// backends report.
pub proof fn lemma_recorded_critical_finding_fails_scan(
    service: ScannerService,
    slots: Seq<BackendSlot>,
    backend: usize,
    report: ScanReport,
    i: int,
    verdict: ScanVerdict,
)
    requires
        backend < slots.len(),
        0 <= i < report.findings@.len(),
        report.findings@[i].severity == Severity::Critical,
        verdict_holds(
            slots.update(
                backend as int,
                service.spec_record(slots[backend as int], backend, Ok(report)).0,
            ),
            service.allow_warnings(),
            verdict,
        ),
    ensures
        verdict == ScanVerdict::Failed(FailureReason::CriticalVulnerability),
{
    lemma_critical_finding_decides(report, i);
    let after = slots.update(
        backend as int,
        service.spec_record(slots[backend as int], backend, Ok(report)).0,
    );
    assert(after[backend as int].state == BackendState::Reported(Severity::Critical));
}

/// The gateway fails closed: a verdict that lets the release proceed means
/// that at least one backend reported, that every backend reported, and that
/// no report was worse than a warning.
pub proof fn lemma_pass_needs_every_result(
    slots: Seq<BackendSlot>,
    allow_warnings: bool,
    verdict: ScanVerdict,
)
    requires
        verdict_holds(slots, allow_warnings, verdict),
        verdict == ScanVerdict::Passed || verdict == ScanVerdict::Warning,
    ensures
        slots.len() > 0,
        forall|i: int|
            0 <= i < slots.len() ==> (#[trigger] slots[i]).state == BackendState::Reported(
                Severity::Passed,
            ) || slots[i].state == BackendState::Reported(Severity::Warning),
        verdict == ScanVerdict::Warning ==> allow_warnings,
{
    let n = slots.len() as int;
    assert forall|i: int| 0 <= i < n implies (#[trigger] slots[i]).state == BackendState::Reported(
        Severity::Passed,
    ) || slots[i].state == BackendState::Reported(Severity::Warning) by {
        match slots[i].state {
            BackendState::Pending => {
                assert(!none_pending_up_to(slots, n));
            },
            BackendState::Failed(_) => {
                assert(!none_failed_up_to(slots, n));
            },
            BackendState::Reported(s) => {
                assert(reported_up_to(slots, n, s));
            },
        }
    }
}

} // verus!
