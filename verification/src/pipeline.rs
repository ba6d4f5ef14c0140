//! The pipeline in order: what each component reports becomes the event
//! that moves the release.

use crate::builds::{AttemptSlot, BuildOutcome, BuildRequest, BuildRun, BuildService, SlotState};
use crate::failure::FailureReason;
use crate::release::{
    holds_lease, release_wf, spec_complete, AdvanceError, Outcome, ReleaseView, Stage,
    StageEvent, StageEventView,
};
use crate::repro::{all_sane, hashes_agree, verify_reproducibility, BuildArtifact};
use crate::retry::RetryPolicy;
use crate::scanner::{
    lemma_pass_needs_every_result, lemma_recorded_critical_finding_fails_scan, verdict_holds,
    BackendSlot, BackendState, ScanReport, ScanRun, ScanVerdict, ScannerService, Severity,
};
use crate::signing::{
    after_timeouts, idempotency_key, idempotency_key_text, lemma_timeouts_end_in_failure,
    spec_commit, spec_lookup, SignDecision, SignEvent, SignStep, SigningError, SigningLedger,
    SigningService, SigningSession,
};
use crate::store::{spec_get, ReleaseStore};
use vstd::prelude::*;
use vstd::string::*;

verus! {

/// The event that an outcome of the build stage stands for: pending while
/// attempts are open, success once all have succeeded, a fatal failure once
/// one has failed for good.
pub open spec fn outcome_event(outcome: BuildOutcome) -> StageEventView {
    match outcome {
        BuildOutcome::Pending => StageEventView::Pending,
        BuildOutcome::Succeeded(_) => StageEventView::BuildsSucceeded,
        BuildOutcome::Failed(reason) => StageEventView::Fatal(reason),
    }
}

/// The event for the state of a release's build run. A release without a
/// run has nothing built: a fatal build failure.
pub fn build_event(run: Option<&BuildRun>) -> (event: StageEvent)
    ensures
        match run {
            Some(run) => exists|outcome: BuildOutcome|
                run.outcome_holds(outcome) && event@ == #[trigger] outcome_event(outcome),
            None => event@ == StageEventView::Fatal(FailureReason::BuildFailed),
        },
{
    match run {
        Some(run) => {
            let outcome = run.collect();
            let event = match &outcome {
                BuildOutcome::Pending => StageEvent::Pending,
                BuildOutcome::Succeeded(_) => StageEvent::BuildsSucceeded,
                BuildOutcome::Failed(reason) => StageEvent::Fatal(*reason),
            };
            assert(event@ == outcome_event(outcome));
            event
        },
        None => StageEvent::Fatal(FailureReason::BuildFailed),
    }
}

/// The event for a failure of a stage's action itself: retryable if the
/// failure is transient, fatal otherwise.
pub fn failure_event(reason: FailureReason) -> (event: StageEvent)
    ensures
        event@ == if reason.is_retryable() {
            StageEventView::Retryable(reason)
        } else {
            StageEventView::Fatal(reason)
        },
{
    if reason.is_retryable() {
        StageEvent::Retryable(reason)
    } else {
        StageEvent::Fatal(reason)
    }
}

/// The event that the verification of a set of artifacts ends in:
/// - a fatal build failure, if there is no artifact or one is not sane;
/// - else a fatal failure of reproducibility, if the hashes disagree;
/// - else the agreed hash.
pub open spec fn artifacts_event(artifacts: Seq<BuildArtifact>) -> StageEventView {
    if artifacts.len() == 0 || !all_sane(artifacts) {
        StageEventView::Fatal(FailureReason::BuildFailed)
    } else if !hashes_agree(artifacts) {
        StageEventView::Fatal(FailureReason::ReproducibilityFailed)
    } else {
        StageEventView::Reproducible(artifacts[0].hash@)
    }
}

/// Verifies the artifacts of the builds and reports the result as an event.
/// A failure of reproducibility is fatal: it is never retried.
pub fn check_reproducibility(artifacts: &Vec<BuildArtifact>) -> (event: StageEvent)
    ensures
        event@ == artifacts_event(artifacts@),
{
    match verify_reproducibility(artifacts) {
        Ok(hash) => StageEvent::Reproducible(hash),
        Err(e) => StageEvent::Fatal(e.reason()),
    }
}

/// Verifies the artifacts of a release's build run whose attempts have all
/// succeeded, and reports the result as an event. A run that is not
/// finished is pending; one with a failed attempt is a fatal failure with
/// that reason; a release without a run is a fatal build failure.
pub fn reproducibility_event(run: Option<&BuildRun>) -> (event: StageEvent)
    ensures
        match run {
            Some(run) => exists|outcome: BuildOutcome|
                #![trigger run.outcome_holds(outcome)]
                run.outcome_holds(outcome) && event@ == match outcome {
                    BuildOutcome::Succeeded(artifacts) => artifacts_event(artifacts@),
                    BuildOutcome::Pending => StageEventView::Pending,
                    BuildOutcome::Failed(reason) => StageEventView::Fatal(reason),
                },
            None => event@ == StageEventView::Fatal(FailureReason::BuildFailed),
        },
{
    match run {
        Some(run) => {
            let outcome = run.collect();
            let event = match &outcome {
                BuildOutcome::Succeeded(artifacts) => check_reproducibility(artifacts),
                BuildOutcome::Pending => StageEvent::Pending,
                BuildOutcome::Failed(reason) => StageEvent::Fatal(*reason),
            };
            assert(run.outcome_holds(outcome));
            event
        },
        None => StageEvent::Fatal(FailureReason::BuildFailed),
    }
}

/// The event for the state of a scan run: the aggregated verdict, with the
/// hash that was submitted to the backends, so that the release can hold it
/// against the hash that was built.
pub fn scan_event(scanner: &ScannerService, run: &ScanRun) -> (event: StageEvent)
    ensures
        exists|verdict: ScanVerdict|
            verdict_holds(run.slots@, scanner.allow_warnings(), verdict) && event@
                == (StageEventView::Scanned { hash: run.hash@, verdict }),
{
    let verdict = scanner.collect(run);
    let event = StageEvent::Scanned { hash: run.hash.clone(), verdict };
    assert(event@ == (StageEventView::Scanned { hash: run.hash@, verdict }));
    event
}

/// Starts the builds of a stored release from its source reference. A
/// release that is not stored has no source: a fatal failure.
pub fn start_builds(
    store: &ReleaseStore,
    builds: &BuildService,
    release_id: u64,
    recipe: &str,
) -> (result: Result<(BuildRun, Vec<BuildRequest>), StageEvent>)
    ensures
        match result {
            Ok(started) => spec_get(store@, release_id) matches Some(r) && builds.starts(
                release_id,
                r.source_ref,
                recipe@,
                started,
            ),
            Err(event) => spec_get(store@, release_id) is None && event@
                == StageEventView::Fatal(FailureReason::SourceNotFound),
        },
{
    match store.get_release(release_id) {
        Some(release) => Ok(builds.start_builds(release_id, release.source_ref(), recipe)),
        None => Err(StageEvent::Fatal(FailureReason::SourceNotFound)),
    }
}

/// What is handed to the scan backends: the verified hash, and where an
/// artifact with that hash is stored.
#[derive(Debug)]
pub struct ScanTarget {
    pub hash: String,
    pub artifact_ref: String,
}

/// The slot holds an artifact with the hash.
pub open spec fn carries(slot: AttemptSlot, hash: Seq<char>) -> bool {
    slot.state matches SlotState::Succeeded(a) && a.hash@ == hash
}

/// No slot before position `end` holds an artifact with the hash.
pub open spec fn none_carries_up_to(slots: Seq<AttemptSlot>, hash: Seq<char>, end: int) -> bool {
    forall|i: int| 0 <= i < end ==> !carries(#[trigger] slots[i], hash)
}

/// Position `i` holds the first artifact with the hash, and the artifact is
/// stored at `artifact_ref`.
pub open spec fn is_scan_source(
    slots: Seq<AttemptSlot>,
    hash: Seq<char>,
    artifact_ref: Seq<char>,
    i: int,
) -> bool {
    &&& 0 <= i < slots.len()
    &&& none_carries_up_to(slots, hash, i)
    &&& carries(slots[i], hash)
    &&& slots[i].state->Succeeded_0.artifact_ref@ == artifact_ref
}

fn artifact_with(slots: &Vec<AttemptSlot>, hash: &String) -> (artifact_ref: Option<String>)
    ensures
        artifact_ref is Some ==> exists|i: int|
            #[trigger] is_scan_source(slots@, hash@, artifact_ref->0@, i),
        artifact_ref is None ==> none_carries_up_to(slots@, hash@, slots@.len() as int),
{
    let mut i: usize = 0;
    while i < slots.len()
        invariant
            i <= slots@.len(),
            none_carries_up_to(slots@, hash@, i as int),
        decreases slots.len() - i,
    {
        match &slots[i].state {
            SlotState::Succeeded(a) => {
                if a.hash == *hash {
                    let found = Some(a.artifact_ref.clone());
                    assert(is_scan_source(slots@, hash@, found->0@, i as int));
                    return found;
                }
            },
            _ => {},
        }
        i = i + 1;
    }
    None
}

/// Chooses what to scan for a release: the hash that its builds were
/// verified to agree on, and the first artifact of its run that carries
/// exactly that hash.
/// - A release that is not stored, or whose builds are not verified yet, has
///   nothing to scan yet: the stage is pending.
/// - A release without a run, or whose run holds no artifact with the
///   verified hash, cannot be scanned: the artifact is not found.
pub fn scan_target(store: &ReleaseStore, run: Option<&BuildRun>, release_id: u64) -> (result:
    Result<ScanTarget, StageEvent>)
    ensures
        match result {
            Ok(target) => {
                &&& spec_get(store@, release_id) matches Some(r)
                &&& r.build_hash == Some(target.hash@)
                &&& run is Some
                &&& exists|i: int|
                    #[trigger] is_scan_source(
                        run->0.slots@,
                        result->Ok_0.hash@,
                        result->Ok_0.artifact_ref@,
                        i,
                    )
            },
            Err(event) => match spec_get(store@, release_id) {
                Some(r) => match r.build_hash {
                    Some(hash) => {
                        &&& event@ == StageEventView::Fatal(FailureReason::ApkNotFound)
                        &&& run matches Some(built) ==> none_carries_up_to(
                            built.slots@,
                            hash,
                            built.slots@.len() as int,
                        )
                    },
                    None => event@ == StageEventView::Pending,
                },
                None => event@ == StageEventView::Pending,
            },
        },
{
    let hash = match store.get_release(release_id) {
        Some(release) => match release.build_hash() {
            Some(hash) => hash,
            None => {
                return Err(StageEvent::Pending);
            },
        },
        None => {
            return Err(StageEvent::Pending);
        },
    };
    match run {
        Some(built) => match artifact_with(&built.slots, &hash) {
            Some(artifact_ref) => {
                let ghost source = choose|i: int|
                    is_scan_source(built.slots@, hash@, artifact_ref@, i);
                let result = Ok(ScanTarget { hash, artifact_ref });
                assert(is_scan_source(
                    run->0.slots@,
                    result->Ok_0.hash@,
                    result->Ok_0.artifact_ref@,
                    source,
                ));
                result
            },
            None => Err(StageEvent::Fatal(FailureReason::ApkNotFound)),
        },
        None => Err(StageEvent::Fatal(FailureReason::ApkNotFound)),
    }
}

/// How the signing stage of a release begins.
#[derive(Debug)]
pub enum SignStart {
    /// Nothing is to be asked of the signing capability: the event to
    /// complete the stage with.
    Done(StageEvent),
    /// The signing operation to run.
    Call(SigningSession),
}

/// Begins the signing stage of a release.
/// - A release that is not stored, or whose builds are not verified yet, has
///   nothing to sign yet: the stage is pending.
/// - Where the ledger holds a record under the idempotency key of the
///   release and its verified hash, that record is the result: nothing is
///   signed a second time.
/// - Otherwise a signing operation is opened for the verified hash, under
///   that idempotency key.
pub fn sign_start(
    store: &ReleaseStore,
    ledger: &SigningLedger,
    signer: &SigningService,
    release_id: u64,
    key_id: &str,
    expected_fingerprint: &str,
) -> (start: SignStart)
    ensures
        match spec_get(store@, release_id) {
            Some(r) => match r.build_hash {
                Some(hash) => match spec_lookup(
                    ledger@,
                    idempotency_key_text(release_id, hash),
                ) {
                    Some(record) => start matches SignStart::Done(event) && event@
                        == StageEventView::Signed(record),
                    None => {
                        &&& start matches SignStart::Call(session)
                        &&& session.release_id == release_id
                        &&& session.hash@ == hash
                        &&& session.key_id@ == key_id@
                        &&& session.idempotency_key@ == idempotency_key_text(release_id, hash)
                        &&& session.expected_fingerprint@ == expected_fingerprint@
                        &&& session.transient_retries == 0
                        &&& session.auth_failures == 0
                    },
                },
                None => start matches SignStart::Done(event) && event@ == StageEventView::Pending,
            },
            None => start matches SignStart::Done(event) && event@ == StageEventView::Pending,
        },
{
    let hash = match store.get_release(release_id) {
        Some(release) => match release.build_hash() {
            Some(hash) => hash,
            None => {
                return SignStart::Done(StageEvent::Pending);
            },
        },
        None => {
            return SignStart::Done(StageEvent::Pending);
        },
    };
    let key = idempotency_key(release_id, hash.as_str());
    match ledger.lookup(key.as_str()) {
        Some(record) => SignStart::Done(StageEvent::Signed(record)),
        None => SignStart::Call(
            signer.begin(
                release_id,
                hash,
                String::from_str(key_id),
                key,
                String::from_str(expected_fingerprint),
            ),
        ),
    }
}

/// Carries out a step of the signing coordinator and reports the event that
/// it ends the stage with, if it ends it.
/// - An accepted signature is committed to the ledger; the event carries the
///   record that the ledger holds for the operation, which for a replay is
///   the first one. A record that the ledger refuses fails the stage.
/// - A failure fails the stage with its reason.
/// - A retry ends nothing.
/// But for the commit, the ledger stays as it is.
pub fn commit_event(ledger: &mut SigningLedger, step: SignStep) -> (event: Option<StageEvent>)
    ensures
        old(ledger).wf() ==> final(ledger).wf(),
        match step {
            SignStep::Accepted(record) => {
                &&& final(ledger)@ == spec_commit(old(ledger)@, record@).0
                &&& event matches Some(e)
                &&& e@ == match spec_commit(old(ledger)@, record@).1 {
                    Some(stored) => StageEventView::Signed(stored),
                    None => StageEventView::Fatal(FailureReason::SigningFailed),
                }
            },
            SignStep::Failed(reason) => {
                &&& final(ledger)@ == old(ledger)@
                &&& event matches Some(e)
                &&& e@ == StageEventView::Fatal(reason)
            },
            SignStep::Retry { .. } => final(ledger)@ == old(ledger)@ && event is None,
        },
{
    match step {
        SignStep::Accepted(record) => match ledger.commit(record) {
            Ok(stored) => Some(StageEvent::Signed(stored)),
            Err(e) => Some(StageEvent::Fatal(e.reason())),
        },
        SignStep::Failed(reason) => Some(StageEvent::Fatal(reason)),
        SignStep::Retry { .. } => None,
    }
}

/// Builds that disagree on the hash fail the release: where the artifacts
/// are sane and two of them carry different hashes, the reproducibility
/// check ends the release in `Failed` with `ReproducibilityFailed`, and no
/// hash is recorded for it.
pub proof fn lemma_disagreeing_builds_fail_release(
    artifacts: Seq<BuildArtifact>,
    i: int,
    j: int,
    pre: ReleaseView,
    worker: u64,
    now: u64,
    policy: RetryPolicy,
)
    requires
        all_sane(artifacts),
        0 <= i < artifacts.len(),
        0 <= j < artifacts.len(),
        artifacts[i].hash@ != artifacts[j].hash@,
        pre.stage == Stage::ReproducibilityCheck,
        holds_lease(pre.lease, worker, now),
    ensures
        artifacts_event(artifacts) == StageEventView::Fatal(
            FailureReason::ReproducibilityFailed,
        ),
        ({
            let done = spec_complete(
                pre,
                worker,
                now,
                pre.version,
                artifacts_event(artifacts),
                policy,
            );
            &&& done.1 == Ok::<Outcome, AdvanceError>(
                Outcome::Failed(FailureReason::ReproducibilityFailed),
            )
            &&& done.0.stage == Stage::Failed
            &&& done.0.failure == Some(FailureReason::ReproducibilityFailed)
            &&& done.0.build_hash == pre.build_hash
        }),
{
    if hashes_agree(artifacts) {
        assert(artifacts[i].hash@ == artifacts[0].hash@);
        assert(artifacts[j].hash@ == artifacts[0].hash@);
    }
}

/// A release goes on to signing only on a scan in which every backend
/// reported and no report was worse than a warning: where a scan's event
/// moves a release into `AwaitingSignature`, the run had at least one
/// backend, each backend reported `Passed` or `Warning`, and the hash that
/// was scanned is the hash that was built.
pub proof fn lemma_signature_needs_every_backend(
    slots: Seq<BackendSlot>,
    allow_warnings: bool,
    verdict: ScanVerdict,
    hash: Seq<char>,
    pre: ReleaseView,
    worker: u64,
    now: u64,
    expected_version: u64,
    policy: RetryPolicy,
)
    requires
        verdict_holds(slots, allow_warnings, verdict),
        pre.stage == Stage::Scanning,
        spec_complete(
            pre,
            worker,
            now,
            expected_version,
            StageEventView::Scanned { hash, verdict },
            policy,
        ).0.stage == Stage::AwaitingSignature,
    ensures
        slots.len() > 0,
        forall|i: int|
            0 <= i < slots.len() ==> (#[trigger] slots[i]).state == BackendState::Reported(
                Severity::Passed,
            ) || slots[i].state == BackendState::Reported(Severity::Warning),
        pre.build_hash == Some(hash),
{
    lemma_pass_needs_every_result(slots, allow_warnings, verdict);
}

/// A critical finding halts the release before signing: once a backend's
/// report with a critical finding is recorded, the scan's verdict, whatever
/// the other backends report and whatever verdict that report carries, ends
/// the release that is being scanned in `Failed` with
/// `CriticalVulnerability`. Nothing is retried, and the release holds no
/// signing record.
pub proof fn lemma_critical_finding_fails_release(
    service: ScannerService,
    slots: Seq<BackendSlot>,
    backend: usize,
    report: ScanReport,
    i: int,
    verdict: ScanVerdict,
    pre: ReleaseView,
    worker: u64,
    now: u64,
    policy: RetryPolicy,
)
    requires
        backend < slots.len(),
        0 <= i < report.findings@.len(),
        report.findings@[i].severity == Severity::Critical,
        verdict_holds(
            slots.update(
                backend as int,
                service.spec_record(slots[backend as int], backend, Ok(report)).0,
            ),
            service.allow_warnings(),
            verdict,
        ),
        release_wf(pre),
        pre.stage == Stage::Scanning,
        holds_lease(pre.lease, worker, now),
    ensures
        ({
            let done = spec_complete(
                pre,
                worker,
                now,
                pre.version,
                StageEventView::Scanned { hash: pre.build_hash->0, verdict },
                policy,
            );
            &&& done.1 == Ok::<Outcome, AdvanceError>(
                Outcome::Failed(FailureReason::CriticalVulnerability),
            )
            &&& done.0.stage == Stage::Failed
            &&& done.0.failure == Some(FailureReason::CriticalVulnerability)
            &&& done.0.signing is None
            &&& done.0.lease is None
        }),
{
    lemma_recorded_critical_finding_fails_scan(service, slots, backend, report, i, verdict);
}

/// A signing capability that times out on every call fails the release:
/// after the retry bound the coordinator gives up with the timeout as the
/// reason, and that failure ends the release that awaits its signature in
/// `Failed` with this reason recorded, the lease given back and no signing
/// record.
pub proof fn lemma_signing_timeouts_fail_release(
    service: SigningService,
    session: SigningSession,
    n: nat,
    pre: ReleaseView,
    worker: u64,
    now: u64,
    policy: RetryPolicy,
)
    requires
        session.transient_retries == 0,
        n >= service.retry().max_retries,
        release_wf(pre),
        pre.stage == Stage::AwaitingSignature,
        holds_lease(pre.lease, worker, now),
    ensures
        service.spec_decide(
            after_timeouts(service, session, n),
            SignEvent::Error(SigningError::HsmTimeout),
        ) == SignDecision::Fail(FailureReason::HsmTimeout),
        ({
            let done = spec_complete(
                pre,
                worker,
                now,
                pre.version,
                StageEventView::Fatal(FailureReason::HsmTimeout),
                policy,
            );
            &&& done.1 == Ok::<Outcome, AdvanceError>(Outcome::Failed(FailureReason::HsmTimeout))
            &&& done.0.stage == Stage::Failed
            &&& done.0.failure == Some(FailureReason::HsmTimeout)
            &&& done.0.history.last().reason == Some(FailureReason::HsmTimeout)
            &&& done.0.lease is None
            &&& done.0.signing is None
        }),
{
    lemma_timeouts_end_in_failure(service, session, n);
}

} // verus!
