use dk_appstore::builds::{
    classify, AttemptClass, BuildAction, BuildError, BuildOutcome, BuildService, SlotState,
};
use dk_appstore::failure::{ErrorCategory, FailureReason};
use dk_appstore::pipeline::{
    build_event, check_reproducibility, commit_event, failure_event, reproducibility_event,
    scan_event, scan_target, sign_start, start_builds, SignStart,
};
use dk_appstore::store::ReleaseStore;
use dk_appstore::types::AppId;
use dk_appstore::release::StageEvent;
use dk_appstore::repro::{verify_reproducibility, BuildArtifact};
use dk_appstore::retry::{RetryDecision, RetryPolicy};
use dk_appstore::scanner::{
    worst_of, BackendState, Finding, ScanAction, ScanError, ScanReport, ScanVerdict,
    ScannerService, Severity,
};
use dk_appstore::signing::{
    idempotency_key, SignEvent, SignResponse, SignStep, SigningError, SigningLedger,
    SigningRecord, SigningService,
};
use dk_appstore::types::ScanStatus;

fn artifact(attempt_id: u64, hash: &str) -> BuildArtifact {
    BuildArtifact {
        attempt_id,
        artifact_ref: format!("store://artifacts/{attempt_id}"),
        hash: hash.to_string(),
        size: 1024,
        header: vec![0x50, 0x4b, 0x03, 0x04],
    }
}

fn finding(severity: Severity) -> Finding {
    Finding { severity, description: "finding".to_string() }
}

#[test]
fn backoff_doubles_up_to_the_cap() {
    let policy = RetryPolicy { max_retries: 5, base_delay: 2, max_delay: 60 };
    assert_eq!(policy.delay(0), 2);
    assert_eq!(policy.delay(1), 4);
    assert_eq!(policy.delay(2), 8);
    assert_eq!(policy.delay(3), 16);
    assert_eq!(policy.delay(4), 32);
    assert_eq!(policy.delay(5), 60);
    assert_eq!(policy.delay(63), 60);
    assert_eq!(policy.delay(u32::MAX), 60);
    let huge = RetryPolicy { max_retries: 5, base_delay: 3, max_delay: u64::MAX };
    assert_eq!(huge.delay(62), 3 << 62);
    assert_eq!(huge.delay(63), u64::MAX);
    let none = RetryPolicy { max_retries: 5, base_delay: 0, max_delay: 60 };
    assert_eq!(none.delay(10), 0);
    let low_cap = RetryPolicy { max_retries: 5, base_delay: 10, max_delay: 3 };
    assert_eq!(low_cap.delay(0), 3);
}

#[test]
fn retries_are_granted_while_the_budget_lasts() {
    let policy = RetryPolicy { max_retries: 2, base_delay: 5, max_delay: 300 };
    assert_eq!(policy.decide(0), RetryDecision::RetryAfter(5));
    assert_eq!(policy.decide(1), RetryDecision::RetryAfter(10));
    assert_eq!(policy.decide(2), RetryDecision::GiveUp);
    assert_eq!(policy.decide(3), RetryDecision::GiveUp);
    let never = RetryPolicy { max_retries: 0, base_delay: 5, max_delay: 300 };
    assert_eq!(never.decide(0), RetryDecision::GiveUp);
}

#[test]
fn failure_reasons_have_their_category() {
    assert_eq!(FailureReason::BuildTimeout.category(), ErrorCategory::Transient);
    assert_eq!(FailureReason::HsmTimeout.category(), ErrorCategory::Transient);
    assert_eq!(FailureReason::SourceNotFound.category(), ErrorCategory::Permanent);
    assert_eq!(FailureReason::InvalidConfig.category(), ErrorCategory::Permanent);
    assert_eq!(FailureReason::ReproducibilityFailed.category(), ErrorCategory::Integrity);
    assert_eq!(FailureReason::HashMismatch.category(), ErrorCategory::Integrity);
    assert_eq!(FailureReason::CriticalVulnerability.category(), ErrorCategory::Security);
    assert_eq!(FailureReason::VerificationFailed.category(), ErrorCategory::Security);
    assert!(FailureReason::ScanTimeout.is_retryable());
    assert!(!FailureReason::ReproducibilityFailed.is_retryable());
    assert!(!FailureReason::CriticalVulnerability.is_retryable());
    assert!(!FailureReason::HsmAuthFailed.is_retryable());
}

#[test]
fn component_errors_render_their_text() {
    assert_eq!(BuildError::SourceNotFound("x".into()).to_string(), "Source not found: x");
    assert_eq!(
        BuildError::InvalidConfig("y".into()).to_string(),
        "Invalid build configuration: y"
    );
    assert_eq!(BuildError::BuildFailed("z".into()).to_string(), "Build failed: z");
    assert_eq!(BuildError::Timeout(1800).to_string(), "Build timed out after 1800 seconds");
    assert_eq!(
        BuildError::ReproducibilityFailed.to_string(),
        "Reproducibility check failed: builds do not match"
    );
    assert_eq!(BuildError::ContainerError("c".into()).to_string(), "Container error: c");
    assert_eq!(ScanError::ApkNotFound("a".into()).to_string(), "APK not found: a");
    assert_eq!(ScanError::InvalidApk("b".into()).to_string(), "Invalid APK: b");
    assert_eq!(ScanError::ToolFailed("c".into()).to_string(), "Scan tool failed: c");
    assert_eq!(ScanError::Timeout(0).to_string(), "Scan timed out after 0 seconds");
    assert_eq!(
        ScanError::CriticalVulnerability("d".into()).to_string(),
        "Critical vulnerability found: d"
    );
    assert_eq!(SigningError::HsmUnavailable("e".into()).to_string(), "HSM not available: e");
    assert_eq!(SigningError::HsmTimeout.to_string(), "HSM operation timed out");
    assert_eq!(SigningError::HsmAuthFailed.to_string(), "HSM authentication failed");
    assert_eq!(SigningError::KeyNotFound("k".into()).to_string(), "Key not found: k");
    assert_eq!(SigningError::InvalidKey("k".into()).to_string(), "Invalid key: k");
    assert_eq!(SigningError::SigningFailed("s".into()).to_string(), "Signing failed: s");
    assert_eq!(SigningError::VerificationFailed.to_string(), "Signature verification failed");
    assert_eq!(BuildError::Timeout(3).reason(), FailureReason::BuildTimeout);
    assert_eq!(ScanError::ToolFailed("c".into()).reason(), FailureReason::ToolFailed);
    assert_eq!(SigningError::InvalidKey("k".into()).reason(), FailureReason::InvalidKey);
}

#[test]
fn verifier_returns_the_agreed_hash() {
    let artifacts = vec![artifact(1, "abc"), artifact(2, "abc"), artifact(3, "abc")];
    assert_eq!(verify_reproducibility(&artifacts).unwrap(), "abc");
    assert_eq!(verify_reproducibility(&vec![artifact(1, "abc")]).unwrap(), "abc");
}

#[test]
fn verifier_fails_on_any_disagreement() {
    let artifacts = vec![artifact(1, "abc"), artifact(2, "abc"), artifact(3, "abd")];
    assert!(matches!(verify_reproducibility(&artifacts), Err(BuildError::ReproducibilityFailed)));
    let artifacts = vec![artifact(1, "abc"), artifact(2, "ABC")];
    assert!(matches!(verify_reproducibility(&artifacts), Err(BuildError::ReproducibilityFailed)));
    match check_reproducibility(&artifacts) {
        StageEvent::Fatal(reason) => assert_eq!(reason, FailureReason::ReproducibilityFailed),
        other => panic!("unexpected event {other:?}"),
    }
}

#[test]
fn verifier_never_compares_malformed_artifacts() {
    match verify_reproducibility(&Vec::new()) {
        Err(BuildError::BuildFailed(detail)) => assert_eq!(detail, "no build artifacts"),
        other => panic!("unexpected result {other:?}"),
    }
    let mut empty = artifact(11, "abc");
    empty.size = 0;
    match verify_reproducibility(&vec![artifact(10, "abc"), empty]) {
        Err(BuildError::BuildFailed(detail)) => {
            assert_eq!(detail, "empty or malformed artifact from attempt 11")
        },
        other => panic!("unexpected result {other:?}"),
    }
    let mut not_an_archive = artifact(12, "other");
    not_an_archive.header = vec![0x7f, 0x45, 0x4c, 0x46];
    let mut short = artifact(13, "abc");
    short.header = vec![0x50, 0x4b, 0x03];
    // the malformed artifact is reported, not the disagreement, and the first one
    match verify_reproducibility(&vec![artifact(10, "abc"), not_an_archive, short]) {
        Err(BuildError::BuildFailed(detail)) => {
            assert_eq!(detail, "empty or malformed artifact from attempt 12")
        },
        other => panic!("unexpected result {other:?}"),
    }
    let mut short = artifact(13, "abc");
    short.header = vec![0x50, 0x4b, 0x03];
    assert!(!short.check_sane());
    assert!(artifact(1, "abc").check_sane());
}

#[test]
fn build_service_needs_two_builds() {
    let retry = RetryPolicy { max_retries: 1, base_delay: 1, max_delay: 10 };
    match BuildService::with_settings(1, retry, 60) {
        Err(BuildError::InvalidConfig(detail)) => {
            assert_eq!(detail, "at least two independent builds are required")
        },
        other => panic!("unexpected result {other:?}"),
    }
    assert!(BuildService::with_settings(0, retry, 60).is_err());
    let service = BuildService::with_settings(3, retry, 60).unwrap();
    assert_eq!(service.attempts(), 3);
    assert_eq!(service.retry(), retry);
    assert_eq!(service.attempt_timeout(), 60);
    let default = BuildService::default();
    assert_eq!(default.attempts(), 2);
    assert_eq!(default.retry(), RetryPolicy { max_retries: 2, base_delay: 5, max_delay: 300 });
    assert_eq!(BuildService::new().attempt_timeout(), 1800);
}

#[test]
fn builds_start_in_distinct_environments_with_one_source() {
    let retry = RetryPolicy { max_retries: 1, base_delay: 1, max_delay: 10 };
    let service = BuildService::with_settings(3, retry, 600).unwrap();
    let (run, requests) = service.start_builds(9, "git://src#abc", "recipe.yml");
    assert_eq!(run.release_id, 9);
    assert_eq!(run.slots.len(), 3);
    assert_eq!(requests.len(), 3);
    for (i, request) in requests.iter().enumerate() {
        assert_eq!(request.release_id, 9);
        assert_eq!(request.environment, i);
        assert_eq!(request.source_ref, "git://src#abc");
        assert_eq!(request.recipe, "recipe.yml");
        assert_eq!(request.timeout, 600);
    }
    assert_eq!(run.pending(), vec![0, 1, 2]);
    assert!(matches!(run.collect(), BuildOutcome::Pending));
    assert!(matches!(build_event(Some(&run)), StageEvent::Pending));
}

#[test]
fn a_timed_out_attempt_is_resubmitted_alone_within_its_budget() {
    let service = BuildService::new();
    let (mut run, _) = service.start_builds(1, "src", "recipe");
    assert_eq!(service.record(&mut run, 0, Ok(artifact(1, "abc"))), BuildAction::Recorded);
    assert_eq!(
        service.record(&mut run, 1, Err(BuildError::Timeout(1800))),
        BuildAction::Resubmit { environment: 1, delay: 5 }
    );
    assert_eq!(run.pending(), vec![1]);
    assert!(matches!(run.slots[0].state, SlotState::Succeeded(_)));
    assert_eq!(run.slots[1].retries, 1);
    assert!(matches!(run.collect(), BuildOutcome::Pending));
    assert_eq!(
        service.record(&mut run, 1, Err(BuildError::ContainerError("oom".into()))),
        BuildAction::Resubmit { environment: 1, delay: 10 }
    );
    // the budget of two retries is used up
    assert_eq!(service.record(&mut run, 1, Err(service.timeout_error())), BuildAction::Recorded);
    assert!(matches!(run.slots[1].state, SlotState::Failed(FailureReason::BuildTimeout)));
    assert!(matches!(run.collect(), BuildOutcome::Failed(FailureReason::BuildTimeout)));
    match build_event(Some(&run)) {
        StageEvent::Fatal(reason) => assert_eq!(reason, FailureReason::BuildTimeout),
        other => panic!("unexpected event {other:?}"),
    }
    // what is recorded stays as it is
    assert_eq!(service.record(&mut run, 1, Ok(artifact(2, "abc"))), BuildAction::Ignored);
    assert_eq!(service.record(&mut run, 0, Err(BuildError::Timeout(1))), BuildAction::Ignored);
    assert_eq!(service.record(&mut run, 2, Ok(artifact(3, "abc"))), BuildAction::Ignored);
    assert!(matches!(&run.slots[0].state, SlotState::Succeeded(a) if a.attempt_id == 1));
    assert!(run.pending().is_empty());
}

#[test]
fn a_permanent_build_failure_is_not_retried() {
    let service = BuildService::new();
    let (mut run, _) = service.start_builds(1, "src", "recipe");
    assert_eq!(
        service.record(&mut run, 1, Err(BuildError::SourceNotFound("src".into()))),
        BuildAction::Recorded
    );
    assert_eq!(run.slots[1].retries, 0);
    assert!(matches!(run.collect(), BuildOutcome::Failed(FailureReason::SourceNotFound)));
    assert_eq!(classify(&Ok(artifact(1, "a"))), AttemptClass::Success);
    assert_eq!(classify(&Err(BuildError::Timeout(5))), AttemptClass::Retryable);
    assert_eq!(classify(&Err(BuildError::InvalidConfig("r".into()))), AttemptClass::Permanent);
    assert_eq!(classify(&Err(BuildError::ReproducibilityFailed)), AttemptClass::Permanent);
}

#[test]
fn all_successful_builds_hand_their_artifacts_over_in_order() {
    let service = BuildService::new();
    let (mut run, _) = service.start_builds(1, "src", "recipe");
    service.record(&mut run, 1, Ok(artifact(21, "h")));
    service.record(&mut run, 0, Ok(artifact(20, "h")));
    match run.collect() {
        BuildOutcome::Succeeded(artifacts) => {
            assert_eq!(artifacts.len(), 2);
            assert_eq!(artifacts[0].attempt_id, 20);
            assert_eq!(artifacts[1].attempt_id, 21);
            assert_eq!(artifacts[1].artifact_ref, "store://artifacts/21");
            assert_eq!(artifacts[1].header, vec![0x50, 0x4b, 0x03, 0x04]);
        },
        other => panic!("unexpected outcome {other:?}"),
    }
    assert!(matches!(build_event(Some(&run)), StageEvent::BuildsSucceeded));
}

#[test]
fn attempts_time_out_after_the_configured_time() {
    let service = BuildService::new();
    assert!(!service.timed_out(100, 100));
    assert!(!service.timed_out(100, 1899));
    assert!(service.timed_out(100, 1900));
    assert!(!service.timed_out(100, 50));
}

#[test]
fn report_verdict_is_the_worst_severity() {
    let report = ScanReport::new(1, 0, Severity::Passed, vec![]);
    assert_eq!(report.verdict, Severity::Passed);
    let report = ScanReport::new(
        1,
        0,
        Severity::Passed,
        vec![finding(Severity::Warning), finding(Severity::Passed)],
    );
    assert_eq!(report.verdict, Severity::Warning);
    assert_eq!(report.findings.len(), 2);
    let report = ScanReport::new(
        1,
        0,
        Severity::Failed,
        vec![finding(Severity::Warning), finding(Severity::Critical), finding(Severity::Failed)],
    );
    assert_eq!(report.verdict, Severity::Critical);
    let report = ScanReport::new(1, 2, Severity::Failed, vec![finding(Severity::Warning)]);
    assert_eq!(report.verdict, Severity::Failed);
    assert_eq!(report.backend, 2);
    assert_eq!(Severity::Warning.worse(Severity::Failed), Severity::Failed);
    assert_eq!(Severity::Critical.worse(Severity::Failed), Severity::Critical);
    assert_eq!(Severity::Passed.rank(), 0);
    assert_eq!(Severity::Critical.rank(), 3);
}

fn scan_with(backends: usize, allow_warnings: bool, verdicts: &[Severity]) -> ScanVerdict {
    let retry = RetryPolicy { max_retries: 1, base_delay: 1, max_delay: 10 };
    let service = ScannerService::with_settings(backends, retry, allow_warnings);
    let (mut run, requests) = service.submit(1, "abc", "store://a");
    assert_eq!(requests.len(), backends);
    for (backend, verdict) in verdicts.iter().enumerate() {
        let report = ScanReport::new(1, backend, *verdict, vec![]);
        assert_eq!(service.record(&mut run, backend, Ok(report)), ScanAction::Recorded);
    }
    service.collect(&run)
}

#[test]
fn scan_verdict_is_the_worst_of_all_backends() {
    let (critical, failed, passed, warning) =
        (Severity::Critical, Severity::Failed, Severity::Passed, Severity::Warning);
    assert_eq!(scan_with(2, true, &[passed, passed]), ScanVerdict::Passed);
    assert_eq!(scan_with(2, true, &[passed, warning]), ScanVerdict::Warning);
    assert_eq!(
        scan_with(3, true, &[warning, failed, passed]),
        ScanVerdict::Failed(FailureReason::ScanRejected)
    );
    assert_eq!(
        scan_with(3, true, &[failed, critical, warning]),
        ScanVerdict::Failed(FailureReason::CriticalVulnerability)
    );
    // a critical report decides even while another backend is still open
    assert_eq!(
        scan_with(2, true, &[critical]),
        ScanVerdict::Failed(FailureReason::CriticalVulnerability)
    );
    assert_eq!(scan_with(2, true, &[passed]), ScanVerdict::Pending);
    assert_eq!(scan_with(2, true, &[failed]), ScanVerdict::Pending);
}

#[test]
fn warnings_follow_the_policy() {
    let (passed, warning) = (Severity::Passed, Severity::Warning);
    assert_eq!(scan_with(2, true, &[warning, passed]), ScanVerdict::Warning);
    assert_eq!(
        scan_with(2, false, &[warning, passed]),
        ScanVerdict::Failed(FailureReason::ScanRejected)
    );
    assert!(ScannerService::new().allow_warnings());
    assert_eq!(ScannerService::default().backends(), 1);
}

#[test]
fn no_scan_result_is_never_a_pass() {
    assert_eq!(scan_with(0, true, &[]), ScanVerdict::Failed(FailureReason::ToolFailed));
    let service = ScannerService::new();
    let (mut run, _) = service.submit(1, "abc", "store://a");
    assert_eq!(run.hash, "abc");
    assert_eq!(service.collect(&run), ScanVerdict::Pending);
    let mut delays = Vec::new();
    loop {
        match service.record(&mut run, 0, Err(ScanError::Timeout(30))) {
            ScanAction::Resubmit { backend, delay } => {
                assert_eq!(backend, 0);
                delays.push(delay);
                assert_eq!(service.collect(&run), ScanVerdict::Pending);
            },
            ScanAction::Recorded => break,
            ScanAction::Ignored => panic!("the backend was pending"),
        }
    }
    assert_eq!(delays, vec![5, 10, 20]);
    assert_eq!(run.slots[0].state, BackendState::Failed(FailureReason::ToolFailed));
    assert_eq!(service.collect(&run), ScanVerdict::Failed(FailureReason::ToolFailed));
    let late = ScanReport::new(1, 0, Severity::Passed, vec![]);
    assert_eq!(service.record(&mut run, 0, Ok(late)), ScanAction::Ignored);
    assert_eq!(service.collect(&run), ScanVerdict::Failed(FailureReason::ToolFailed));
}

#[test]
fn a_permanent_scan_error_fails_the_backend_at_once() {
    let service = ScannerService::with_settings(
        2,
        RetryPolicy { max_retries: 3, base_delay: 1, max_delay: 10 },
        true,
    );
    let (mut run, _) = service.submit(1, "abc", "store://a");
    assert_eq!(
        service.record(&mut run, 1, Err(ScanError::InvalidApk("truncated".into()))),
        ScanAction::Recorded
    );
    assert_eq!(service.collect(&run), ScanVerdict::Failed(FailureReason::InvalidApk));
    assert_eq!(
        service.record(&mut run, 5, Err(ScanError::Timeout(1))),
        ScanAction::Ignored
    );
    // a critical report of the other backend outweighs the missing result
    let report = ScanReport::new(1, 0, Severity::Passed, vec![finding(Severity::Critical)]);
    service.record(&mut run, 0, Ok(report));
    assert_eq!(service.collect(&run), ScanVerdict::Failed(FailureReason::CriticalVulnerability));
}

#[test]
fn scan_status_and_severity_correspond() {
    assert_eq!(Severity::from_status(ScanStatus::Passed), Some(Severity::Passed));
    assert_eq!(Severity::from_status(ScanStatus::Warning), Some(Severity::Warning));
    assert_eq!(Severity::from_status(ScanStatus::Failed), Some(Severity::Failed));
    assert_eq!(Severity::from_status(ScanStatus::Pending), None);
    assert_eq!(Severity::from_status(ScanStatus::Scanning), None);
    assert_eq!(ScanVerdict::Pending.status(), ScanStatus::Scanning);
    assert_eq!(ScanVerdict::Passed.status(), ScanStatus::Passed);
    assert_eq!(ScanVerdict::Warning.status(), ScanStatus::Warning);
    assert_eq!(ScanVerdict::Failed(FailureReason::ToolFailed).status(), ScanStatus::Failed);
}

fn session(service: &SigningService) -> dk_appstore::signing::SigningSession {
    service.begin(1, "abc".to_string(), "key".to_string(), "idem".to_string(), "fp".to_string())
}

fn response(fingerprint: &str) -> SignResponse {
    SignResponse { signature: vec![4, 2], key_fingerprint: fingerprint.to_string() }
}

#[test]
fn a_signature_is_accepted_only_after_verification() {
    let service = SigningService::new();
    let mut s = session(&service);
    match service.on_event(&mut s, SignEvent::Response { response: response("fp"), verified: true }) {
        SignStep::Accepted(record) => {
            assert_eq!(record.release_id, 1);
            assert_eq!(record.hash, "abc");
            assert_eq!(record.key_id, "key");
            assert_eq!(record.idempotency_key, "idem");
            assert_eq!(record.signature, vec![4, 2]);
        },
        other => panic!("unexpected step {other:?}"),
    }
    let step =
        service.on_event(&mut s, SignEvent::Response { response: response("fp"), verified: false });
    assert!(matches!(step, SignStep::Failed(FailureReason::VerificationFailed)));
    let step = service
        .on_event(&mut s, SignEvent::Response { response: response("other"), verified: true });
    assert!(matches!(step, SignStep::Failed(FailureReason::VerificationFailed)));
    assert_eq!(s.transient_retries, 0);
    assert_eq!(s.auth_failures, 0);
}

#[test]
fn authentication_failures_fail_fast() {
    let service = SigningService::new();
    assert_eq!(service.auth_attempts(), 2);
    let mut s = session(&service);
    let step = service.on_event(&mut s, SignEvent::Error(SigningError::HsmAuthFailed));
    assert!(matches!(step, SignStep::Retry { delay: 0 }));
    assert_eq!(s.auth_failures, 1);
    let step = service.on_event(&mut s, SignEvent::Error(SigningError::HsmAuthFailed));
    assert!(matches!(step, SignStep::Failed(FailureReason::HsmAuthFailed)));
    assert_eq!(s.auth_failures, 2);
    assert_eq!(s.transient_retries, 0);
    let strict = SigningService::with_settings(service.retry(), 1);
    let mut s = session(&strict);
    let step = strict.on_event(&mut s, SignEvent::Error(SigningError::HsmAuthFailed));
    assert!(matches!(step, SignStep::Failed(FailureReason::HsmAuthFailed)));
}

#[test]
fn signing_errors_are_retried_only_if_transient() {
    let service = SigningService::new();
    let mut s = session(&service);
    let step = service.on_event(&mut s, SignEvent::Error(SigningError::HsmUnavailable("x".into())));
    assert!(matches!(step, SignStep::Retry { delay: 1 }));
    let step = service.on_event(&mut s, SignEvent::Error(SigningError::HsmTimeout));
    assert!(matches!(step, SignStep::Retry { delay: 2 }));
    assert_eq!(s.transient_retries, 2);
    let step = service.on_event(&mut s, SignEvent::Error(SigningError::KeyNotFound("key".into())));
    assert!(matches!(step, SignStep::Failed(FailureReason::KeyNotFound)));
    let step = service.on_event(&mut s, SignEvent::Error(SigningError::InvalidKey("key".into())));
    assert!(matches!(step, SignStep::Failed(FailureReason::InvalidKey)));
    let step = service.on_event(&mut s, SignEvent::Error(SigningError::SigningFailed("x".into())));
    assert!(matches!(step, SignStep::Failed(FailureReason::SigningFailed)));
    let step = service.on_event(&mut s, SignEvent::Error(SigningError::VerificationFailed));
    assert!(matches!(step, SignStep::Failed(FailureReason::VerificationFailed)));
    assert_eq!(s.transient_retries, 2);
    assert_eq!(s.hash, "abc");
}

fn record(release_id: u64, key: &str, signature: Vec<u8>) -> SigningRecord {
    SigningRecord {
        release_id,
        key_id: "key".to_string(),
        hash: "abc".to_string(),
        signature,
        idempotency_key: key.to_string(),
    }
}

#[test]
fn ledger_holds_one_record_per_release_and_key() {
    let mut ledger = SigningLedger::new();
    assert_eq!(ledger.len(), 0);
    assert!(ledger.get(0).is_none());
    assert_eq!(ledger.commit(record(1, "k1", vec![1])).unwrap().signature, vec![1]);
    assert_eq!(ledger.commit(record(2, "k2", vec![2])).unwrap().signature, vec![2]);
    // a replay under a known key returns the original, whatever it carries
    let replay = ledger.commit(record(9, "k1", vec![7, 7])).unwrap();
    assert_eq!(replay.release_id, 1);
    assert_eq!(replay.signature, vec![1]);
    assert_eq!(ledger.len(), 2);
    // a second record for a signed release is refused
    match ledger.commit(record(2, "k3", vec![3])) {
        Err(SigningError::SigningFailed(detail)) => {
            assert_eq!(detail, "release is already signed under another idempotency key")
        },
        other => panic!("unexpected result {other:?}"),
    }
    assert_eq!(ledger.len(), 2);
    assert_eq!(ledger.get(1).unwrap().idempotency_key, "k2");
    assert!(ledger.get(2).is_none());
    assert!(ledger.lookup("k3").is_none());
    assert_eq!(ledger.lookup("k2").unwrap().release_id, 2);
}

#[test]
fn an_open_attempt_times_out_when_polled_too_late() {
    let service = BuildService::new();
    assert!(service.polled(None, 100, 1899).is_none());
    assert!(matches!(service.polled(None, 100, 1900), Some(Err(BuildError::Timeout(1800)))));
    assert!(matches!(
        service.polled(Some(Ok(artifact(1, "h"))), 100, 5000),
        Some(Ok(a)) if a.attempt_id == 1
    ));
    assert!(matches!(
        service.polled(Some(Err(BuildError::SourceNotFound("s".into()))), 100, 101),
        Some(Err(BuildError::SourceNotFound(_)))
    ));
}

#[test]
fn stage_failures_are_retryable_only_if_transient() {
    assert!(matches!(
        failure_event(FailureReason::ContainerError),
        StageEvent::Retryable(FailureReason::ContainerError)
    ));
    assert!(matches!(
        failure_event(FailureReason::HsmUnavailable),
        StageEvent::Retryable(FailureReason::HsmUnavailable)
    ));
    assert!(matches!(
        failure_event(FailureReason::InvalidConfig),
        StageEvent::Fatal(FailureReason::InvalidConfig)
    ));
    assert!(matches!(
        failure_event(FailureReason::HashMismatch),
        StageEvent::Fatal(FailureReason::HashMismatch)
    ));
}

#[test]
fn idempotency_keys_are_derived_from_release_and_hash() {
    assert_eq!(idempotency_key(17, "abc"), "sign-17-abc");
    assert_eq!(idempotency_key(0, ""), "sign-0-");
    assert_eq!(idempotency_key(17, "abc"), idempotency_key(17, "abc"));
    assert_ne!(idempotency_key(17, "abc"), idempotency_key(17, "abd"));
    assert_ne!(idempotency_key(17, "abc"), idempotency_key(18, "abc"));
}

#[test]
fn events_follow_the_state_of_their_runs() {
    let service = BuildService::new();
    let (mut run, _) = service.start_builds(1, "src", "recipe");
    assert!(matches!(reproducibility_event(Some(&run)), StageEvent::Pending));
    service.record(&mut run, 0, Ok(artifact(1, "h1")));
    assert!(matches!(reproducibility_event(Some(&run)), StageEvent::Pending));
    service.record(&mut run, 1, Ok(artifact(2, "h1")));
    assert!(matches!(reproducibility_event(Some(&run)), StageEvent::Reproducible(h) if h == "h1"));
    let (mut run, _) = service.start_builds(1, "src", "recipe");
    service.record(&mut run, 0, Ok(artifact(1, "h1")));
    service.record(&mut run, 1, Ok(artifact(2, "h2")));
    assert!(matches!(
        reproducibility_event(Some(&run)),
        StageEvent::Fatal(FailureReason::ReproducibilityFailed)
    ));
    let (mut run, _) = service.start_builds(1, "src", "recipe");
    service.record(&mut run, 1, Err(BuildError::InvalidConfig("recipe".into())));
    assert!(matches!(
        reproducibility_event(Some(&run)),
        StageEvent::Fatal(FailureReason::InvalidConfig)
    ));

    let scanner = ScannerService::new();
    let (mut scan, _) = scanner.submit(1, "h1", "store://a");
    assert!(matches!(
        scan_event(&scanner, &scan),
        StageEvent::Scanned { hash, verdict: ScanVerdict::Pending } if hash == "h1"
    ));
    scanner.record(&mut scan, 0, Ok(ScanReport::new(1, 0, Severity::Warning, vec![])));
    assert!(matches!(
        scan_event(&scanner, &scan),
        StageEvent::Scanned { hash, verdict: ScanVerdict::Warning } if hash == "h1"
    ));
}

#[test]
fn a_critical_finding_never_passes_whatever_the_verdict_says() {
    let service = ScannerService::new();
    let (mut run, _) = service.submit(1, "abc", "store://a");
    // a report that calls itself passed, with a critical finding in it
    let report = ScanReport {
        release_id: 1,
        backend: 0,
        findings: vec![finding(Severity::Warning), finding(Severity::Critical)],
        verdict: Severity::Passed,
    };
    assert_eq!(report.severity(), Severity::Critical);
    assert_eq!(service.record(&mut run, 0, Ok(report)), ScanAction::Recorded);
    assert_eq!(run.slots[0].state, BackendState::Reported(Severity::Critical));
    assert_eq!(service.collect(&run), ScanVerdict::Failed(FailureReason::CriticalVulnerability));
    assert!(matches!(
        scan_event(&service, &run),
        StageEvent::Scanned {
            verdict: ScanVerdict::Failed(FailureReason::CriticalVulnerability),
            ..
        }
    ));
    // a failed finding under a passed verdict rejects the artifact
    let (mut run, _) = service.submit(1, "abc", "store://a");
    let report = ScanReport {
        release_id: 1,
        backend: 0,
        findings: vec![finding(Severity::Failed)],
        verdict: Severity::Passed,
    };
    service.record(&mut run, 0, Ok(report));
    assert_eq!(service.collect(&run), ScanVerdict::Failed(FailureReason::ScanRejected));
    // and a verdict worse than every finding stands
    let (mut run, _) = service.submit(1, "abc", "store://a");
    let report = ScanReport {
        release_id: 1,
        backend: 0,
        findings: vec![finding(Severity::Passed)],
        verdict: Severity::Warning,
    };
    service.record(&mut run, 0, Ok(report));
    assert_eq!(service.collect(&run), ScanVerdict::Warning);
    assert_eq!(worst_of(&vec![], Severity::Failed), Severity::Failed);
    assert_eq!(
        worst_of(&vec![finding(Severity::Warning), finding(Severity::Passed)], Severity::Passed),
        Severity::Warning
    );
}

fn store_with(id: u64, source: &str) -> ReleaseStore {
    let mut store = ReleaseStore::new();
    store.submit(id, AppId::new("dk.app"), 1, "v1".into(), source.into()).unwrap();
    store
}

fn advance_with(store: &mut ReleaseStore, id: u64, event: StageEvent) {
    let policy = RetryPolicy { max_retries: 1, base_delay: 1, max_delay: 10 };
    let (_, version) = store.advance(id, 1, 10, 30).unwrap();
    store.complete(id, 1, 11, version, event, &policy).unwrap();
}

fn verified_store(id: u64, hash: &str) -> ReleaseStore {
    let mut store = store_with(id, "git://src");
    advance_with(&mut store, id, StageEvent::BuildsStarted);
    advance_with(&mut store, id, StageEvent::BuildsSucceeded);
    advance_with(&mut store, id, StageEvent::Reproducible(hash.to_string()));
    store
}

#[test]
fn builds_start_from_the_stored_source() {
    let store = store_with(4, "git://src#tag");
    let builds = BuildService::new();
    let (run, requests) = start_builds(&store, &builds, 4, "recipe").unwrap();
    assert_eq!(run.release_id, 4);
    assert_eq!(run.slots.len(), 2);
    assert_eq!(requests.len(), 2);
    assert_eq!(requests[1].source_ref, "git://src#tag");
    assert_eq!(requests[1].recipe, "recipe");
    assert_eq!(requests[1].environment, 1);
    assert!(matches!(
        start_builds(&store, &builds, 5, "recipe"),
        Err(StageEvent::Fatal(FailureReason::SourceNotFound))
    ));
    assert!(matches!(build_event(None), StageEvent::Fatal(FailureReason::BuildFailed)));
    assert!(matches!(
        reproducibility_event(None),
        StageEvent::Fatal(FailureReason::BuildFailed)
    ));
}

#[test]
fn the_scanned_artifact_carries_the_verified_hash() {
    let builds = BuildService::with_settings(
        3,
        RetryPolicy { max_retries: 0, base_delay: 1, max_delay: 1 },
        60,
    )
    .unwrap();
    let (mut run, _) = builds.start_builds(4, "src", "recipe");
    builds.record(&mut run, 0, Ok(artifact(10, "other")));
    builds.record(&mut run, 2, Ok(artifact(12, "h")));
    builds.record(&mut run, 1, Ok(artifact(11, "h")));
    let store = verified_store(4, "h");
    let target = scan_target(&store, Some(&run), 4).unwrap();
    assert_eq!(target.hash, "h");
    assert_eq!(target.artifact_ref, "store://artifacts/11");
    // nothing to scan yet
    assert!(matches!(scan_target(&store, Some(&run), 5), Err(StageEvent::Pending)));
    let unverified = store_with(4, "src");
    assert!(matches!(scan_target(&unverified, Some(&run), 4), Err(StageEvent::Pending)));
    // no artifact with the verified hash
    assert!(matches!(
        scan_target(&store, None, 4),
        Err(StageEvent::Fatal(FailureReason::ApkNotFound))
    ));
    let (mut empty, _) = builds.start_builds(4, "src", "recipe");
    builds.record(&mut empty, 0, Ok(artifact(10, "other")));
    assert!(matches!(
        scan_target(&store, Some(&empty), 4),
        Err(StageEvent::Fatal(FailureReason::ApkNotFound))
    ));
}

#[test]
fn signing_begins_once_and_replays_afterwards() {
    let signer = SigningService::new();
    let mut ledger = SigningLedger::new();
    let store = verified_store(4, "h");
    assert!(matches!(
        sign_start(&store, &ledger, &signer, 9, "key", "fp"),
        SignStart::Done(StageEvent::Pending)
    ));
    assert!(matches!(
        sign_start(&store_with(4, "src"), &ledger, &signer, 4, "key", "fp"),
        SignStart::Done(StageEvent::Pending)
    ));
    let mut session = match sign_start(&store, &ledger, &signer, 4, "key", "fp") {
        SignStart::Call(session) => session,
        other => panic!("unexpected start {other:?}"),
    };
    assert_eq!(session.release_id, 4);
    assert_eq!(session.hash, "h");
    assert_eq!(session.key_id, "key");
    assert_eq!(session.idempotency_key, "sign-4-h");
    assert_eq!(session.expected_fingerprint, "fp");
    assert_eq!((session.transient_retries, session.auth_failures), (0, 0));

    let retry = signer.on_event(&mut session, SignEvent::Error(SigningError::HsmTimeout));
    assert!(commit_event(&mut ledger, retry).is_none());
    assert_eq!(ledger.len(), 0);
    let signed =
        signer.on_event(&mut session, SignEvent::Response { response: response("fp"), verified: true });
    match commit_event(&mut ledger, signed) {
        Some(StageEvent::Signed(stored)) => assert_eq!(stored.signature, vec![4, 2]),
        other => panic!("unexpected event {other:?}"),
    }
    assert_eq!(ledger.len(), 1);
    // the next start finds the record: nothing is signed again
    match sign_start(&store, &ledger, &signer, 4, "key", "fp") {
        SignStart::Done(StageEvent::Signed(stored)) => {
            assert_eq!(stored.idempotency_key, "sign-4-h");
            assert_eq!(stored.signature, vec![4, 2]);
        },
        other => panic!("unexpected start {other:?}"),
    }
    // a failure is reported, a refused record fails the stage; the ledger stays
    assert!(matches!(
        commit_event(&mut ledger, SignStep::Failed(FailureReason::HsmAuthFailed)),
        Some(StageEvent::Fatal(FailureReason::HsmAuthFailed))
    ));
    assert!(matches!(
        commit_event(&mut ledger, SignStep::Accepted(record(4, "another-key", vec![1]))),
        Some(StageEvent::Fatal(FailureReason::SigningFailed))
    ));
    match commit_event(&mut ledger, SignStep::Accepted(record(4, "sign-4-h", vec![9]))) {
        Some(StageEvent::Signed(stored)) => assert_eq!(stored.signature, vec![4, 2]),
        other => panic!("unexpected event {other:?}"),
    }
    assert_eq!(ledger.len(), 1);
}
