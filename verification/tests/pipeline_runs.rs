use dk_appstore::builds::{BuildAction, BuildRun, BuildService};
use dk_appstore::failure::FailureReason;
use dk_appstore::index::IndexResponse;
use dk_appstore::pipeline::{
    build_event, commit_event, reproducibility_event, scan_event, scan_target, sign_start,
    start_builds, SignStart,
};
use dk_appstore::release::{Action, AdvanceError, Outcome, Stage, StageEvent};
use dk_appstore::repro::BuildArtifact;
use dk_appstore::retry::RetryPolicy;
use dk_appstore::scanner::{Finding, ScanReport, ScanVerdict, ScannerService, Severity};
use dk_appstore::signing::{
    SignEvent, SignResponse, SignStep, SigningError, SigningLedger, SigningService,
};
use dk_appstore::store::{ReleaseStore, StoreError};
use dk_appstore::types::AppId;

const WORKER: u64 = 7;
const TTL: u64 = 60;
const H: &str = "9f86d081884c7d659a2feaa0c55ad015a3bf4f1b2b0b822cd15d6c15b0f00a08";
const H2: &str = "60303ae22b998861bce3b28f33eec1be758a213c86c93c076dbe9f558c11c752";

fn policy() -> RetryPolicy {
    RetryPolicy { max_retries: 3, base_delay: 2, max_delay: 60 }
}

fn artifact(attempt_id: u64, hash: &str) -> BuildArtifact {
    BuildArtifact {
        attempt_id,
        artifact_ref: format!("store://artifacts/{attempt_id}"),
        hash: hash.to_string(),
        size: 4096,
        header: vec![0x50, 0x4b, 0x03, 0x04, 0x14, 0x00],
    }
}

fn new_store() -> ReleaseStore {
    let mut store = ReleaseStore::new();
    let submitted = store.submit(
        1,
        AppId::new("dk.digst.mitid"),
        42,
        "1.2.3".to_string(),
        "git://source/mitid#v1.2.3".to_string(),
    );
    assert_eq!(submitted, Ok(()));
    store
}

fn step(store: &mut ReleaseStore, now: u64, expect: Action, event: StageEvent) -> Outcome {
    let (action, version) = store.advance(1, WORKER, now, TTL).expect("lease");
    assert_eq!(action, expect);
    store.complete(1, WORKER, now + 1, version, event, &policy()).expect("complete")
}

/// Runs both builds with the given hashes and hands the build stage's result
/// to the release. Returns the run.
fn build(store: &mut ReleaseStore, first: &str, second: &str) -> BuildRun {
    let builds = BuildService::new();
    let (mut run, requests) = start_builds(store, &builds, 1, "release").expect("stored");
    assert_eq!(requests.len(), 2);
    assert_eq!(requests[0].source_ref, "git://source/mitid#v1.2.3");
    assert_eq!(
        step(store, 100, Action::StartBuilds, StageEvent::BuildsStarted),
        Outcome::Advanced(Stage::Building)
    );
    assert_eq!(builds.record(&mut run, 0, Ok(artifact(10, first))), BuildAction::Recorded);
    assert_eq!(builds.record(&mut run, 1, Ok(artifact(11, second))), BuildAction::Recorded);
    assert_eq!(
        step(store, 110, Action::CollectBuilds, build_event(Some(&run))),
        Outcome::Advanced(Stage::ReproducibilityCheck)
    );
    run
}

fn verify(store: &mut ReleaseStore, run: &BuildRun) -> Outcome {
    step(store, 120, Action::VerifyReproducibility, reproducibility_event(Some(run)))
}

fn scan(store: &mut ReleaseStore, built: &BuildRun, findings: Vec<Finding>) -> Outcome {
    let scanner = ScannerService::new();
    let target = scan_target(store, Some(built), 1).expect("verified artifact");
    assert_eq!(target.hash, H);
    assert_eq!(target.artifact_ref, "store://artifacts/10");
    let (mut run, requests) = scanner.submit(1, &target.hash, &target.artifact_ref);
    assert_eq!(requests.len(), 1);
    assert_eq!(requests[0].hash, H);
    let report = ScanReport::new(1, 0, Severity::Passed, findings);
    scanner.record(&mut run, 0, Ok(report));
    step(store, 130, Action::Scan, scan_event(&scanner, &run))
}

fn index_of(store: &mut ReleaseStore) -> IndexResponse {
    store.regenerate_index(1_700_000_000)
}

#[test]
fn equal_builds_with_a_warning_are_signed_and_published() {
    let mut store = new_store();
    let run = build(&mut store, H, H);
    assert_eq!(verify(&mut store, &run), Outcome::Advanced(Stage::Scanning));
    let warning =
        Finding { severity: Severity::Warning, description: "debuggable flag set".to_string() };
    assert_eq!(scan(&mut store, &run, vec![warning]), Outcome::Advanced(Stage::AwaitingSignature));
    assert_eq!(store.get_release(1).unwrap().scan_verdict(), Some(ScanVerdict::Warning));

    let signer = SigningService::new();
    let mut ledger = SigningLedger::new();
    let (action, version) = store.advance(1, WORKER, 140, TTL).unwrap();
    assert_eq!(action, Action::Sign);
    let mut session = match sign_start(&store, &ledger, &signer, 1, "release-key", "ab:cd:ef") {
        SignStart::Call(session) => session,
        other => panic!("nothing is signed yet: {other:?}"),
    };
    let request = session.request();
    assert_eq!(request.hash, H);
    assert_eq!(request.key_id, "release-key");
    assert_eq!(request.idempotency_key, format!("sign-1-{H}"));
    let response =
        SignResponse { signature: vec![0xde, 0xad, 0xbe, 0xef], key_fingerprint: "ab:cd:ef".to_string() };
    let signed = signer.on_event(&mut session, SignEvent::Response { response, verified: true });
    assert!(matches!(signed, SignStep::Accepted(_)));
    let event = commit_event(&mut ledger, signed).expect("event");
    assert_eq!(ledger.len(), 1);
    assert_eq!(
        store.complete(1, WORKER, 141, version, event, &policy()),
        Ok(Outcome::Advanced(Stage::Signed))
    );
    assert_eq!(step(&mut store, 150, Action::Publish, StageEvent::Publish), Outcome::Published);

    let release = store.get_release(1).unwrap();
    assert_eq!(release.stage(), Stage::Published);
    assert_eq!(release.failure(), None);
    assert_eq!(release.lease(), None);
    assert_eq!(release.build_hash().as_deref(), Some(H));
    assert_eq!(release.scan_hash().as_deref(), Some(H));
    assert_eq!(release.signing_record().unwrap().hash, H);
    assert_eq!(release.history_len(), 6);

    let index = index_of(&mut store);
    assert_eq!(index.entries.len(), 1);
    assert_eq!(index.entries[0].release_id, 1);
    assert_eq!(index.entries[0].package_id, "dk.digst.mitid");
    assert_eq!(index.entries[0].version_code, 42);
    assert_eq!(index.entries[0].version_name, "1.2.3");
    assert_eq!(index.entries[0].hash, H);
    assert_eq!(index.entries[0].key_id, "release-key");
    assert_eq!(index.entries[0].signature, vec![0xde, 0xad, 0xbe, 0xef]);
}

#[test]
fn differing_builds_fail_reproducibility_and_are_never_listed() {
    let mut store = new_store();
    let run = build(&mut store, H, H2);
    assert_eq!(verify(&mut store, &run), Outcome::Failed(FailureReason::ReproducibilityFailed));
    let release = store.get_release(1).unwrap();
    assert_eq!(release.stage(), Stage::Failed);
    assert_eq!(release.failure(), Some(FailureReason::ReproducibilityFailed));
    assert_eq!(release.build_hash(), None);
    assert_eq!(release.lease(), None);
    // never published, whatever arrives afterwards
    assert_eq!(
        store.advance(1, WORKER, 200, TTL),
        Err(StoreError::Refused(AdvanceError::Terminal))
    );
    assert_eq!(
        store.complete(1, WORKER, 201, 0, StageEvent::Publish, &policy()),
        Ok(Outcome::Ignored)
    );
    assert_eq!(store.get_release(1).unwrap().stage(), Stage::Failed);
    assert!(index_of(&mut store).entries.is_empty());
}

#[test]
fn a_critical_finding_halts_the_release_before_signing() {
    let mut store = new_store();
    let run = build(&mut store, H, H);
    assert_eq!(verify(&mut store, &run), Outcome::Advanced(Stage::Scanning));
    let critical =
        Finding { severity: Severity::Critical, description: "embedded private key".to_string() };
    let note = Finding { severity: Severity::Warning, description: "old target sdk".to_string() };
    assert_eq!(
        scan(&mut store, &run, vec![note, critical]),
        Outcome::Failed(FailureReason::CriticalVulnerability)
    );
    let release = store.get_release(1).unwrap();
    assert_eq!(release.stage(), Stage::Failed);
    assert_eq!(release.failure(), Some(FailureReason::CriticalVulnerability));
    assert!(release.signing_record().is_none());
    assert_eq!(release.scan_hash(), None);
    // a signature that arrives late creates no record
    let late = StageEvent::Signed(dk_appstore::signing::SigningRecord {
        release_id: 1,
        key_id: "release-key".to_string(),
        hash: H.to_string(),
        signature: vec![1],
        idempotency_key: "sign-1-42".to_string(),
    });
    assert_eq!(store.complete(1, WORKER, 300, 0, late, &policy()), Ok(Outcome::Ignored));
    assert!(store.get_release(1).unwrap().signing_record().is_none());
    assert!(index_of(&mut store).entries.is_empty());
}

#[test]
fn signing_that_always_times_out_fails_the_release() {
    let mut store = new_store();
    let run = build(&mut store, H, H);
    assert_eq!(verify(&mut store, &run), Outcome::Advanced(Stage::Scanning));
    assert_eq!(scan(&mut store, &run, vec![]), Outcome::Advanced(Stage::AwaitingSignature));

    let signer =
        SigningService::with_settings(RetryPolicy { max_retries: 3, base_delay: 1, max_delay: 30 }, 2);
    let mut ledger = SigningLedger::new();
    let (action, version) = store.advance(1, WORKER, 140, TTL).unwrap();
    assert_eq!(action, Action::Sign);
    let mut session = match sign_start(&store, &ledger, &signer, 1, "release-key", "ab:cd:ef") {
        SignStart::Call(session) => session,
        other => panic!("nothing is signed yet: {other:?}"),
    };
    let mut delays = Vec::new();
    let mut calls = 0;
    let failure = loop {
        calls += 1;
        assert!(calls <= 10, "the coordinator must not retry for ever");
        match signer.on_event(&mut session, SignEvent::Error(SigningError::HsmTimeout)) {
            SignStep::Retry { delay } => delays.push(delay),
            SignStep::Failed(reason) => break reason,
            SignStep::Accepted(_) => panic!("nothing was signed"),
        }
    };
    // the first call and three retries
    assert_eq!(calls, 4);
    assert_eq!(delays, vec![1, 2, 4]);
    assert_eq!(failure, FailureReason::HsmTimeout);
    let event = commit_event(&mut ledger, SignStep::Failed(failure)).unwrap();
    assert_eq!(ledger.len(), 0);
    assert_eq!(
        store.complete(1, WORKER, 141, version, event, &policy()),
        Ok(Outcome::Failed(FailureReason::HsmTimeout))
    );
    let release = store.get_release(1).unwrap();
    assert_eq!(release.stage(), Stage::Failed);
    assert_eq!(release.failure(), Some(FailureReason::HsmTimeout));
    assert_eq!(release.lease(), None);
    let last = release.transition(release.history_len() - 1).unwrap();
    assert_eq!(last.from, Stage::AwaitingSignature);
    assert_eq!(last.to, Stage::Failed);
    assert_eq!(last.reason, Some(FailureReason::HsmTimeout));
    assert!(release.signing_record().is_none());
}

#[test]
fn two_workers_race_for_one_release() {
    let mut store = new_store();
    let (action, version) = store.advance(1, 1, 100, TTL).unwrap();
    assert_eq!(action, Action::StartBuilds);
    let held = store.get_release(1).unwrap().version();
    // the second worker is told that the lease is held, and changes nothing
    assert_eq!(store.advance(1, 2, 110, TTL), Err(StoreError::Refused(AdvanceError::LeaseHeld)));
    assert_eq!(
        store.complete(1, 2, 111, version, StageEvent::BuildsStarted, &policy()),
        Err(StoreError::Refused(AdvanceError::LeaseLost))
    );
    let release = store.get_release(1).unwrap();
    assert_eq!(release.version(), held);
    assert_eq!(release.stage(), Stage::Submitted);
    assert_eq!(release.lease().unwrap().holder, 1);
    assert_eq!(release.lease().unwrap().expires_at, 160);
    // the first worker proceeds
    assert_eq!(
        store.complete(1, 1, 112, version, StageEvent::BuildsStarted, &policy()),
        Ok(Outcome::Advanced(Stage::Building))
    );
}

#[test]
fn expired_lease_is_reclaimed_and_stale_write_is_refused() {
    let mut store = new_store();
    let (_, stale) = store.advance(1, 1, 100, TTL).unwrap();
    // worker 1 crashes; its lease holds up to 160 and has run out after
    assert_eq!(store.advance(1, 2, 160, TTL), Err(StoreError::Refused(AdvanceError::LeaseHeld)));
    let (action, version) = store.advance(1, 2, 161, TTL).unwrap();
    assert_eq!(action, Action::StartBuilds);
    assert_eq!(store.get_release(1).unwrap().lease().unwrap().holder, 2);
    // the crashed worker wakes up and writes with what it knew
    assert_eq!(
        store.complete(1, 1, 162, stale, StageEvent::BuildsStarted, &policy()),
        Err(StoreError::Refused(AdvanceError::VersionConflict))
    );
    assert_eq!(store.get_release(1).unwrap().stage(), Stage::Submitted);
    assert_eq!(
        store.complete(1, 2, 163, version, StageEvent::BuildsStarted, &policy()),
        Ok(Outcome::Advanced(Stage::Building))
    );
    // a second completion of the same stage by the rescuer is refused too
    assert_eq!(
        store.complete(1, 2, 164, version, StageEvent::BuildsStarted, &policy()),
        Err(StoreError::Refused(AdvanceError::VersionConflict))
    );
    let release = store.get_release(1).unwrap();
    assert_eq!(release.stage(), Stage::Building);
    assert_eq!(release.history_len(), 1);
}

#[test]
fn repeated_sign_returns_the_first_signature() {
    let signer = SigningService::new();
    let mut ledger = SigningLedger::new();
    let mut signatures = Vec::new();
    for signature in [vec![1u8, 2, 3], vec![9u8, 9, 9]] {
        let mut session = signer.begin(
            5,
            H.to_string(),
            "release-key".to_string(),
            "sign-5-1".to_string(),
            "ab:cd:ef".to_string(),
        );
        let response = SignResponse { signature, key_fingerprint: "ab:cd:ef".to_string() };
        match signer.on_event(&mut session, SignEvent::Response { response, verified: true }) {
            SignStep::Accepted(record) => {
                signatures.push(ledger.commit(record).expect("commit").signature)
            },
            other => panic!("not accepted: {other:?}"),
        }
    }
    assert_eq!(signatures, vec![vec![1u8, 2, 3], vec![1u8, 2, 3]]);
    assert_eq!(ledger.len(), 1);
    assert_eq!(ledger.lookup("sign-5-1").unwrap().signature, vec![1u8, 2, 3]);
    assert!(ledger.lookup("sign-5-2").is_none());
}
