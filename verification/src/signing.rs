//! Signing coordinator: obtains a detached signature for the verified
//! artifact from the signing capability, and accepts it only after it has
//! been verified. Key material never enters the pipeline.

use crate::failure::FailureReason;
use crate::retry::{RetryDecision, RetryPolicy};
pub use crate::signing_error::SigningError;
use crate::text::{decimal_string, decimal_text};
use vstd::prelude::*;
use vstd::string::*;

verus! {

/// Result type for signing operations.
pub type SigningResult<T> = Result<T, SigningError>;

/// The accepted signature of one release.
#[derive(Debug)]
pub struct SigningRecord {
    /// The release that was signed.
    pub release_id: u64,
    /// The key that signed it.
    pub key_id: String,
    /// The artifact hash that was signed.
    pub hash: String,
    /// The detached signature.
    pub signature: Vec<u8>,
    /// The idempotency key of the signing request.
    pub idempotency_key: String,
}

/// The plain content of a signing record.
pub struct SigningRecordView {
    pub release_id: u64,
    pub key_id: Seq<char>,
    pub hash: Seq<char>,
    pub signature: Seq<u8>,
    pub idempotency_key: Seq<char>,
}

impl View for SigningRecord {
    type V = SigningRecordView;

    open spec fn view(&self) -> SigningRecordView {
        SigningRecordView {
            release_id: self.release_id,
            key_id: self.key_id@,
            hash: self.hash@,
            signature: self.signature@,
            idempotency_key: self.idempotency_key@,
        }
    }
}

impl SigningRecord {
    /// Copies the record.
    pub fn duplicate(&self) -> (copy: SigningRecord)
        ensures
            copy@ == self@,
    {
        let signature = self.signature.clone();
        assert(signature@ =~= self.signature@);
        SigningRecord {
            release_id: self.release_id,
            key_id: self.key_id.clone(),
            hash: self.hash.clone(),
            signature,
            idempotency_key: self.idempotency_key.clone(),
        }
    }
}

/// What is sent to the signing capability.
#[derive(Debug)]
pub struct SignRequest {
    pub hash: String,
    pub key_id: String,
    pub idempotency_key: String,
}

/// What the signing capability answers.
#[derive(Debug)]
pub struct SignResponse {
    pub signature: Vec<u8>,
    /// Fingerprint of the key that made the signature.
    pub key_fingerprint: String,
}

/// What came back from one call of the signing capability.
#[derive(Debug)]
pub enum SignEvent {
    /// The capability answered. `verified` says whether the signature was
    /// found valid for the expected public key and the session's hash.
    Response { response: SignResponse, verified: bool },
    /// The call failed.
    Error(SigningError),
}

/// The decision taken on an event.
#[derive(Debug, Clone, Copy, PartialEq, Eq, Structural)]
pub enum SignDecision {
    /// The signature is accepted.
    Accept,
    /// The request is sent again after the delay.
    RetryAfter(u64),
    /// Signing has failed for good.
    Fail(FailureReason),
}

/// What the caller does after an event was handled.
#[derive(Debug)]
pub enum SignStep {
    /// The signature was accepted: the record to store.
    Accepted(SigningRecord),
    /// Send the same request again after the delay.
    Retry { delay: u64 },
    /// Signing has failed for good.
    Failed(FailureReason),
}

impl SignStep {
    /// The decision that the step carries out.
    pub open spec fn decision(&self) -> SignDecision {
        match self {
            SignStep::Accepted(_) => SignDecision::Accept,
            SignStep::Retry { delay } => SignDecision::RetryAfter(*delay),
            SignStep::Failed(reason) => SignDecision::Fail(*reason),
        }
    }
}

/// One signing operation in progress.
#[derive(Debug)]
pub struct SigningSession {
    /// The release to sign.
    pub release_id: u64,
    /// The artifact hash to sign.
    pub hash: String,
    /// The key to sign with.
    pub key_id: String,
    /// The idempotency key of the operation.
    pub idempotency_key: String,
    /// Fingerprint of the public key that the signature must verify against.
    pub expected_fingerprint: String,
    /// Transient failures retried so far.
    pub transient_retries: u32,
    /// Authentication failures seen so far.
    pub auth_failures: u32,
}

impl SigningSession {
    /// The record that this session yields for a given signature.
    pub open spec fn record_for(&self, signature: Seq<u8>) -> SigningRecordView {
        SigningRecordView {
            release_id: self.release_id,
            key_id: self.key_id@,
            hash: self.hash@,
            signature,
            idempotency_key: self.idempotency_key@,
        }
    }

    /// The request of this session: the same hash, key and idempotency key on
    /// every call, so that a repeated call is a replay.
    pub fn request(&self) -> (req: SignRequest)
        ensures
            req.hash@ == self.hash@,
            req.key_id@ == self.key_id@,
            req.idempotency_key@ == self.idempotency_key@,
    {
        SignRequest {
            hash: self.hash.clone(),
            key_id: self.key_id.clone(),
            idempotency_key: self.idempotency_key.clone(),
        }
    }
}

/// The idempotency key of the signing operation for a release and a hash:
/// the same release and hash always give the same key.
pub open spec fn idempotency_key_text(release_id: u64, hash: Seq<char>) -> Seq<char> {
    "sign-"@ + decimal_text(release_id as nat) + "-"@ + hash
}

/// Derives the idempotency key under which a release's hash is signed.
pub fn idempotency_key(release_id: u64, hash: &str) -> (key: String)
    ensures
        key@ == idempotency_key_text(release_id, hash@),
{
    let digits = decimal_string(release_id);
    String::from_str("sign-").concat(digits.as_str()).concat("-").concat(hash)
}

/// Coordinates signing requests: bounded retries, fail-fast on
/// authentication failures, and verification before acceptance.
#[derive(Debug, Clone, Copy)]
pub struct SigningService {
    retry: RetryPolicy,
    auth_attempts: u32,
}

impl SigningService {
    /// Retry budget for transient failures.
    pub closed spec fn spec_retry(&self) -> RetryPolicy {
        self.retry
    }

    /// Number of authentication failures after which signing fails.
    pub closed spec fn spec_auth_attempts(&self) -> u32 {
        self.auth_attempts
    }

    /// Create a signing service with the default settings: three retries on
    /// transient failures, and failure on the second authentication failure.
    #[must_use]
    pub fn new() -> (service: Self)
        ensures
            service.spec_retry() == (RetryPolicy { max_retries: 3, base_delay: 1, max_delay: 30 }),
            service.spec_auth_attempts() == 2,
    {
        SigningService {
            retry: RetryPolicy { max_retries: 3, base_delay: 1, max_delay: 30 },
            auth_attempts: 2,
        }
    }

    /// Create a signing service with the given settings.
    pub fn with_settings(retry: RetryPolicy, auth_attempts: u32) -> (service: Self)
        ensures
            service.spec_retry() == retry,
            service.spec_auth_attempts() == auth_attempts,
    {
        SigningService { retry, auth_attempts }
    }

    /// Retry budget for transient failures.
    #[verifier::when_used_as_spec(spec_retry)]
    pub fn retry(&self) -> (p: RetryPolicy)
        ensures
            p == self.spec_retry(),
    {
        self.retry
    }

    /// Number of authentication failures after which signing fails.
    #[verifier::when_used_as_spec(spec_auth_attempts)]
    pub fn auth_attempts(&self) -> (n: u32)
        ensures
            n == self.spec_auth_attempts(),
    {
        self.auth_attempts
    }

    /// Opens a signing operation for the given hash.
    pub fn begin(
        &self,
        release_id: u64,
        hash: String,
        key_id: String,
        idempotency_key: String,
        expected_fingerprint: String,
    ) -> (session: SigningSession)
        ensures
            session.release_id == release_id,
            session.hash == hash,
            session.key_id == key_id,
            session.idempotency_key == idempotency_key,
            session.expected_fingerprint == expected_fingerprint,
            session.transient_retries == 0,
            session.auth_failures == 0,
    {
        SigningSession {
            release_id,
            hash,
            key_id,
            idempotency_key,
            expected_fingerprint,
            transient_retries: 0,
            auth_failures: 0,
        }
    }

    /// The decision on an event:
    /// - a response is accepted only if the signature verified and the
    ///   fingerprint is the expected one; otherwise verification has failed;
    /// - an authentication failure is retried at once until
    ///   `auth_attempts` of them were seen, then signing fails;
    /// - any other transient error is retried with backoff while the retry
    ///   budget lasts, then signing fails with that error;
    /// - any other error fails signing at once.
    pub open spec fn spec_decide(&self, session: SigningSession, event: SignEvent) -> SignDecision {
        match event {
            SignEvent::Response { response, verified } => if verified && response.key_fingerprint@
                == session.expected_fingerprint@ {
                SignDecision::Accept
            } else {
                SignDecision::Fail(FailureReason::VerificationFailed)
            },
            SignEvent::Error(SigningError::HsmAuthFailed) => if session.auth_failures + 1
                < self.auth_attempts() {
                SignDecision::RetryAfter(0)
            } else {
                SignDecision::Fail(FailureReason::HsmAuthFailed)
            },
            SignEvent::Error(e) => if e.reason().is_retryable() {
                match self.retry().spec_decide(session.transient_retries) {
                    RetryDecision::RetryAfter(delay) => SignDecision::RetryAfter(delay),
                    RetryDecision::GiveUp => SignDecision::Fail(e.reason()),
                }
            } else {
                SignDecision::Fail(e.reason())
            },
        }
    }

    /// The session after an event. It keeps what it signs; only its
    /// counters change: an authentication failure counts as one, a retried
    /// transient error as one.
    pub open spec fn spec_next(&self, session: SigningSession, event: SignEvent) -> SigningSession {
        if event matches SignEvent::Error(SigningError::HsmAuthFailed) {
            if session.auth_failures < u32::MAX {
                SigningSession { auth_failures: (session.auth_failures + 1) as u32, ..session }
            } else {
                session
            }
        } else if self.spec_decide(session, event) is RetryAfter {
            SigningSession { transient_retries: (session.transient_retries + 1) as u32, ..session }
        } else {
            session
        }
    }

    /// Handles what came back from the signing capability.
    pub fn on_event(&self, session: &mut SigningSession, event: SignEvent) -> (step: SignStep)
        ensures
            step.decision() == self.spec_decide(*old(session), event),
            *final(session) == self.spec_next(*old(session), event),
            step matches SignStep::Accepted(record) ==> event matches SignEvent::Response {
                response,
                ..
            } && record@ == old(session).record_for(response.signature@),
    {
        match event {
            SignEvent::Response { response, verified } => {
                if verified && response.key_fingerprint == session.expected_fingerprint {
                    SignStep::Accepted(
                        SigningRecord {
                            release_id: session.release_id,
                            key_id: session.key_id.clone(),
                            hash: session.hash.clone(),
                            signature: response.signature,
                            idempotency_key: session.idempotency_key.clone(),
                        },
                    )
                } else {
                    SignStep::Failed(FailureReason::VerificationFailed)
                }
            },
            SignEvent::Error(SigningError::HsmAuthFailed) => {
                let seen = session.auth_failures;
                if seen < u32::MAX {
                    session.auth_failures = seen + 1;
                }
                if seen < u32::MAX && seen + 1 < self.auth_attempts {
                    SignStep::Retry { delay: 0 }
                } else {
                    SignStep::Failed(FailureReason::HsmAuthFailed)
                }
            },
            SignEvent::Error(e) => {
                let reason = e.reason();
                if reason.is_retryable() {
                    match self.retry.decide(session.transient_retries) {
                        RetryDecision::RetryAfter(delay) => {
                            session.transient_retries = session.transient_retries + 1;
                            SignStep::Retry { delay }
                        },
                        RetryDecision::GiveUp => SignStep::Failed(reason),
                    }
                } else {
                    SignStep::Failed(reason)
                }
            },
        }
    }
}

impl Default for SigningService {
    fn default() -> (service: Self)
        ensures
            service.spec_retry() == (RetryPolicy { max_retries: 3, base_delay: 1, max_delay: 30 }),
            service.spec_auth_attempts() == 2,
    {
        Self::new()
    }
}

/// Some record of the ledger carries the idempotency key.
pub open spec fn has_key(ledger: Seq<SigningRecordView>, key: Seq<char>) -> bool {
    exists|i: int| 0 <= i < ledger.len() && (#[trigger] ledger[i]).idempotency_key == key
}

/// Some record of the ledger belongs to the release.
pub open spec fn has_release(ledger: Seq<SigningRecordView>, release_id: u64) -> bool {
    exists|i: int| 0 <= i < ledger.len() && (#[trigger] ledger[i]).release_id == release_id
}

/// Position `i` holds the first record that carries the idempotency key.
pub open spec fn is_first_with_key(ledger: Seq<SigningRecordView>, key: Seq<char>, i: int) -> bool {
    &&& 0 <= i < ledger.len()
    &&& ledger[i].idempotency_key == key
    &&& forall|j: int| 0 <= j < i ==> (#[trigger] ledger[j]).idempotency_key != key
}

/// The first record that carries the idempotency key.
pub open spec fn record_with_key(
    ledger: Seq<SigningRecordView>,
    key: Seq<char>,
) -> SigningRecordView {
    ledger[choose|i: int| is_first_with_key(ledger, key, i)]
}

proof fn lemma_first_with_key_is_unique(ledger: Seq<SigningRecordView>, key: Seq<char>, i: int)
    requires
        is_first_with_key(ledger, key, i),
    ensures
        has_key(ledger, key),
        record_with_key(ledger, key) == ledger[i],
{
    let w = choose|w: int| is_first_with_key(ledger, key, w);
    if w < i {
        assert(ledger[w].idempotency_key != key);
    } else if i < w {
        assert(ledger[i].idempotency_key != key);
    }
}

/// No two records share an idempotency key, and no release has two records.
pub open spec fn ledger_wf(ledger: Seq<SigningRecordView>) -> bool {
    forall|i: int, j: int|
        0 <= i < j < ledger.len() ==> {
            &&& (#[trigger] ledger[i]).idempotency_key != (#[trigger] ledger[j]).idempotency_key
            &&& ledger[i].release_id != ledger[j].release_id
        }
}

/// The record stored under an idempotency key, if there is one.
pub open spec fn spec_lookup(ledger: Seq<SigningRecordView>, key: Seq<char>) -> Option<
    SigningRecordView,
> {
    if has_key(ledger, key) {
        Some(record_with_key(ledger, key))
    } else {
        None
    }
}

/// What committing a record does: the ledger afterwards, and the record that
/// stands for the operation.
/// - A record under an idempotency key that the ledger already holds is a
///   replay: the ledger stays as it is and the first record is returned.
/// - A record for a release that is already signed under another key is
///   refused: the ledger stays as it is.
/// - Any other record is appended and returned.
pub open spec fn spec_commit(ledger: Seq<SigningRecordView>, record: SigningRecordView) -> (
    Seq<SigningRecordView>,
    Option<SigningRecordView>,
) {
    if has_key(ledger, record.idempotency_key) {
        (ledger, Some(record_with_key(ledger, record.idempotency_key)))
    } else if has_release(ledger, record.release_id) {
        (ledger, None)
    } else {
        (ledger.push(record), Some(record))
    }
}

/// The accepted signatures, at most one per release and per idempotency key.
#[derive(Debug)]
pub struct SigningLedger {
    records: Vec<SigningRecord>,
}

impl View for SigningLedger {
    type V = Seq<SigningRecordView>;

    closed spec fn view(&self) -> Seq<SigningRecordView> {
        self.records@.map_values(|r: SigningRecord| r@)
    }
}

impl SigningLedger {
    /// The ledger's invariant.
    pub open spec fn wf(&self) -> bool {
        ledger_wf(self@)
    }

    /// An empty ledger.
    pub fn new() -> (ledger: Self)
        ensures
            ledger.wf(),
            ledger@ == Seq::<SigningRecordView>::empty(),
    {
        let ledger = SigningLedger { records: Vec::new() };
        assert(ledger@ =~= Seq::<SigningRecordView>::empty());
        ledger
    }

    /// Number of records.
    pub fn len(&self) -> (n: usize)
        ensures
            n == self@.len(),
    {
        self.records.len()
    }

    /// A copy of the record at a position.
    pub fn get(&self, index: usize) -> (record: Option<SigningRecord>)
        ensures
            match record {
                Some(r) => index < self@.len() && r@ == self@[index as int],
                None => index >= self@.len(),
            },
    {
        if index < self.records.len() {
            Some(self.records[index].duplicate())
        } else {
            None
        }
    }

    fn position_of_key(&self, key: &String) -> (position: Option<usize>)
        ensures
            match position {
                Some(i) => is_first_with_key(self@, key@, i as int),
                None => !has_key(self@, key@),
            },
    {
        let mut i: usize = 0;
        while i < self.records.len()
            invariant
                i <= self.records@.len(),
                forall|j: int| 0 <= j < i ==> (#[trigger] self@[j]).idempotency_key != key@,
            decreases self.records.len() - i,
        {
            assert(self@[i as int] == self.records@[i as int]@);
            if self.records[i].idempotency_key == *key {
                return Some(i);
            }
            i = i + 1;
        }
        None
    }

    fn holds_release(&self, release_id: u64) -> (found: bool)
        ensures
            found == has_release(self@, release_id),
    {
        let mut i: usize = 0;
        while i < self.records.len()
            invariant
                i <= self.records@.len(),
                forall|j: int| 0 <= j < i ==> (#[trigger] self@[j]).release_id != release_id,
            decreases self.records.len() - i,
        {
            assert(self@[i as int] == self.records@[i as int]@);
            if self.records[i].release_id == release_id {
                return true;
            }
            i = i + 1;
        }
        false
    }

    /// The record stored under an idempotency key, if there is one: the
    /// answer to a repeated request, without a second signature.
    pub fn lookup(&self, idempotency_key: &str) -> (record: Option<SigningRecord>)
        ensures
            match record {
                Some(r) => spec_lookup(self@, idempotency_key@) == Some(r@),
                None => spec_lookup(self@, idempotency_key@) is None,
            },
    {
        let key = String::from_str(idempotency_key);
        match self.position_of_key(&key) {
            Some(i) => {
                proof {
                    lemma_first_with_key_is_unique(self@, key@, i as int);
                }
                assert(self@[i as int] == self.records@[i as int]@);
                Some(self.records[i].duplicate())
            },
            None => None,
        }
    }

    /// Commits an accepted signature. A replay returns a copy of the first
    /// record; a record for a release that is already signed under another
    /// idempotency key is refused with `SigningFailed`.
    pub fn commit(&mut self, record: SigningRecord) -> (stored: Result<SigningRecord, SigningError>)
        ensures
            old(self).wf() ==> final(self).wf(),
            final(self)@ == spec_commit(old(self)@, record@).0,
            match stored {
                Ok(r) => spec_commit(old(self)@, record@).1 == Some(r@),
                Err(SigningError::SigningFailed(detail)) => spec_commit(old(self)@, record@).1
                    is None && detail@
                    == "release is already signed under another idempotency key"@,
                Err(_) => false,
            },
    {
        match self.position_of_key(&record.idempotency_key) {
            Some(i) => {
                proof {
                    lemma_first_with_key_is_unique(self@, record@.idempotency_key, i as int);
                }
                assert(self@[i as int] == self.records@[i as int]@);
                Ok(self.records[i].duplicate())
            },
            None => {
                if self.holds_release(record.release_id) {
                    Err(
                        SigningError::SigningFailed(
                            String::from_str(
                                "release is already signed under another idempotency key",
                            ),
                        ),
                    )
                } else {
                    let copy = record.duplicate();
                    let ghost before = self@;
                    self.records.push(record);
                    assert(self@ =~= before.push(record@));
                    Ok(copy)
                }
            },
        }
    }
}

/// Repeating a signing operation under one idempotency key yields one record
/// and the same signature: the second commit leaves the ledger as the first
/// one made it, returns the record that the first one returned, and the ledger
/// holds exactly one record under that key.
pub proof fn lemma_sign_is_idempotent(
    ledger: Seq<SigningRecordView>,
    first: SigningRecordView,
    second: SigningRecordView,
)
    requires
        ledger_wf(ledger),
        first.idempotency_key == second.idempotency_key,
        spec_commit(ledger, first).1 is Some,
    ensures
        ({
            let after_first = spec_commit(ledger, first);
            let after_second = spec_commit(after_first.0, second);
            &&& ledger_wf(after_first.0)
            &&& after_second.0 == after_first.0
            &&& after_second.1 == after_first.1
            &&& after_second.1->0.signature == after_first.1->0.signature
            &&& forall|i: int, j: int|
                0 <= i < after_second.0.len() && 0 <= j < after_second.0.len()
                    && after_second.0[i].idempotency_key == first.idempotency_key
                    && after_second.0[j].idempotency_key == first.idempotency_key ==> i == j
            &&& has_key(after_second.0, first.idempotency_key)
        }),
{
    let key = first.idempotency_key;
    let after = spec_commit(ledger, first).0;
    if has_key(ledger, key) {
        assert(after == ledger);
    } else {
        assert(after == ledger.push(first));
        assert(after[ledger.len() as int].idempotency_key == key);
        assert(has_key(after, key));
        assert forall|i: int, j: int| 0 <= i < j < after.len() implies {
            &&& (#[trigger] after[i]).idempotency_key != (#[trigger] after[j]).idempotency_key
            &&& after[i].release_id != after[j].release_id
        } by {
            if j == ledger.len() {
                assert(ledger[i].idempotency_key != key);
                assert(ledger[i].release_id != first.release_id);
            }
        }
        assert(is_first_with_key(after, key, ledger.len() as int)) by {
            assert forall|j: int| 0 <= j < ledger.len() implies (
            #[trigger] after[j]).idempotency_key != key by {
                assert(after[j] == ledger[j]);
            }
        }
        lemma_first_with_key_is_unique(after, key, ledger.len() as int);
        assert(record_with_key(after, key) == first);
    }
    assert forall|i: int, j: int|
        0 <= i < after.len() && 0 <= j < after.len() && after[i].idempotency_key == key
            && after[j].idempotency_key == key implies i == j by {
        if i < j {
            assert(after[i].idempotency_key != after[j].idempotency_key);
        }
        if j < i {
            assert(after[j].idempotency_key != after[i].idempotency_key);
        }
    }
}

/// A signature is accepted only if it verified against the expected key:
/// neither an unverified signature nor one from another key is ever accepted.
pub proof fn lemma_accept_needs_verification(
    service: SigningService,
    session: SigningSession,
    event: SignEvent,
)
    requires
        service.spec_decide(session, event) == SignDecision::Accept,
    ensures
        event matches SignEvent::Response { response, verified } && verified
            && response.key_fingerprint@ == session.expected_fingerprint@,
{
}

/// Authentication failures are never retried indefinitely: once
/// `auth_attempts` of them were seen, the next one fails signing.
pub proof fn lemma_auth_failures_fail_fast(service: SigningService, session: SigningSession)
    requires
        session.auth_failures + 1 >= service.auth_attempts(),
    ensures
        service.spec_decide(session, SignEvent::Error(SigningError::HsmAuthFailed))
            == SignDecision::Fail(FailureReason::HsmAuthFailed),
{
}

/// The session after `n` timeouts in a row.
pub open spec fn after_timeouts(
    service: SigningService,
    session: SigningSession,
    n: nat,
) -> SigningSession
    decreases n,
{
    if n == 0 {
        session
    } else {
        service.spec_next(
            after_timeouts(service, session, (n - 1) as nat),
            SignEvent::Error(SigningError::HsmTimeout),
        )
    }
}

/// A signing capability that times out on every call is given up after the
/// retry bound: of a fresh session's timeouts, each of the first
/// `max_retries` is answered with a retry after the backoff delay, and the
/// next one fails signing with the timeout as its reason. So the coordinator
/// makes `max_retries + 1` calls at most and never goes on for ever.
pub proof fn lemma_timeouts_end_in_failure(
    service: SigningService,
    session: SigningSession,
    n: nat,
)
    requires
        session.transient_retries == 0,
    ensures
        after_timeouts(service, session, n).transient_retries == if n
            <= service.retry().max_retries {
            n
        } else {
            service.retry().max_retries as nat
        },
        service.spec_decide(
            after_timeouts(service, session, n),
            SignEvent::Error(SigningError::HsmTimeout),
        ) == if n < service.retry().max_retries {
            SignDecision::RetryAfter(service.retry().spec_delay(n as u32) as u64)
        } else {
            SignDecision::Fail(FailureReason::HsmTimeout)
        },
    decreases n,
{
    if n > 0 {
        lemma_timeouts_end_in_failure(service, session, (n - 1) as nat);
    }
}

/// Transient failures are retried only while the budget lasts: with the
/// budget used up, a timeout fails signing with the timeout as its reason.
pub proof fn lemma_timeouts_are_bounded(service: SigningService, session: SigningSession)
    requires
        session.transient_retries >= service.retry().max_retries,
    ensures
        service.spec_decide(session, SignEvent::Error(SigningError::HsmTimeout))
            == SignDecision::Fail(FailureReason::HsmTimeout),
{
}

} // verus!
