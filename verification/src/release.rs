//! The release state machine: the stages of a release, its lease, and the
//! transitions that a stage's outcome causes.

use crate::failure::FailureReason;
use crate::retry::{RetryDecision, RetryPolicy};
use crate::scanner::ScanVerdict;
use crate::signing::{SigningRecord, SigningRecordView};
use crate::types::{AppId, BuildStatus, ScanStatus};
use vstd::prelude::*;
use vstd::string::*;

verus! {

/// The stage of a release in the pipeline.
#[derive(Debug, Clone, Copy, PartialEq, Eq, Structural)]
pub enum Stage {
    Submitted,
    Building,
    ReproducibilityCheck,
    Scanning,
    AwaitingSignature,
    Signed,
    Published,
    Failed,
    Cancelled,
}

impl Stage {
    /// `Published`, `Failed` and `Cancelled` are terminal.
    pub open spec fn spec_is_terminal(self) -> bool {
        self == Stage::Published || self == Stage::Failed || self == Stage::Cancelled
    }

    /// Position of the stage on the way from `Submitted` to `Published`;
    /// `Failed` and `Cancelled` lie beyond the way.
    pub open spec fn spec_order(self) -> u8 {
        match self {
            Stage::Submitted => 0u8,
            Stage::Building => 1u8,
            Stage::ReproducibilityCheck => 2u8,
            Stage::Scanning => 3u8,
            Stage::AwaitingSignature => 4u8,
            Stage::Signed => 5u8,
            Stage::Published => 6u8,
            Stage::Failed => 7u8,
            Stage::Cancelled => 7u8,
        }
    }

    /// Whether the stage is terminal.
    #[verifier::when_used_as_spec(spec_is_terminal)]
    pub fn is_terminal(self) -> (b: bool)
        ensures
            b == self.spec_is_terminal(),
    {
        match self {
            Stage::Published | Stage::Failed | Stage::Cancelled => true,
            _ => false,
        }
    }

    /// Position of the stage on the way from `Submitted` to `Published`.
    #[verifier::when_used_as_spec(spec_order)]
    pub fn order(self) -> (n: u8)
        ensures
            n == self.spec_order(),
    {
        match self {
            Stage::Submitted => 0,
            Stage::Building => 1,
            Stage::ReproducibilityCheck => 2,
            Stage::Scanning => 3,
            Stage::AwaitingSignature => 4,
            Stage::Signed => 5,
            Stage::Published => 6,
            Stage::Failed => 7,
            Stage::Cancelled => 7,
        }
    }
}

/// The exclusive right of one worker to advance a release. It holds up to
/// and including `expires_at`; past that time it has run out.
#[derive(Debug, Clone, Copy, PartialEq, Eq, Structural)]
pub struct Lease {
    pub holder: u64,
    pub expires_at: u64,
}

/// One entry of a release's history.
#[derive(Debug, Clone, Copy, PartialEq, Eq, Structural)]
pub struct Transition {
    pub from: Stage,
    pub to: Stage,
    /// When the transition was made.
    pub at: u64,
    /// Why the release failed, for a transition to `Failed`.
    pub reason: Option<FailureReason>,
}

/// Why an operation on a release was refused. A refused operation changes
/// nothing.
#[derive(Debug, Clone, Copy, PartialEq, Eq, Structural)]
pub enum AdvanceError {
    /// Another worker holds the lease, and it has not expired.
    LeaseHeld,
    /// The worker does not hold an unexpired lease.
    LeaseLost,
    /// The release changed since the worker read it.
    VersionConflict,
    /// The release is in a terminal stage.
    Terminal,
    /// The event does not belong to the current stage.
    UnexpectedEvent,
}

/// What a worker does for a release in a given stage.
#[derive(Debug, Clone, Copy, PartialEq, Eq, Structural)]
pub enum Action {
    StartBuilds,
    CollectBuilds,
    VerifyReproducibility,
    Scan,
    Sign,
    Publish,
}

/// What completing a stage's action led to.
#[derive(Debug, Clone, Copy, PartialEq, Eq, Structural)]
pub enum Outcome {
    /// The release moved on to this stage.
    Advanced(Stage),
    /// The stage is not finished; the lease was given back.
    Waiting,
    /// The stage is tried again after the delay.
    RetryAfter(u64),
    /// The release failed.
    Failed(FailureReason),
    /// The release was published: the index is to be regenerated.
    Published,
    /// The release is terminal: the event was ignored.
    Ignored,
}

/// The outcome of a stage's action, as handed to the state machine.
#[derive(Debug)]
pub enum StageEvent {
    /// The builds were submitted.
    BuildsStarted,
    /// Every build attempt succeeded.
    BuildsSucceeded,
    /// The builds reproduce one another: the agreed hash.
    Reproducible(String),
    /// The artifact with this hash was scanned, with this verdict.
    Scanned { hash: String, verdict: ScanVerdict },
    /// The artifact was signed.
    Signed(SigningRecord),
    /// The signed release is to be published.
    Publish,
    /// The stage's action has not finished yet.
    Pending,
    /// The stage's action failed in a way that may pass on another try.
    Retryable(FailureReason),
    /// The stage's action failed for good.
    Fatal(FailureReason),
}

/// The plain content of a stage event.
pub enum StageEventView {
    BuildsStarted,
    BuildsSucceeded,
    Reproducible(Seq<char>),
    Scanned { hash: Seq<char>, verdict: ScanVerdict },
    Signed(SigningRecordView),
    Publish,
    Pending,
    Retryable(FailureReason),
    Fatal(FailureReason),
}

impl View for StageEvent {
    type V = StageEventView;

    open spec fn view(&self) -> StageEventView {
        match self {
            StageEvent::BuildsStarted => StageEventView::BuildsStarted,
            StageEvent::BuildsSucceeded => StageEventView::BuildsSucceeded,
            StageEvent::Reproducible(hash) => StageEventView::Reproducible(hash@),
            StageEvent::Scanned { hash, verdict } => StageEventView::Scanned {
                hash: hash@,
                verdict: *verdict,
            },
            StageEvent::Signed(record) => StageEventView::Signed(record@),
            StageEvent::Publish => StageEventView::Publish,
            StageEvent::Pending => StageEventView::Pending,
            StageEvent::Retryable(reason) => StageEventView::Retryable(*reason),
            StageEvent::Fatal(reason) => StageEventView::Fatal(*reason),
        }
    }
}

/// The plain content of a release record.
pub struct ReleaseView {
    pub id: u64,
    pub package_id: Seq<char>,
    pub version_code: i64,
    pub version_name: Seq<char>,
    pub source_ref: Seq<char>,
    pub stage: Stage,
    /// Why the release failed, once it has.
    pub failure: Option<FailureReason>,
    pub history: Seq<Transition>,
    pub lease: Option<Lease>,
    /// Changes with every write to the record.
    pub version: u64,
    /// Retries made in the current stage.
    pub retries: u32,
    /// The hash that the builds agreed on.
    pub build_hash: Option<Seq<char>>,
    /// The hash that was scanned.
    pub scan_hash: Option<Seq<char>>,
    pub scan_verdict: Option<ScanVerdict>,
    pub signing: Option<SigningRecordView>,
}

/// The version after a write: one more, wrapping around at the top.
pub open spec fn next_version(version: u64) -> u64 {
    if version == u64::MAX {
        0
    } else {
        (version + 1) as u64
    }
}

/// The last time at which a lease taken at `now` for `ttl` holds; the top of
/// the range at most.
pub open spec fn lease_expiry(now: u64, ttl: u64) -> u64 {
    if now + ttl > u64::MAX {
        u64::MAX
    } else {
        (now + ttl) as u64
    }
}

/// The lease keeps `worker` out: another worker holds it and it has not run
/// out.
pub open spec fn lease_blocks(lease: Option<Lease>, worker: u64, now: u64) -> bool {
    lease matches Some(l) && l.holder != worker && now <= l.expires_at
}

/// `worker` holds the lease and it has not run out.
pub open spec fn holds_lease(lease: Option<Lease>, worker: u64, now: u64) -> bool {
    lease matches Some(l) && l.holder == worker && now <= l.expires_at
}

/// A verdict that lets a release go on to signing.
pub open spec fn verdict_is_clean(verdict: ScanVerdict) -> bool {
    verdict == ScanVerdict::Passed || verdict == ScanVerdict::Warning
}

/// A transition that the state machine makes: out of a stage that is not
/// terminal, one stage forward, or to `Failed` or `Cancelled`; with a reason
/// exactly when it leads to `Failed`.
pub open spec fn transition_allowed(t: Transition) -> bool {
    &&& !t.from.is_terminal()
    &&& (t.to == Stage::Failed || t.to == Stage::Cancelled || t.to.order() == t.from.order() + 1)
    &&& (t.reason is Some <==> t.to == Stage::Failed)
}

/// The history is a chain of allowed transitions from `Submitted` to `stage`.
pub open spec fn history_wf(history: Seq<Transition>, stage: Stage) -> bool {
    &&& history.len() == 0 ==> stage == Stage::Submitted
    &&& history.len() > 0 ==> history[0].from == Stage::Submitted && history.last().to == stage
    &&& forall|i: int| 0 <= i < history.len() ==> transition_allowed(#[trigger] history[i])
    &&& forall|i: int, j: int|
        0 <= i && j == i + 1 && j < history.len() ==> (#[trigger] history[i]).to
            == (#[trigger] history[j]).from
}

/// Chain of custody: one hash runs through build, scan and signing, and
/// nothing is signed that was not scanned clean.
pub open spec fn custody_wf(r: ReleaseView) -> bool {
    &&& r.stage.order() >= Stage::Scanning.order() && r.stage.order() <= Stage::Published.order()
        ==> r.build_hash is Some
    &&& r.stage.order() >= Stage::AwaitingSignature.order() && r.stage.order()
        <= Stage::Published.order() ==> r.scan_hash is Some
    &&& r.stage.order() >= Stage::Signed.order() && r.stage.order() <= Stage::Published.order()
        ==> r.signing is Some
    &&& r.stage.order() < Stage::Scanning.order() ==> r.build_hash is None
    &&& r.stage.order() < Stage::AwaitingSignature.order() ==> r.scan_hash is None
    &&& r.stage.order() < Stage::Signed.order() ==> r.signing is None
    &&& r.scan_hash is Some ==> r.scan_hash == r.build_hash && r.scan_verdict is Some
        && verdict_is_clean(r.scan_verdict->0)
    &&& r.signing matches Some(record) ==> Some(record.hash) == r.build_hash && r.scan_hash
        == r.build_hash && record.release_id == r.id
}

/// The invariant of a release record.
pub open spec fn release_wf(r: ReleaseView) -> bool {
    &&& r.failure is Some <==> r.stage == Stage::Failed
    &&& r.stage.is_terminal() ==> r.lease is None
    &&& r.stage == Stage::Failed ==> r.history.len() > 0 && r.history.last().reason == r.failure
    &&& history_wf(r.history, r.stage)
    &&& custody_wf(r)
}

/// A release as it is submitted.
pub open spec fn spec_submit(
    id: u64,
    package_id: Seq<char>,
    version_code: i64,
    version_name: Seq<char>,
    source_ref: Seq<char>,
) -> ReleaseView {
    ReleaseView {
        id,
        package_id,
        version_code,
        version_name,
        source_ref,
        stage: Stage::Submitted,
        failure: None,
        history: Seq::empty(),
        lease: None,
        version: 0,
        retries: 0,
        build_hash: None,
        scan_hash: None,
        scan_verdict: None,
        signing: None,
    }
}

/// The action that belongs to a stage; a terminal stage has none.
pub open spec fn spec_action(stage: Stage) -> Option<Action> {
    match stage {
        Stage::Submitted => Some(Action::StartBuilds),
        Stage::Building => Some(Action::CollectBuilds),
        Stage::ReproducibilityCheck => Some(Action::VerifyReproducibility),
        Stage::Scanning => Some(Action::Scan),
        Stage::AwaitingSignature => Some(Action::Sign),
        Stage::Signed => Some(Action::Publish),
        _ => None,
    }
}

/// Taking the lease: refused on a terminal release and while another worker
/// holds an unexpired lease; otherwise `worker` holds the lease for `ttl`.
pub open spec fn spec_acquire(pre: ReleaseView, worker: u64, now: u64, ttl: u64) -> Result<
    ReleaseView,
    AdvanceError,
> {
    if pre.stage.is_terminal() {
        Err(AdvanceError::Terminal)
    } else if lease_blocks(pre.lease, worker, now) {
        Err(AdvanceError::LeaseHeld)
    } else {
        Ok(
            ReleaseView {
                lease: Some(Lease { holder: worker, expires_at: lease_expiry(now, ttl) }),
                version: next_version(pre.version),
                ..pre
            },
        )
    }
}

/// Renewing the lease: only its unexpired holder may, on a release that is
/// not terminal.
pub open spec fn spec_renew(pre: ReleaseView, worker: u64, now: u64, ttl: u64) -> Result<
    ReleaseView,
    AdvanceError,
> {
    if pre.stage.is_terminal() {
        Err(AdvanceError::Terminal)
    } else if !holds_lease(pre.lease, worker, now) {
        Err(AdvanceError::LeaseLost)
    } else {
        Ok(
            ReleaseView {
                lease: Some(Lease { holder: worker, expires_at: lease_expiry(now, ttl) }),
                version: next_version(pre.version),
                ..pre
            },
        )
    }
}

/// The release moves to `to`: the transition is recorded, the retries start
/// anew, the lease is given back.
pub open spec fn spec_move_to(pre: ReleaseView, now: u64, to: Stage) -> ReleaseView {
    ReleaseView {
        stage: to,
        history: pre.history.push(Transition { from: pre.stage, to, at: now, reason: None }),
        lease: None,
        version: next_version(pre.version),
        retries: 0,
        ..pre
    }
}

/// The release fails: the transition is recorded with its reason, the lease
/// is given back.
pub open spec fn spec_fail(pre: ReleaseView, now: u64, reason: FailureReason) -> ReleaseView {
    ReleaseView {
        stage: Stage::Failed,
        failure: Some(reason),
        history: pre.history.push(
            Transition { from: pre.stage, to: Stage::Failed, at: now, reason: Some(reason) },
        ),
        lease: None,
        version: next_version(pre.version),
        ..pre
    }
}

/// The release stays in its stage: only the lease is given back.
pub open spec fn spec_yield(pre: ReleaseView) -> ReleaseView {
    ReleaseView { lease: None, version: next_version(pre.version), ..pre }
}

/// What an event does to a release whose lease and version were found in
/// order: the release afterwards and the outcome, or `None` if the event does
/// not belong to the stage.
pub open spec fn spec_apply(
    pre: ReleaseView,
    now: u64,
    event: StageEventView,
    policy: RetryPolicy,
) -> Option<(ReleaseView, Outcome)> {
    match event {
        StageEventView::Pending => Some((spec_yield(pre), Outcome::Waiting)),
        StageEventView::Fatal(reason) => Some(
            (spec_fail(pre, now, reason), Outcome::Failed(reason)),
        ),
        StageEventView::Retryable(reason) => match policy.spec_decide(pre.retries) {
            RetryDecision::RetryAfter(delay) => Some(
                (
                    ReleaseView { retries: (pre.retries + 1) as u32, ..spec_yield(pre) },
                    Outcome::RetryAfter(delay),
                ),
            ),
            RetryDecision::GiveUp => Some((spec_fail(pre, now, reason), Outcome::Failed(reason))),
        },
        StageEventView::BuildsStarted => if pre.stage == Stage::Submitted {
            Some((spec_move_to(pre, now, Stage::Building), Outcome::Advanced(Stage::Building)))
        } else {
            None
        },
        StageEventView::BuildsSucceeded => if pre.stage == Stage::Building {
            Some(
                (
                    spec_move_to(pre, now, Stage::ReproducibilityCheck),
                    Outcome::Advanced(Stage::ReproducibilityCheck),
                ),
            )
        } else {
            None
        },
        StageEventView::Reproducible(hash) => if pre.stage == Stage::ReproducibilityCheck {
            Some(
                (
                    spec_move_to(
                        ReleaseView { build_hash: Some(hash), ..pre },
                        now,
                        Stage::Scanning,
                    ),
                    Outcome::Advanced(Stage::Scanning),
                ),
            )
        } else {
            None
        },
        StageEventView::Scanned { hash, verdict } => if pre.stage != Stage::Scanning {
            None
        } else if pre.build_hash != Some(hash) {
            Some(
                (
                    spec_fail(pre, now, FailureReason::HashMismatch),
                    Outcome::Failed(FailureReason::HashMismatch),
                ),
            )
        } else {
            match verdict {
                ScanVerdict::Pending => Some((spec_yield(pre), Outcome::Waiting)),
                ScanVerdict::Failed(reason) => Some(
                    (spec_fail(pre, now, reason), Outcome::Failed(reason)),
                ),
                _ => Some(
                    (
                        spec_move_to(
                            ReleaseView {
                                scan_hash: Some(hash),
                                scan_verdict: Some(verdict),
                                ..pre
                            },
                            now,
                            Stage::AwaitingSignature,
                        ),
                        Outcome::Advanced(Stage::AwaitingSignature),
                    ),
                ),
            }
        },
        StageEventView::Signed(record) => if pre.stage != Stage::AwaitingSignature {
            None
        } else if record.release_id != pre.id || pre.build_hash != Some(record.hash) {
            Some(
                (
                    spec_fail(pre, now, FailureReason::HashMismatch),
                    Outcome::Failed(FailureReason::HashMismatch),
                ),
            )
        } else {
            Some(
                (
                    spec_move_to(ReleaseView { signing: Some(record), ..pre }, now, Stage::Signed),
                    Outcome::Advanced(Stage::Signed),
                ),
            )
        },
        StageEventView::Publish => if pre.stage == Stage::Signed {
            Some((spec_move_to(pre, now, Stage::Published), Outcome::Published))
        } else {
            None
        },
    }
}

/// Completing a stage's action. In this order:
/// - a terminal release ignores the event;
/// - a release that changed since the worker read it refuses the write;
/// - so does one whose lease the worker does not hold, or holds expired;
/// - an event that does not belong to the stage is refused;
/// - otherwise the event is applied.
/// A refused or ignored event changes nothing.
pub open spec fn spec_complete(
    pre: ReleaseView,
    worker: u64,
    now: u64,
    expected_version: u64,
    event: StageEventView,
    policy: RetryPolicy,
) -> (ReleaseView, Result<Outcome, AdvanceError>) {
    if pre.stage.is_terminal() {
        (pre, Ok(Outcome::Ignored))
    } else if pre.version != expected_version {
        (pre, Err(AdvanceError::VersionConflict))
    } else if !holds_lease(pre.lease, worker, now) {
        (pre, Err(AdvanceError::LeaseLost))
    } else {
        match spec_apply(pre, now, event, policy) {
            Some((post, outcome)) => (post, Ok(outcome)),
            None => (pre, Err(AdvanceError::UnexpectedEvent)),
        }
    }
}

/// Cancelling: a release that is not terminal becomes `Cancelled` at once,
/// whoever holds the lease; a terminal release stays as it is. The flag says
/// whether the release was cancelled by this call.
pub open spec fn spec_cancel(pre: ReleaseView, now: u64) -> (ReleaseView, bool) {
    if pre.stage.is_terminal() {
        (pre, false)
    } else {
        (spec_move_to(pre, now, Stage::Cancelled), true)
    }
}

/// The build status that a release shows: pending until the builds start,
/// building until they are verified, then success; a release that ended
/// before its builds were verified shows how it ended.
pub open spec fn spec_build_status(r: ReleaseView) -> BuildStatus {
    match r.stage {
        Stage::Submitted => BuildStatus::Pending,
        Stage::Building | Stage::ReproducibilityCheck => BuildStatus::Building,
        Stage::Failed => if r.build_hash is Some {
            BuildStatus::Success
        } else {
            BuildStatus::Failed
        },
        Stage::Cancelled => if r.build_hash is Some {
            BuildStatus::Success
        } else {
            BuildStatus::Cancelled
        },
        _ => BuildStatus::Success,
    }
}

/// The scan status that a release shows: pending until the builds are
/// verified, scanning until the scan has cleared the artifact, then the
/// verdict; a release that failed while it was scanned shows failed.
pub open spec fn spec_scan_status(r: ReleaseView) -> ScanStatus {
    if r.scan_hash is Some {
        if r.scan_verdict == Some(ScanVerdict::Warning) {
            ScanStatus::Warning
        } else {
            ScanStatus::Passed
        }
    } else if r.build_hash is None {
        ScanStatus::Pending
    } else if r.stage == Stage::Failed {
        ScanStatus::Failed
    } else if r.stage == Stage::Cancelled {
        ScanStatus::Pending
    } else {
        ScanStatus::Scanning
    }
}

/// The text of an optional string.
pub open spec fn text_view(text: Option<String>) -> Option<Seq<char>> {
    match text {
        Some(t) => Some(t@),
        None => None,
    }
}

/// The content of an optional signing record.
pub open spec fn record_view(record: Option<SigningRecord>) -> Option<SigningRecordView> {
    match record {
        Some(r) => Some(r@),
        None => None,
    }
}

fn text_is(text: &Option<String>, other: &String) -> (same: bool)
    ensures
        same == (text_view(*text) == Some(other@)),
{
    match text {
        Some(t) => *t == *other,
        None => false,
    }
}

fn copy_text(text: &Option<String>) -> (copy: Option<String>)
    ensures
        text_view(copy) == text_view(*text),
{
    match text {
        Some(t) => Some(t.clone()),
        None => None,
    }
}

fn bump(version: u64) -> (next: u64)
    ensures
        next == next_version(version),
{
    if version == u64::MAX {
        0
    } else {
        version + 1
    }
}

fn expiry(now: u64, ttl: u64) -> (at: u64)
    ensures
        at == lease_expiry(now, ttl),
{
    if ttl > u64::MAX - now {
        u64::MAX
    } else {
        now + ttl
    }
}

/// One submitted application version on its way through the pipeline.
#[derive(Debug)]
pub struct Release {
    id: u64,
    package_id: AppId,
    version_code: i64,
    version_name: String,
    source_ref: String,
    stage: Stage,
    failure: Option<FailureReason>,
    history: Vec<Transition>,
    lease: Option<Lease>,
    version: u64,
    retries: u32,
    build_hash: Option<String>,
    scan_hash: Option<String>,
    scan_verdict: Option<ScanVerdict>,
    signing: Option<SigningRecord>,
}

impl View for Release {
    type V = ReleaseView;

    closed spec fn view(&self) -> ReleaseView {
        ReleaseView {
            id: self.id,
            package_id: self.package_id@,
            version_code: self.version_code,
            version_name: self.version_name@,
            source_ref: self.source_ref@,
            stage: self.stage,
            failure: self.failure,
            history: self.history@,
            lease: self.lease,
            version: self.version,
            retries: self.retries,
            build_hash: text_view(self.build_hash),
            scan_hash: text_view(self.scan_hash),
            scan_verdict: self.scan_verdict,
            signing: record_view(self.signing),
        }
    }
}

impl Release {
    /// The record's invariant.
    pub open spec fn wf(&self) -> bool {
        release_wf(self@)
    }

    /// Creates the record of a newly submitted release.
    pub fn submit(
        id: u64,
        package_id: AppId,
        version_code: i64,
        version_name: String,
        source_ref: String,
    ) -> (release: Release)
        ensures
            release@ == spec_submit(id, package_id@, version_code, version_name@, source_ref@),
            release.wf(),
    {
        Release {
            id,
            package_id,
            version_code,
            version_name,
            source_ref,
            stage: Stage::Submitted,
            failure: None,
            history: Vec::new(),
            lease: None,
            version: 0,
            retries: 0,
            build_hash: None,
            scan_hash: None,
            scan_verdict: None,
            signing: None,
        }
    }

    /// The release's identifier.
    pub fn id(&self) -> (id: u64)
        ensures
            id == self@.id,
    {
        self.id
    }

    /// The package that the release belongs to.
    pub fn package_id(&self) -> (package_id: &AppId)
        ensures
            package_id@ == self@.package_id,
    {
        &self.package_id
    }

    /// The release's version code.
    pub fn version_code(&self) -> (code: i64)
        ensures
            code == self@.version_code,
    {
        self.version_code
    }

    /// The release's version name.
    pub fn version_name(&self) -> (name: &str)
        ensures
            name@ == self@.version_name,
    {
        self.version_name.as_str()
    }

    /// The source reference that the release is built from.
    pub fn source_ref(&self) -> (source: &str)
        ensures
            source@ == self@.source_ref,
    {
        self.source_ref.as_str()
    }

    /// The current stage.
    pub fn stage(&self) -> (stage: Stage)
        ensures
            stage == self@.stage,
    {
        self.stage
    }

    /// Why the release failed, if it has.
    pub fn failure(&self) -> (failure: Option<FailureReason>)
        ensures
            failure == self@.failure,
    {
        self.failure
    }

    /// The record's version.
    pub fn version(&self) -> (version: u64)
        ensures
            version == self@.version,
    {
        self.version
    }

    /// The current lease, if any.
    pub fn lease(&self) -> (lease: Option<Lease>)
        ensures
            lease == self@.lease,
    {
        self.lease
    }

    /// Retries made in the current stage.
    pub fn retries(&self) -> (retries: u32)
        ensures
            retries == self@.retries,
    {
        self.retries
    }

    /// Number of transitions made so far.
    pub fn history_len(&self) -> (n: usize)
        ensures
            n == self@.history.len(),
    {
        self.history.len()
    }

    /// The transition at a position of the history.
    pub fn transition(&self, index: usize) -> (t: Option<Transition>)
        ensures
            t == if index < self@.history.len() {
                Some(self@.history[index as int])
            } else {
                None
            },
    {
        if index < self.history.len() {
            Some(self.history[index])
        } else {
            None
        }
    }

    /// The hash that the builds agreed on, once they have.
    pub fn build_hash(&self) -> (hash: Option<String>)
        ensures
            text_view(hash) == self@.build_hash,
    {
        copy_text(&self.build_hash)
    }

    /// The hash that was scanned, once the scan has cleared it.
    pub fn scan_hash(&self) -> (hash: Option<String>)
        ensures
            text_view(hash) == self@.scan_hash,
    {
        copy_text(&self.scan_hash)
    }

    /// The verdict of the scan, once it has cleared the artifact.
    pub fn scan_verdict(&self) -> (verdict: Option<ScanVerdict>)
        ensures
            verdict == self@.scan_verdict,
    {
        self.scan_verdict
    }

    /// The signing record, once the release is signed.
    pub fn signing_record(&self) -> (record: Option<SigningRecord>)
        ensures
            record_view(record) == self@.signing,
    {
        match &self.signing {
            Some(r) => Some(r.duplicate()),
            None => None,
        }
    }

    /// The build status that the release shows.
    pub fn build_status(&self) -> (status: BuildStatus)
        ensures
            status == spec_build_status(self@),
    {
        match self.stage {
            Stage::Submitted => BuildStatus::Pending,
            Stage::Building | Stage::ReproducibilityCheck => BuildStatus::Building,
            Stage::Failed => if self.build_hash.is_some() {
                BuildStatus::Success
            } else {
                BuildStatus::Failed
            },
            Stage::Cancelled => if self.build_hash.is_some() {
                BuildStatus::Success
            } else {
                BuildStatus::Cancelled
            },
            _ => BuildStatus::Success,
        }
    }

    /// The scan status that the release shows.
    pub fn scan_status(&self) -> (status: ScanStatus)
        ensures
            status == spec_scan_status(self@),
    {
        if self.scan_hash.is_some() {
            match self.scan_verdict {
                Some(ScanVerdict::Warning) => ScanStatus::Warning,
                _ => ScanStatus::Passed,
            }
        } else if self.build_hash.is_none() {
            ScanStatus::Pending
        } else if self.stage == Stage::Failed {
            ScanStatus::Failed
        } else if self.stage == Stage::Cancelled {
            ScanStatus::Pending
        } else {
            ScanStatus::Scanning
        }
    }

    /// Whether the release is in a terminal stage.
    pub fn is_terminal(&self) -> (b: bool)
        ensures
            b == self@.stage.is_terminal(),
    {
        self.stage.is_terminal()
    }

    /// What a worker that holds the lease does next.
    pub fn next_action(&self) -> (action: Option<Action>)
        ensures
            action == spec_action(self@.stage),
    {
        match self.stage {
            Stage::Submitted => Some(Action::StartBuilds),
            Stage::Building => Some(Action::CollectBuilds),
            Stage::ReproducibilityCheck => Some(Action::VerifyReproducibility),
            Stage::Scanning => Some(Action::Scan),
            Stage::AwaitingSignature => Some(Action::Sign),
            Stage::Signed => Some(Action::Publish),
            _ => None,
        }
    }

    /// Takes the lease for `worker`. On success the record's new version is
    /// returned: the worker presents it when it completes the stage.
    pub fn acquire(&mut self, worker: u64, now: u64, ttl: u64) -> (result: Result<
        u64,
        AdvanceError,
    >)
        ensures
            match spec_acquire(old(self)@, worker, now, ttl) {
                Ok(post) => final(self)@ == post && result == Ok::<u64, AdvanceError>(post.version),
                Err(e) => final(self)@ == old(self)@ && result == Err::<u64, AdvanceError>(e),
            },
            old(self).wf() ==> final(self).wf(),
    {
        proof {
            if self.wf() {
                lemma_acquire_preserves_wf(self@, worker, now, ttl);
            }
        }
        if self.stage.is_terminal() {
            return Err(AdvanceError::Terminal);
        }
        match self.lease {
            Some(l) => {
                if l.holder != worker && now <= l.expires_at {
                    return Err(AdvanceError::LeaseHeld);
                }
            },
            None => {},
        }
        self.lease = Some(Lease { holder: worker, expires_at: expiry(now, ttl) });
        self.version = bump(self.version);
        Ok(self.version)
    }

    /// Renews the lease of `worker` while it is executing a stage. On success
    /// the record's new version is returned.
    pub fn renew(&mut self, worker: u64, now: u64, ttl: u64) -> (result: Result<u64, AdvanceError>)
        ensures
            match spec_renew(old(self)@, worker, now, ttl) {
                Ok(post) => final(self)@ == post && result == Ok::<u64, AdvanceError>(post.version),
                Err(e) => final(self)@ == old(self)@ && result == Err::<u64, AdvanceError>(e),
            },
            old(self).wf() ==> final(self).wf(),
    {
        proof {
            if self.wf() {
                lemma_renew_preserves_wf(self@, worker, now, ttl);
            }
        }
        if self.stage.is_terminal() {
            return Err(AdvanceError::Terminal);
        }
        let held = match self.lease {
            Some(l) => l.holder == worker && now <= l.expires_at,
            None => false,
        };
        if !held {
            return Err(AdvanceError::LeaseLost);
        }
        self.lease = Some(Lease { holder: worker, expires_at: expiry(now, ttl) });
        self.version = bump(self.version);
        Ok(self.version)
    }

    fn move_to(&mut self, now: u64, to: Stage)
        ensures
            final(self)@ == spec_move_to(old(self)@, now, to),
    {
        self.history.push(Transition { from: self.stage, to, at: now, reason: None });
        self.stage = to;
        self.lease = None;
        self.version = bump(self.version);
        self.retries = 0;
    }

    fn fail(&mut self, now: u64, reason: FailureReason)
        ensures
            final(self)@ == spec_fail(old(self)@, now, reason),
    {
        self.history.push(
            Transition { from: self.stage, to: Stage::Failed, at: now, reason: Some(reason) },
        );
        self.stage = Stage::Failed;
        self.failure = Some(reason);
        self.lease = None;
        self.version = bump(self.version);
    }

    fn give_back(&mut self)
        ensures
            final(self)@ == spec_yield(old(self)@),
    {
        self.lease = None;
        self.version = bump(self.version);
    }

    fn apply(&mut self, now: u64, event: StageEvent, policy: &RetryPolicy) -> (outcome: Option<
        Outcome,
    >)
        ensures
            match spec_apply(old(self)@, now, event@, *policy) {
                Some((post, expected)) => final(self)@ == post && outcome == Some(expected),
                None => final(self)@ == old(self)@ && outcome is None,
            },
    {
        match event {
            StageEvent::Pending => {
                self.give_back();
                Some(Outcome::Waiting)
            },
            StageEvent::Fatal(reason) => {
                self.fail(now, reason);
                Some(Outcome::Failed(reason))
            },
            StageEvent::Retryable(reason) => match policy.decide(self.retries) {
                RetryDecision::RetryAfter(delay) => {
                    self.give_back();
                    self.retries = self.retries + 1;
                    Some(Outcome::RetryAfter(delay))
                },
                RetryDecision::GiveUp => {
                    self.fail(now, reason);
                    Some(Outcome::Failed(reason))
                },
            },
            StageEvent::BuildsStarted => {
                if self.stage == Stage::Submitted {
                    self.move_to(now, Stage::Building);
                    Some(Outcome::Advanced(Stage::Building))
                } else {
                    None
                }
            },
            StageEvent::BuildsSucceeded => {
                if self.stage == Stage::Building {
                    self.move_to(now, Stage::ReproducibilityCheck);
                    Some(Outcome::Advanced(Stage::ReproducibilityCheck))
                } else {
                    None
                }
            },
            StageEvent::Reproducible(hash) => {
                if self.stage == Stage::ReproducibilityCheck {
                    self.build_hash = Some(hash);
                    self.move_to(now, Stage::Scanning);
                    Some(Outcome::Advanced(Stage::Scanning))
                } else {
                    None
                }
            },
            StageEvent::Scanned { hash, verdict } => {
                if self.stage != Stage::Scanning {
                    None
                } else if !text_is(&self.build_hash, &hash) {
                    self.fail(now, FailureReason::HashMismatch);
                    Some(Outcome::Failed(FailureReason::HashMismatch))
                } else {
                    match verdict {
                        ScanVerdict::Pending => {
                            self.give_back();
                            Some(Outcome::Waiting)
                        },
                        ScanVerdict::Failed(reason) => {
                            self.fail(now, reason);
                            Some(Outcome::Failed(reason))
                        },
                        _ => {
                            self.scan_hash = Some(hash);
                            self.scan_verdict = Some(verdict);
                            self.move_to(now, Stage::AwaitingSignature);
                            Some(Outcome::Advanced(Stage::AwaitingSignature))
                        },
                    }
                }
            },
            StageEvent::Signed(record) => {
                if self.stage != Stage::AwaitingSignature {
                    None
                } else if record.release_id != self.id || !text_is(&self.build_hash, &record.hash) {
                    self.fail(now, FailureReason::HashMismatch);
                    Some(Outcome::Failed(FailureReason::HashMismatch))
                } else {
                    self.signing = Some(record);
                    self.move_to(now, Stage::Signed);
                    Some(Outcome::Advanced(Stage::Signed))
                }
            },
            StageEvent::Publish => {
                if self.stage == Stage::Signed {
                    self.move_to(now, Stage::Published);
                    Some(Outcome::Published)
                } else {
                    None
                }
            },
        }
    }

    /// Completes the action of the current stage with its outcome.
    ///
    /// `worker` must hold the lease, and `expected_version` must be the
    /// version that the record had when the worker took or renewed the lease.
    /// A terminal release ignores the event.
    pub fn complete(
        &mut self,
        worker: u64,
        now: u64,
        expected_version: u64,
        event: StageEvent,
        policy: &RetryPolicy,
    ) -> (result: Result<Outcome, AdvanceError>)
        ensures
            final(self)@ == spec_complete(
                old(self)@,
                worker,
                now,
                expected_version,
                event@,
                *policy,
            ).0,
            result == spec_complete(old(self)@, worker, now, expected_version, event@, *policy).1,
            old(self).wf() ==> final(self).wf(),
    {
        proof {
            if self.wf() {
                lemma_complete_preserves_wf(self@, worker, now, expected_version, event@, *policy);
            }
        }
        if self.stage.is_terminal() {
            return Ok(Outcome::Ignored);
        }
        if self.version != expected_version {
            return Err(AdvanceError::VersionConflict);
        }
        let held = match self.lease {
            Some(l) => l.holder == worker && now <= l.expires_at,
            None => false,
        };
        if !held {
            return Err(AdvanceError::LeaseLost);
        }
        match self.apply(now, event, policy) {
            Some(outcome) => Ok(outcome),
            None => Err(AdvanceError::UnexpectedEvent),
        }
    }

    /// Cancels the release. A release that is not terminal becomes
    /// `Cancelled` at once; a terminal one ignores the call. Returns whether
    /// this call cancelled the release.
    pub fn cancel(&mut self, now: u64) -> (cancelled: bool)
        ensures
            final(self)@ == spec_cancel(old(self)@, now).0,
            cancelled == spec_cancel(old(self)@, now).1,
            old(self).wf() ==> final(self).wf(),
    {
        proof {
            if self.wf() {
                lemma_cancel_preserves_wf(self@, now);
            }
        }
        if self.stage.is_terminal() {
            false
        } else {
            self.move_to(now, Stage::Cancelled);
            true
        }
    }
}

/// A newly submitted release satisfies the invariant.
pub proof fn lemma_submit_wf(
    id: u64,
    package_id: Seq<char>,
    version_code: i64,
    version_name: Seq<char>,
    source_ref: Seq<char>,
)
    ensures
        release_wf(spec_submit(id, package_id, version_code, version_name, source_ref)),
{
}

/// Taking the lease keeps the invariant.
pub proof fn lemma_acquire_preserves_wf(pre: ReleaseView, worker: u64, now: u64, ttl: u64)
    requires
        release_wf(pre),
    ensures
        spec_acquire(pre, worker, now, ttl) matches Ok(post) ==> release_wf(post),
{
}

/// Renewing the lease keeps the invariant.
pub proof fn lemma_renew_preserves_wf(pre: ReleaseView, worker: u64, now: u64, ttl: u64)
    requires
        release_wf(pre),
    ensures
        spec_renew(pre, worker, now, ttl) matches Ok(post) ==> release_wf(post),
{
}

proof fn lemma_push_keeps_history(pre: ReleaseView, t: Transition)
    requires
        history_wf(pre.history, pre.stage),
        t.from == pre.stage,
        transition_allowed(t),
    ensures
        history_wf(pre.history.push(t), t.to),
{
    let h = pre.history.push(t);
    assert forall|i: int| 0 <= i < h.len() implies transition_allowed(#[trigger] h[i]) by {
        if i < pre.history.len() {
            assert(h[i] == pre.history[i]);
        }
    }
    assert forall|i: int, j: int| 0 <= i && j == i + 1 && j < h.len() implies (#[trigger] h[i]).to
        == (#[trigger] h[j]).from by {
        if j < pre.history.len() {
            assert(h[i] == pre.history[i]);
            assert(h[j] == pre.history[j]);
        } else {
            assert(h[i] == pre.history.last());
        }
    }
}

proof fn lemma_fail_wf(pre: ReleaseView, now: u64, reason: FailureReason)
    requires
        release_wf(pre),
        !pre.stage.is_terminal(),
    ensures
        release_wf(spec_fail(pre, now, reason)),
{
    let post = spec_fail(pre, now, reason);
    lemma_push_keeps_history(pre, post.history.last());
}

proof fn lemma_move_wf(pre: ReleaseView, now: u64, to: Stage)
    requires
        history_wf(pre.history, pre.stage),
        !pre.stage.is_terminal(),
        pre.failure is None,
        to != Stage::Failed,
        to == Stage::Cancelled || to.order() == pre.stage.order() + 1,
        custody_wf(ReleaseView { stage: to, ..pre }),
    ensures
        release_wf(spec_move_to(pre, now, to)),
{
    let post = spec_move_to(pre, now, to);
    lemma_push_keeps_history(pre, post.history.last());
    assert(custody_wf(post));
}

/// Completing a stage keeps the invariant.
pub proof fn lemma_complete_preserves_wf(
    pre: ReleaseView,
    worker: u64,
    now: u64,
    expected_version: u64,
    event: StageEventView,
    policy: RetryPolicy,
)
    requires
        release_wf(pre),
    ensures
        release_wf(spec_complete(pre, worker, now, expected_version, event, policy).0),
{
    let post = spec_complete(pre, worker, now, expected_version, event, policy).0;
    if !pre.stage.is_terminal() && pre.version == expected_version && holds_lease(
        pre.lease,
        worker,
        now,
    ) {
        match event {
            StageEventView::Pending => {},
            StageEventView::Fatal(reason) => {
                lemma_fail_wf(pre, now, reason);
            },
            StageEventView::Retryable(reason) => {
                lemma_fail_wf(pre, now, reason);
            },
            StageEventView::BuildsStarted => {
                if pre.stage == Stage::Submitted {
                    lemma_move_wf(pre, now, Stage::Building);
                }
            },
            StageEventView::BuildsSucceeded => {
                if pre.stage == Stage::Building {
                    lemma_move_wf(pre, now, Stage::ReproducibilityCheck);
                }
            },
            StageEventView::Reproducible(hash) => {
                if pre.stage == Stage::ReproducibilityCheck {
                    lemma_move_wf(
                        ReleaseView { build_hash: Some(hash), ..pre },
                        now,
                        Stage::Scanning,
                    );
                }
            },
            StageEventView::Scanned { hash, verdict } => {
                if pre.stage == Stage::Scanning {
                    lemma_fail_wf(pre, now, FailureReason::HashMismatch);
                    match verdict {
                        ScanVerdict::Pending => {},
                        ScanVerdict::Failed(reason) => {
                            lemma_fail_wf(pre, now, reason);
                        },
                        _ => {
                            if pre.build_hash == Some(hash) {
                                lemma_move_wf(
                                    ReleaseView {
                                        scan_hash: Some(hash),
                                        scan_verdict: Some(verdict),
                                        ..pre
                                    },
                                    now,
                                    Stage::AwaitingSignature,
                                );
                            }
                        },
                    }
                }
            },
            StageEventView::Signed(record) => {
                if pre.stage == Stage::AwaitingSignature {
                    lemma_fail_wf(pre, now, FailureReason::HashMismatch);
                    if record.release_id == pre.id && pre.build_hash == Some(record.hash) {
                        lemma_move_wf(
                            ReleaseView { signing: Some(record), ..pre },
                            now,
                            Stage::Signed,
                        );
                    }
                }
            },
            StageEventView::Publish => {
                if pre.stage == Stage::Signed {
                    lemma_move_wf(pre, now, Stage::Published);
                }
            },
        }
    }
}

/// Cancelling keeps the invariant.
pub proof fn lemma_cancel_preserves_wf(pre: ReleaseView, now: u64)
    requires
        release_wf(pre),
    ensures
        release_wf(spec_cancel(pre, now).0),
{
    if !pre.stage.is_terminal() {
        lemma_move_wf(pre, now, Stage::Cancelled);
    }
}

} // verus!
