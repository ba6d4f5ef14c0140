//! What holds of every release, in every state that the state machine reaches.

use crate::failure::FailureReason;
use crate::release::{
    holds_lease, lease_expiry, lemma_acquire_preserves_wf, lemma_cancel_preserves_wf,
    lemma_complete_preserves_wf, lemma_renew_preserves_wf, next_version, release_wf,
    spec_acquire, spec_cancel, spec_complete, spec_renew, spec_submit, verdict_is_clean,
    AdvanceError, Lease, Outcome, ReleaseView, Stage, StageEventView,
};
use crate::retry::RetryPolicy;
use vstd::prelude::*;

verus! {

/// Chain of custody: in a published release, the hash that the builds agreed
/// on, the hash that was scanned and the hash that was signed are one hash.
pub proof fn lemma_chain_of_custody(r: ReleaseView)
    requires
        release_wf(r),
        r.stage == Stage::Published,
    ensures
        r.build_hash is Some,
        r.scan_hash == r.build_hash,
        r.signing is Some,
        Some(r.signing->0.hash) == r.build_hash,
        r.signing->0.release_id == r.id,
{
}

/// A release that awaits its signature, is signed or is published, and any
/// release that holds a signing record, was scanned with a verdict that is
/// neither failed nor critical.
pub proof fn lemma_signing_needs_clean_scan(r: ReleaseView)
    requires
        release_wf(r),
        r.stage == Stage::AwaitingSignature || r.stage == Stage::Signed || r.stage
            == Stage::Published || r.signing is Some,
    ensures
        r.scan_verdict is Some,
        verdict_is_clean(r.scan_verdict->0),
        r.scan_hash == r.build_hash,
{
}

/// The only way into `AwaitingSignature` is a scan of the built hash that
/// came back clean.
pub proof fn lemma_entering_signature_needs_clean_verdict(
    pre: ReleaseView,
    worker: u64,
    now: u64,
    expected_version: u64,
    event: StageEventView,
    policy: RetryPolicy,
)
    requires
        pre.stage != Stage::AwaitingSignature,
        spec_complete(pre, worker, now, expected_version, event, policy).0.stage
            == Stage::AwaitingSignature,
    ensures
        pre.stage == Stage::Scanning,
        event matches StageEventView::Scanned { hash, verdict } && verdict_is_clean(verdict)
            && pre.build_hash == Some(hash),
{
}

/// The only way into `Signed` is a signing record for this release and for
/// the built hash, on a release that awaits its signature.
pub proof fn lemma_entering_signed_needs_matching_record(
    pre: ReleaseView,
    worker: u64,
    now: u64,
    expected_version: u64,
    event: StageEventView,
    policy: RetryPolicy,
)
    requires
        pre.stage != Stage::Signed,
        spec_complete(pre, worker, now, expected_version, event, policy).0.stage == Stage::Signed,
    ensures
        pre.stage == Stage::AwaitingSignature,
        event matches StageEventView::Signed(record) && record.release_id == pre.id
            && pre.build_hash == Some(record.hash),
{
}

/// A stage's completion leaves the stage as it is, moves it one stage
/// forward, or fails the release; it never moves it back.
pub proof fn lemma_stage_only_advances(
    pre: ReleaseView,
    worker: u64,
    now: u64,
    expected_version: u64,
    event: StageEventView,
    policy: RetryPolicy,
)
    ensures
        ({
            let post = spec_complete(pre, worker, now, expected_version, event, policy).0;
            post.stage == pre.stage || post.stage == Stage::Failed || post.stage.order()
                == pre.stage.order() + 1
        }),
{
}

/// Terminal stages absorb: a terminal release refuses the lease, ignores
/// every completion and every cancellation, and stays exactly as it is.
pub proof fn lemma_terminal_absorbs(
    pre: ReleaseView,
    worker: u64,
    now: u64,
    ttl: u64,
    expected_version: u64,
    event: StageEventView,
    policy: RetryPolicy,
)
    requires
        pre.stage.is_terminal(),
    ensures
        spec_acquire(pre, worker, now, ttl) == Err::<ReleaseView, AdvanceError>(
            AdvanceError::Terminal,
        ),
        spec_renew(pre, worker, now, ttl) == Err::<ReleaseView, AdvanceError>(
            AdvanceError::Terminal,
        ),
        spec_complete(pre, worker, now, expected_version, event, policy) == (
            pre,
            Ok::<Outcome, AdvanceError>(Outcome::Ignored),
        ),
        spec_cancel(pre, now) == (pre, false),
{
}

/// A failed release is never published: whatever is done to it, it stays
/// failed, with the reason it failed for.
pub proof fn lemma_failed_is_never_published(
    pre: ReleaseView,
    worker: u64,
    now: u64,
    expected_version: u64,
    event: StageEventView,
    policy: RetryPolicy,
)
    requires
        pre.stage == Stage::Failed,
    ensures
        spec_complete(pre, worker, now, expected_version, event, policy).0 == pre,
        spec_cancel(pre, now).0 == pre,
{
}

/// A fatal failure of a stage fails the release with that reason, whatever
/// the stage, and gives the lease back.
pub proof fn lemma_fatal_event_fails_release(
    pre: ReleaseView,
    worker: u64,
    now: u64,
    reason: FailureReason,
    policy: RetryPolicy,
)
    requires
        !pre.stage.is_terminal(),
        holds_lease(pre.lease, worker, now),
    ensures
        ({
            let done = spec_complete(
                pre,
                worker,
                now,
                pre.version,
                StageEventView::Fatal(reason),
                policy,
            );
            &&& done.1 == Ok::<Outcome, AdvanceError>(Outcome::Failed(reason))
            &&& done.0.stage == Stage::Failed
            &&& done.0.failure == Some(reason)
            &&& done.0.lease is None
            &&& done.0.signing == pre.signing
        }),
{
}

/// A retryable failure is retried while the stage's budget lasts; with the
/// budget used up it fails the release with the last error as its reason.
/// Either way the lease is given back.
pub proof fn lemma_retries_are_bounded(
    pre: ReleaseView,
    worker: u64,
    now: u64,
    reason: FailureReason,
    policy: RetryPolicy,
)
    requires
        !pre.stage.is_terminal(),
        holds_lease(pre.lease, worker, now),
    ensures
        ({
            let done = spec_complete(
                pre,
                worker,
                now,
                pre.version,
                StageEventView::Retryable(reason),
                policy,
            );
            &&& done.0.lease is None
            &&& if pre.retries < policy.max_retries {
                &&& done.1 == Ok::<Outcome, AdvanceError>(
                    Outcome::RetryAfter(policy.spec_delay(pre.retries) as u64),
                )
                &&& done.0.stage == pre.stage
                &&& done.0.retries == pre.retries + 1
            } else {
                &&& done.1 == Ok::<Outcome, AdvanceError>(Outcome::Failed(reason))
                &&& done.0.stage == Stage::Failed
                &&& done.0.failure == Some(reason)
            }
        }),
{
}

/// Cancelling is idempotent and immediate: a release that is not terminal
/// is cancelled whoever holds the lease, a second cancellation changes
/// nothing, and a completion that arrives afterwards is ignored.
pub proof fn lemma_cancel_is_idempotent(
    pre: ReleaseView,
    now: u64,
    later: u64,
    worker: u64,
    expected_version: u64,
    event: StageEventView,
    policy: RetryPolicy,
)
    requires
        !pre.stage.is_terminal(),
    ensures
        ({
            let cancelled = spec_cancel(pre, now).0;
            &&& cancelled.stage == Stage::Cancelled
            &&& cancelled.lease is None
            &&& spec_cancel(cancelled, later) == (cancelled, false)
            &&& spec_complete(cancelled, worker, later, expected_version, event, policy) == (
                cancelled,
                Ok::<Outcome, AdvanceError>(Outcome::Ignored),
            )
        }),
{
}

/// The lease is exclusive: once a worker has taken it, another worker that
/// comes before it expires is told `LeaseHeld`, and nothing that this other
/// worker tries changes the release.
pub proof fn lemma_lease_is_exclusive(
    pre: ReleaseView,
    first: u64,
    second: u64,
    now: u64,
    later: u64,
    ttl: u64,
    second_ttl: u64,
    expected_version: u64,
    event: StageEventView,
    policy: RetryPolicy,
)
    requires
        first != second,
        spec_acquire(pre, first, now, ttl) is Ok,
        later <= lease_expiry(now, ttl),
    ensures
        ({
            let held = spec_acquire(pre, first, now, ttl)->Ok_0;
            &&& held.lease == Some(Lease { holder: first, expires_at: lease_expiry(now, ttl) })
            &&& spec_acquire(held, second, later, second_ttl) == Err::<ReleaseView, AdvanceError>(
                AdvanceError::LeaseHeld,
            )
            &&& spec_renew(held, second, later, second_ttl) == Err::<ReleaseView, AdvanceError>(
                AdvanceError::LeaseLost,
            )
            &&& spec_complete(held, second, later, expected_version, event, policy).0 == held
            &&& spec_complete(held, second, later, expected_version, event, policy).1 is Err
        }),
{
}

/// A lease that has run out is reclaimed: any worker may take it, the stage
/// is as the crashed worker left it, and a write that the crashed worker
/// makes afterwards, with the version it knew, is refused and changes nothing.
pub proof fn lemma_expired_lease_is_reclaimed(
    pre: ReleaseView,
    crashed: u64,
    rescuer: u64,
    now: u64,
    later: u64,
    ttl: u64,
    event: StageEventView,
    policy: RetryPolicy,
)
    requires
        !pre.stage.is_terminal(),
        pre.lease matches Some(lease) && lease.holder == crashed && now > lease.expires_at,
    ensures
        ({
            let taken = spec_acquire(pre, rescuer, now, ttl);
            &&& taken is Ok
            &&& taken->Ok_0.lease == Some(
                Lease { holder: rescuer, expires_at: lease_expiry(now, ttl) },
            )
            &&& taken->Ok_0.stage == pre.stage
            &&& taken->Ok_0.version == next_version(pre.version)
            &&& spec_complete(taken->Ok_0, crashed, later, pre.version, event, policy) == (
                taken->Ok_0,
                Err::<Outcome, AdvanceError>(AdvanceError::VersionConflict),
            )
        }),
{
}

/// A release reaches at most one terminal stage: only the last transition
/// of its history can lead to a terminal stage.
pub proof fn lemma_one_terminal_transition(r: ReleaseView, i: int)
    requires
        release_wf(r),
        0 <= i < r.history.len() - 1,
    ensures
        !r.history[i].to.is_terminal(),
{
    assert(r.history[i].to == r.history[i + 1].from);
}

/// A release is published at most once: its history holds at most one
/// transition to `Published`, the last one, and then the release is published.
pub proof fn lemma_published_at_most_once(r: ReleaseView, i: int)
    requires
        release_wf(r),
        0 <= i < r.history.len(),
        r.history[i].to == Stage::Published,
    ensures
        i == r.history.len() - 1,
        r.stage == Stage::Published,
{
    if i < r.history.len() - 1 {
        lemma_one_terminal_transition(r, i);
    }
}

/// One operation on a release, with its arguments.
pub enum Operation {
    Acquire { worker: u64, now: u64, ttl: u64 },
    Renew { worker: u64, now: u64, ttl: u64 },
    Complete {
        worker: u64,
        now: u64,
        expected_version: u64,
        event: StageEventView,
        policy: RetryPolicy,
    },
    Cancel { now: u64 },
}

/// The release after an operation; a refused operation leaves it as it is.
pub open spec fn spec_perform(pre: ReleaseView, op: Operation) -> ReleaseView {
    match op {
        Operation::Acquire { worker, now, ttl } => match spec_acquire(pre, worker, now, ttl) {
            Ok(post) => post,
            Err(_) => pre,
        },
        Operation::Renew { worker, now, ttl } => match spec_renew(pre, worker, now, ttl) {
            Ok(post) => post,
            Err(_) => pre,
        },
        Operation::Complete { worker, now, expected_version, event, policy } => spec_complete(
            pre,
            worker,
            now,
            expected_version,
            event,
            policy,
        ).0,
        Operation::Cancel { now } => spec_cancel(pre, now).0,
    }
}

/// The release after a sequence of operations, performed in order.
pub open spec fn spec_run(start: ReleaseView, ops: Seq<Operation>) -> ReleaseView
    decreases ops.len(),
{
    if ops.len() == 0 {
        start
    } else {
        spec_perform(spec_run(start, ops.drop_last()), ops.last())
    }
}

/// Every operation keeps the invariant.
pub proof fn lemma_perform_preserves_wf(pre: ReleaseView, op: Operation)
    requires
        release_wf(pre),
    ensures
        release_wf(spec_perform(pre, op)),
{
    match op {
        Operation::Acquire { worker, now, ttl } => {
            lemma_acquire_preserves_wf(pre, worker, now, ttl);
        },
        Operation::Renew { worker, now, ttl } => {
            lemma_renew_preserves_wf(pre, worker, now, ttl);
        },
        Operation::Complete { worker, now, expected_version, event, policy } => {
            lemma_complete_preserves_wf(pre, worker, now, expected_version, event, policy);
        },
        Operation::Cancel { now } => {
            lemma_cancel_preserves_wf(pre, now);
        },
    }
}

/// Whatever is done to a release from its submission on, in whatever order
/// and by whichever workers, it satisfies the invariant.
pub proof fn lemma_every_reachable_release_is_wf(
    id: u64,
    package_id: Seq<char>,
    version_code: i64,
    version_name: Seq<char>,
    source_ref: Seq<char>,
    ops: Seq<Operation>,
)
    ensures
        release_wf(
            spec_run(spec_submit(id, package_id, version_code, version_name, source_ref), ops),
        ),
    decreases ops.len(),
{
    if ops.len() > 0 {
        lemma_every_reachable_release_is_wf(
            id,
            package_id,
            version_code,
            version_name,
            source_ref,
            ops.drop_last(),
        );
        lemma_perform_preserves_wf(
            spec_run(
                spec_submit(id, package_id, version_code, version_name, source_ref),
                ops.drop_last(),
            ),
            ops.last(),
        );
    }
}

/// Chain of custody on every path: however a release has reached
/// `Published`, the hash that was built, the hash that was scanned and the
/// hash that was signed are one hash, and the scan came back clean.
pub proof fn lemma_custody_on_every_path(
    id: u64,
    package_id: Seq<char>,
    version_code: i64,
    version_name: Seq<char>,
    source_ref: Seq<char>,
    ops: Seq<Operation>,
)
    ensures
        ({
            let r = spec_run(
                spec_submit(id, package_id, version_code, version_name, source_ref),
                ops,
            );
            r.stage == Stage::Published ==> {
                &&& r.build_hash is Some
                &&& r.scan_hash == r.build_hash
                &&& r.signing is Some
                &&& Some(r.signing->0.hash) == r.build_hash
                &&& r.scan_verdict is Some
                &&& verdict_is_clean(r.scan_verdict->0)
            }
        }),
{
    lemma_every_reachable_release_is_wf(
        id,
        package_id,
        version_code,
        version_name,
        source_ref,
        ops,
    );
}

/// A terminal state is final on every path: once a release is published,
/// failed or cancelled, no sequence of operations changes it. So a release
/// reaches one terminal state at most, and a failed release is never
/// published.
pub proof fn lemma_terminal_is_final_on_every_path(terminal: ReleaseView, ops: Seq<Operation>)
    requires
        terminal.stage.is_terminal(),
    ensures
        spec_run(terminal, ops) == terminal,
    decreases ops.len(),
{
    if ops.len() > 0 {
        lemma_terminal_is_final_on_every_path(terminal, ops.drop_last());
    }
}

} // verus!
