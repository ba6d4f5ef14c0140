//! What holds of every store of releases, however it was reached.

use crate::index::index_entries;
use crate::index_laws::{
    distinct_entries, lemma_index_lists_exactly_published, lemma_index_lists_no_version_twice,
};
use crate::release::{
    lease_expiry, lemma_acquire_preserves_wf, lemma_cancel_preserves_wf,
    lemma_complete_preserves_wf, lemma_renew_preserves_wf, lemma_submit_wf, release_wf,
    spec_acquire, spec_cancel, spec_complete, spec_renew, verdict_is_clean, Action,
    AdvanceError, Lease, Outcome, ReleaseView, Stage, StageEventView,
};
use crate::release_laws::{lemma_expired_lease_is_reclaimed, lemma_lease_is_exclusive};
use crate::retry::RetryPolicy;
use crate::store::{
    has_release, is_first_with_id, lemma_first_with_id_is_found,
    lemma_store_holds_no_version_twice, position_of, same_version, spec_advance, spec_get,
    spec_store_cancel, spec_store_complete, spec_store_renew, spec_store_submit, store_wf,
    StoreError,
};
use vstd::prelude::*;

verus! {

proof fn lemma_first_exists(releases: Seq<ReleaseView>, id: u64, k: int)
    requires
        0 <= k < releases.len(),
        releases[k].id == id,
    ensures
        is_first_with_id(releases, id, position_of(releases, id)),
    decreases k,
{
    if forall|j: int| 0 <= j < k ==> (#[trigger] releases[j]).id != id {
        assert(is_first_with_id(releases, id, k));
    } else {
        let j = choose|j: int| 0 <= j < k && (#[trigger] releases[j]).id == id;
        lemma_first_exists(releases, id, j);
    }
}

/// A release that the store holds is found at its position, under its
/// identifier.
pub proof fn lemma_stored_release_is_found(releases: Seq<ReleaseView>, id: u64)
    requires
        has_release(releases, id),
    ensures
        is_first_with_id(releases, id, position_of(releases, id)),
        spec_get(releases, id) == Some(releases[position_of(releases, id)]),
{
    let k = choose|k: int| 0 <= k < releases.len() && (#[trigger] releases[k]).id == id;
    lemma_first_exists(releases, id, k);
}

proof fn lemma_update_keeps_wf(releases: Seq<ReleaseView>, i: int, post: ReleaseView)
    requires
        store_wf(releases),
        0 <= i < releases.len(),
        release_wf(post),
        post.id == releases[i].id,
        same_version(post, releases[i]),
    ensures
        store_wf(releases.update(i, post)),
{
    let after = releases.update(i, post);
    assert forall|a: int, b: int| 0 <= a < b < after.len() implies {
        &&& (#[trigger] after[a]).id != (#[trigger] after[b]).id
        &&& !same_version(after[a], after[b])
    } by {
        assert(releases[a].id != releases[b].id);
        assert(!same_version(releases[a], releases[b]));
    }
}

/// One operation on a store, with its arguments.
pub enum StoreOperation {
    Submit {
        id: u64,
        package_id: Seq<char>,
        version_code: i64,
        version_name: Seq<char>,
        source_ref: Seq<char>,
    },
    Advance { id: u64, worker: u64, now: u64, ttl: u64 },
    Renew { id: u64, worker: u64, now: u64, ttl: u64 },
    Complete {
        id: u64,
        worker: u64,
        now: u64,
        expected_version: u64,
        event: StageEventView,
        policy: RetryPolicy,
    },
    Cancel { id: u64, now: u64 },
}

/// The store after an operation; a refused operation leaves it as it is.
pub open spec fn spec_store_perform(releases: Seq<ReleaseView>, op: StoreOperation) -> Seq<
    ReleaseView,
> {
    match op {
        StoreOperation::Submit { id, package_id, version_code, version_name, source_ref } => {
            spec_store_submit(releases, id, package_id, version_code, version_name, source_ref).0
        },
        StoreOperation::Advance { id, worker, now, ttl } => spec_advance(
            releases,
            id,
            worker,
            now,
            ttl,
        ).0,
        StoreOperation::Renew { id, worker, now, ttl } => spec_store_renew(
            releases,
            id,
            worker,
            now,
            ttl,
        ).0,
        StoreOperation::Complete { id, worker, now, expected_version, event, policy } => {
            spec_store_complete(releases, id, worker, now, expected_version, event, policy).0
        },
        StoreOperation::Cancel { id, now } => spec_store_cancel(releases, id, now).0,
    }
}

/// The store after a sequence of operations on the empty store.
pub open spec fn spec_store_run(ops: Seq<StoreOperation>) -> Seq<ReleaseView>
    decreases ops.len(),
{
    if ops.len() == 0 {
        Seq::empty()
    } else {
        spec_store_perform(spec_store_run(ops.drop_last()), ops.last())
    }
}

/// Every operation keeps the store's invariant.
pub proof fn lemma_store_perform_preserves_wf(releases: Seq<ReleaseView>, op: StoreOperation)
    requires
        store_wf(releases),
    ensures
        store_wf(spec_store_perform(releases, op)),
{
    match op {
        StoreOperation::Submit { id, package_id, version_code, version_name, source_ref } => {
            let after = spec_store_perform(releases, op);
            if after != releases {
                lemma_submit_wf(id, package_id, version_code, version_name, source_ref);
                assert forall|a: int, b: int| 0 <= a < b < after.len() implies {
                    &&& (#[trigger] after[a]).id != (#[trigger] after[b]).id
                    &&& !same_version(after[a], after[b])
                } by {
                    if b < releases.len() {
                        assert(releases[a].id != releases[b].id);
                        assert(!same_version(releases[a], releases[b]));
                    } else {
                        assert(releases[a].id != id);
                        assert(!(releases[a].package_id == package_id && releases[a].version_code
                            == version_code));
                    }
                }
            }
        },
        StoreOperation::Advance { id, worker, now, ttl } => {
            if has_release(releases, id) {
                lemma_stored_release_is_found(releases, id);
                let p = position_of(releases, id);
                lemma_acquire_preserves_wf(releases[p], worker, now, ttl);
                if spec_acquire(releases[p], worker, now, ttl) is Ok {
                    lemma_update_keeps_wf(
                        releases,
                        p,
                        spec_acquire(releases[p], worker, now, ttl)->Ok_0,
                    );
                }
            }
        },
        StoreOperation::Renew { id, worker, now, ttl } => {
            if has_release(releases, id) {
                lemma_stored_release_is_found(releases, id);
                let p = position_of(releases, id);
                lemma_renew_preserves_wf(releases[p], worker, now, ttl);
                if spec_renew(releases[p], worker, now, ttl) is Ok {
                    lemma_update_keeps_wf(
                        releases,
                        p,
                        spec_renew(releases[p], worker, now, ttl)->Ok_0,
                    );
                }
            }
        },
        StoreOperation::Complete { id, worker, now, expected_version, event, policy } => {
            if has_release(releases, id) {
                lemma_stored_release_is_found(releases, id);
                let p = position_of(releases, id);
                lemma_complete_preserves_wf(
                    releases[p],
                    worker,
                    now,
                    expected_version,
                    event,
                    policy,
                );
                lemma_update_keeps_wf(
                    releases,
                    p,
                    spec_complete(releases[p], worker, now, expected_version, event, policy).0,
                );
            }
        },
        StoreOperation::Cancel { id, now } => {
            if has_release(releases, id) {
                lemma_stored_release_is_found(releases, id);
                let p = position_of(releases, id);
                lemma_cancel_preserves_wf(releases[p], now);
                lemma_update_keeps_wf(releases, p, spec_cancel(releases[p], now).0);
            }
        },
    }
}

/// Whatever is done to a store from the empty store on, in whatever order
/// and by whichever workers, it satisfies its invariant.
pub proof fn lemma_every_reachable_store_is_wf(ops: Seq<StoreOperation>)
    ensures
        store_wf(spec_store_run(ops)),
    decreases ops.len(),
{
    if ops.len() > 0 {
        lemma_every_reachable_store_is_wf(ops.drop_last());
        lemma_store_perform_preserves_wf(spec_store_run(ops.drop_last()), ops.last());
    }
}

/// In every store that can be reached, a release that awaits its signature,
/// is signed or is published was scanned clean, and the hash that was
/// scanned is the hash that was built; a published one is signed, for that
/// very hash.
pub proof fn lemma_reachable_releases_keep_custody(ops: Seq<StoreOperation>, i: int)
    requires
        0 <= i < spec_store_run(ops).len(),
    ensures
        ({
            let r = spec_store_run(ops)[i];
            &&& r.stage == Stage::AwaitingSignature || r.stage == Stage::Signed || r.stage
                == Stage::Published || r.signing is Some ==> {
                &&& r.scan_verdict is Some
                &&& verdict_is_clean(r.scan_verdict->0)
                &&& r.scan_hash == r.build_hash
                &&& r.build_hash is Some
            }
            &&& r.stage == Stage::Published ==> r.signing is Some && Some(r.signing->0.hash)
                == r.build_hash
            &&& r.stage == Stage::Failed ==> r.failure is Some
        }),
{
    lemma_every_reachable_store_is_wf(ops);
}

/// In every store that can be reached, the index lists exactly the
/// published releases, each once: no entry belongs to a release that is not
/// published, and no package version is listed twice.
pub proof fn lemma_reachable_index_lists_published_once(ops: Seq<StoreOperation>, k: int)
    requires
        0 <= k < index_entries(spec_store_run(ops)).len(),
    ensures
        distinct_entries(index_entries(spec_store_run(ops))),
        exists|i: int|
            0 <= i < spec_store_run(ops).len() && (#[trigger] spec_store_run(ops)[i]).stage
                == Stage::Published && spec_store_run(ops)[i].id == index_entries(
                spec_store_run(ops),
            )[k].release_id,
{
    let releases = spec_store_run(ops);
    let index = index_entries(releases);
    lemma_every_reachable_store_is_wf(ops);
    lemma_store_holds_no_version_twice(releases);
    lemma_index_lists_no_version_twice(releases);
    lemma_index_lists_exactly_published(releases, index[k]);
    assert(index.contains(index[k]));
}

/// Two workers race for one release of the store: the one that comes first
/// gets the lease; the other, coming before the lease runs out, is told
/// `LeaseHeld`, and neither its advance nor anything it completes or renews
/// changes the store.
pub proof fn lemma_store_lease_is_exclusive(
    releases: Seq<ReleaseView>,
    id: u64,
    first: u64,
    second: u64,
    now: u64,
    later: u64,
    ttl: u64,
    second_ttl: u64,
    expected_version: u64,
    event: StageEventView,
    policy: RetryPolicy,
)
    requires
        first != second,
        spec_advance(releases, id, first, now, ttl).1 is Ok,
        later <= lease_expiry(now, ttl),
    ensures
        ({
            let held = spec_advance(releases, id, first, now, ttl).0;
            &&& spec_get(held, id) is Some
            &&& spec_get(held, id)->0.lease == Some(
                Lease { holder: first, expires_at: lease_expiry(now, ttl) },
            )
            &&& spec_advance(held, id, second, later, second_ttl) == (
                held,
                Err::<(Action, u64), StoreError>(
                    StoreError::Refused(AdvanceError::LeaseHeld),
                ),
            )
            &&& spec_store_renew(held, id, second, later, second_ttl).0 == held
            &&& spec_store_complete(held, id, second, later, expected_version, event, policy).0
                == held
            &&& spec_store_complete(held, id, second, later, expected_version, event, policy).1
                is Err
        }),
{
    lemma_stored_release_is_found(releases, id);
    let p = position_of(releases, id);
    let pre = releases[p];
    let post = spec_acquire(pre, first, now, ttl)->Ok_0;
    let held = releases.update(p, post);
    assert(is_first_with_id(held, id, p)) by {
        assert forall|j: int| 0 <= j < p implies (#[trigger] held[j]).id != id by {
            assert(held[j] == releases[j]);
        }
    }
    lemma_first_with_id_is_found(held, id, p);
    lemma_lease_is_exclusive(
        pre,
        first,
        second,
        now,
        later,
        ttl,
        second_ttl,
        expected_version,
        event,
        policy,
    );
    assert(held.update(p, post) =~= held);
}

/// A worker crashed while it held the lease of a release. Once the lease
/// has run out, another worker's advance takes it, at the stage that the
/// crashed worker left; and what the crashed worker writes afterwards, with
/// the version it knew, is refused and changes nothing.
pub proof fn lemma_store_expired_lease_is_reclaimed(
    releases: Seq<ReleaseView>,
    id: u64,
    crashed: u64,
    rescuer: u64,
    now: u64,
    later: u64,
    ttl: u64,
    event: StageEventView,
    policy: RetryPolicy,
)
    requires
        spec_get(releases, id) is Some,
        !spec_get(releases, id)->0.stage.is_terminal(),
        spec_get(releases, id)->0.lease is Some,
        spec_get(releases, id)->0.lease->0.holder == crashed,
        now > spec_get(releases, id)->0.lease->0.expires_at,
    ensures
        ({
            let pre = spec_get(releases, id)->0;
            let taken = spec_advance(releases, id, rescuer, now, ttl);
            &&& taken.1 is Ok
            &&& spec_get(taken.0, id) is Some
            &&& spec_get(taken.0, id)->0.lease == Some(
                Lease { holder: rescuer, expires_at: lease_expiry(now, ttl) },
            )
            &&& spec_get(taken.0, id)->0.stage == pre.stage
            &&& spec_store_complete(taken.0, id, crashed, later, pre.version, event, policy) == (
                taken.0,
                Err::<Outcome, StoreError>(
                    StoreError::Refused(AdvanceError::VersionConflict),
                ),
            )
        }),
{
    lemma_stored_release_is_found(releases, id);
    let p = position_of(releases, id);
    let pre = releases[p];
    lemma_expired_lease_is_reclaimed(pre, crashed, rescuer, now, later, ttl, event, policy);
    let post = spec_acquire(pre, rescuer, now, ttl)->Ok_0;
    let taken = releases.update(p, post);
    assert(is_first_with_id(taken, id, p)) by {
        assert forall|j: int| 0 <= j < p implies (#[trigger] taken[j]).id != id by {
            assert(taken[j] == releases[j]);
        }
    }
    lemma_first_with_id_is_found(taken, id, p);
    assert(taken.update(p, post) =~= taken);
}

/// Releases are processed independently: an operation on one release leaves
/// every other release of the store as it is.
pub proof fn lemma_operations_touch_one_release(
    releases: Seq<ReleaseView>,
    op: StoreOperation,
    i: int,
)
    requires
        0 <= i < releases.len(),
        match op {
            StoreOperation::Submit { .. } => true,
            StoreOperation::Advance { id, .. } => releases[i].id != id,
            StoreOperation::Renew { id, .. } => releases[i].id != id,
            StoreOperation::Complete { id, .. } => releases[i].id != id,
            StoreOperation::Cancel { id, .. } => releases[i].id != id,
        },
    ensures
        i < spec_store_perform(releases, op).len(),
        spec_store_perform(releases, op)[i] == releases[i],
{
    match op {
        StoreOperation::Submit { .. } => {},
        StoreOperation::Advance { id, .. } => {
            if has_release(releases, id) {
                lemma_stored_release_is_found(releases, id);
            }
        },
        StoreOperation::Renew { id, .. } => {
            if has_release(releases, id) {
                lemma_stored_release_is_found(releases, id);
            }
        },
        StoreOperation::Complete { id, .. } => {
            if has_release(releases, id) {
                lemma_stored_release_is_found(releases, id);
            }
        },
        StoreOperation::Cancel { id, .. } => {
            if has_release(releases, id) {
                lemma_stored_release_is_found(releases, id);
            }
        },
    }
}

} // verus!
