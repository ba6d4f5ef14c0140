//! The release records, and the operations of the pipeline by release
//! identifier.

use crate::index::{
    entry_views, index_entries, is_sorted, regenerate, release_views, spec_generation,
    IndexResponse,
};
use crate::index_laws::{
    distinct_entries, distinct_versions, lemma_index_is_sorted,
    lemma_index_lists_no_version_twice,
};
use crate::release::{
    release_wf, spec_acquire, spec_action, spec_cancel, spec_complete, spec_renew, spec_submit,
    Action, AdvanceError, Outcome, Release, ReleaseView, Stage, StageEvent, StageEventView,
};
use crate::retry::RetryPolicy;
use crate::types::AppId;
use vstd::prelude::*;
use vstd::string::*;

verus! {

/// Why an operation on the store was refused. A refused operation changes
/// nothing.
#[derive(Debug, Clone, Copy, PartialEq, Eq, Structural)]
pub enum StoreError {
    /// No release has the identifier.
    NotFound,
    /// A release with the identifier exists already.
    DuplicateId,
    /// A release of the same package with the same version code exists
    /// already.
    DuplicateVersion,
    /// The release refused the operation.
    Refused(AdvanceError),
}

/// Some release of the sequence has the identifier.
pub open spec fn has_release(releases: Seq<ReleaseView>, id: u64) -> bool {
    exists|i: int| 0 <= i < releases.len() && (#[trigger] releases[i]).id == id
}

/// Two releases have one identity: the same package and the same version
/// code.
pub open spec fn same_version(a: ReleaseView, b: ReleaseView) -> bool {
    a.package_id == b.package_id && a.version_code == b.version_code
}

/// Some release of the sequence is of the package and has the version code.
pub open spec fn has_version(
    releases: Seq<ReleaseView>,
    package_id: Seq<char>,
    version_code: i64,
) -> bool {
    exists|i: int|
        0 <= i < releases.len() && (#[trigger] releases[i]).package_id == package_id
            && releases[i].version_code == version_code
}

/// Position `i` holds the first release with the identifier.
pub open spec fn is_first_with_id(releases: Seq<ReleaseView>, id: u64, i: int) -> bool {
    &&& 0 <= i < releases.len()
    &&& releases[i].id == id
    &&& forall|j: int| 0 <= j < i ==> (#[trigger] releases[j]).id != id
}

/// The release with the identifier: the first one, if there is any.
pub open spec fn spec_get(releases: Seq<ReleaseView>, id: u64) -> Option<ReleaseView> {
    if has_release(releases, id) {
        Some(releases[choose|i: int| is_first_with_id(releases, id, i)])
    } else {
        None
    }
}

/// The position of the release with the identifier.
pub open spec fn position_of(releases: Seq<ReleaseView>, id: u64) -> int {
    choose|i: int| is_first_with_id(releases, id, i)
}

/// Submitting a release to the store: refused are an identifier that is
/// already in use, and a package and version code that are already stored;
/// otherwise the new record is appended.
pub open spec fn spec_store_submit(
    releases: Seq<ReleaseView>,
    id: u64,
    package_id: Seq<char>,
    version_code: i64,
    version_name: Seq<char>,
    source_ref: Seq<char>,
) -> (Seq<ReleaseView>, Result<(), StoreError>) {
    if has_release(releases, id) {
        (releases, Err(StoreError::DuplicateId))
    } else if has_version(releases, package_id, version_code) {
        (releases, Err(StoreError::DuplicateVersion))
    } else {
        (
            releases.push(spec_submit(id, package_id, version_code, version_name, source_ref)),
            Ok(()),
        )
    }
}

/// Advancing a release of the store: an unknown identifier is not found;
/// where the release refuses the lease, the store stays as it is; otherwise
/// the release holds the lease, and the worker is told the action of its
/// stage and the version to present.
pub open spec fn spec_advance(
    releases: Seq<ReleaseView>,
    id: u64,
    worker: u64,
    now: u64,
    ttl: u64,
) -> (Seq<ReleaseView>, Result<(Action, u64), StoreError>) {
    match spec_get(releases, id) {
        None => (releases, Err(StoreError::NotFound)),
        Some(r) => match spec_acquire(r, worker, now, ttl) {
            Ok(post) => (
                releases.update(position_of(releases, id), post),
                Ok((spec_action(post.stage)->0, post.version)),
            ),
            Err(e) => (releases, Err(StoreError::Refused(e))),
        },
    }
}

/// Renewing the lease on a release of the store.
pub open spec fn spec_store_renew(
    releases: Seq<ReleaseView>,
    id: u64,
    worker: u64,
    now: u64,
    ttl: u64,
) -> (Seq<ReleaseView>, Result<u64, StoreError>) {
    match spec_get(releases, id) {
        None => (releases, Err(StoreError::NotFound)),
        Some(r) => match spec_renew(r, worker, now, ttl) {
            Ok(post) => (releases.update(position_of(releases, id), post), Ok(post.version)),
            Err(e) => (releases, Err(StoreError::Refused(e))),
        },
    }
}

/// Completing the stage of a release of the store.
pub open spec fn spec_store_complete(
    releases: Seq<ReleaseView>,
    id: u64,
    worker: u64,
    now: u64,
    expected_version: u64,
    event: StageEventView,
    policy: RetryPolicy,
) -> (Seq<ReleaseView>, Result<Outcome, StoreError>) {
    match spec_get(releases, id) {
        None => (releases, Err(StoreError::NotFound)),
        Some(r) => {
            let done = spec_complete(r, worker, now, expected_version, event, policy);
            (
                releases.update(position_of(releases, id), done.0),
                match done.1 {
                    Ok(outcome) => Ok(outcome),
                    Err(e) => Err(StoreError::Refused(e)),
                },
            )
        },
    }
}

/// Cancelling a release of the store.
pub open spec fn spec_store_cancel(releases: Seq<ReleaseView>, id: u64, now: u64) -> (
    Seq<ReleaseView>,
    Result<bool, StoreError>,
) {
    match spec_get(releases, id) {
        None => (releases, Err(StoreError::NotFound)),
        Some(r) => (
            releases.update(position_of(releases, id), spec_cancel(r, now).0),
            Ok(spec_cancel(r, now).1),
        ),
    }
}

/// The first release with an identifier is the release with that identifier.
pub proof fn lemma_first_with_id_is_found(releases: Seq<ReleaseView>, id: u64, i: int)
    requires
        is_first_with_id(releases, id, i),
    ensures
        spec_get(releases, id) == Some(releases[i]),
        position_of(releases, id) == i,
{
    let w = choose|w: int| is_first_with_id(releases, id, w);
    if w < i {
        assert(releases[w].id != id);
    } else if i < w {
        assert(releases[i].id != id);
    }
}

/// The filter of a listing: the releases in the given stage, or all
/// releases where no stage is given.
pub open spec fn stage_filter(stage: Option<Stage>) -> spec_fn(ReleaseView) -> bool {
    |r: ReleaseView|
        match stage {
            Some(s) => r.stage == s,
            None => true,
        }
}

/// The identifiers of the releases that the filter lets pass, in order.
pub open spec fn listed_ids(releases: Seq<ReleaseView>, stage: Option<Stage>) -> Seq<u64> {
    releases.filter(stage_filter(stage)).map_values(|r: ReleaseView| r.id)
}

/// Every record satisfies its invariant, no two share an identifier, and no
/// two are of the same package and version code.
pub open spec fn store_wf(releases: Seq<ReleaseView>) -> bool {
    &&& forall|i: int| 0 <= i < releases.len() ==> release_wf(#[trigger] releases[i])
    &&& forall|i: int, j: int|
        0 <= i < j < releases.len() ==> {
            &&& (#[trigger] releases[i]).id != (#[trigger] releases[j]).id
            &&& !same_version(releases[i], releases[j])
        }
}

/// A store that satisfies its invariant holds no package version twice.
pub proof fn lemma_store_holds_no_version_twice(releases: Seq<ReleaseView>)
    requires
        store_wf(releases),
    ensures
        distinct_versions(releases),
{
    assert forall|i: int, j: int| 0 <= i < j < releases.len() implies !((
    #[trigger] releases[i]).package_id == (#[trigger] releases[j]).package_id
        && releases[i].version_code == releases[j].version_code) by {
        assert(!same_version(releases[i], releases[j]));
    }
}

/// The releases of the platform.
#[derive(Debug)]
pub struct ReleaseStore {
    releases: Vec<Release>,
    generation: i64,
}

impl View for ReleaseStore {
    type V = Seq<ReleaseView>;

    closed spec fn view(&self) -> Seq<ReleaseView> {
        release_views(self.releases@)
    }
}

impl ReleaseStore {
    /// The store's invariant.
    pub open spec fn wf(&self) -> bool {
        store_wf(self@)
    }

    /// The generation time of the last index that the store produced.
    pub closed spec fn spec_generation_time(&self) -> i64 {
        self.generation
    }

    /// An empty store.
    pub fn new() -> (store: Self)
        ensures
            store.wf(),
            store@ == Seq::<ReleaseView>::empty(),
            store.spec_generation_time() == 0,
    {
        let store = ReleaseStore { releases: Vec::new(), generation: 0 };
        assert(store@ =~= Seq::<ReleaseView>::empty());
        store
    }

    /// The generation time of the last index that the store produced.
    #[verifier::when_used_as_spec(spec_generation_time)]
    pub fn generation_time(&self) -> (t: i64)
        ensures
            t == self.spec_generation_time(),
    {
        self.generation
    }

    /// Number of releases.
    pub fn len(&self) -> (n: usize)
        ensures
            n == self@.len(),
    {
        self.releases.len()
    }

    /// The release records, in the order of their submission.
    pub fn releases(&self) -> (releases: &Vec<Release>)
        ensures
            release_views(releases@) == self@,
    {
        &self.releases
    }

    fn find(&self, id: u64) -> (position: Option<usize>)
        ensures
            match position {
                Some(i) => is_first_with_id(self@, id, i as int),
                None => !has_release(self@, id),
            },
    {
        let mut i: usize = 0;
        while i < self.releases.len()
            invariant
                i <= self.releases@.len(),
                forall|j: int| 0 <= j < i ==> (#[trigger] self@[j]).id != id,
            decreases self.releases.len() - i,
        {
            assert(self@[i as int] == self.releases@[i as int]@);
            if self.releases[i].id() == id {
                return Some(i);
            }
            i = i + 1;
        }
        None
    }

    fn holds_version(&self, package_id: &AppId, version_code: i64) -> (found: bool)
        ensures
            found == has_version(self@, package_id@, version_code),
    {
        let mut i: usize = 0;
        while i < self.releases.len()
            invariant
                i <= self.releases@.len(),
                forall|j: int|
                    0 <= j < i ==> !((#[trigger] self@[j]).package_id == package_id@
                        && self@[j].version_code == version_code),
            decreases self.releases.len() - i,
        {
            assert(self@[i as int] == self.releases@[i as int]@);
            let release = &self.releases[i];
            if release.version_code() == version_code && release.package_id().0 == package_id.0 {
                return true;
            }
            i = i + 1;
        }
        false
    }

    /// Records a newly submitted release. Refused are an identifier that is
    /// already in use, and a package and version code that are already
    /// stored: a release is known by its package and version code, and its
    /// record is kept for good.
    pub fn submit(
        &mut self,
        id: u64,
        package_id: AppId,
        version_code: i64,
        version_name: String,
        source_ref: String,
    ) -> (result: Result<(), StoreError>)
        ensures
            final(self).spec_generation_time() == old(self).spec_generation_time(),
            old(self).wf() ==> final(self).wf(),
            final(self)@ == spec_store_submit(
                old(self)@,
                id,
                package_id@,
                version_code,
                version_name@,
                source_ref@,
            ).0,
            result == spec_store_submit(
                old(self)@,
                id,
                package_id@,
                version_code,
                version_name@,
                source_ref@,
            ).1,
    {
        match self.find(id) {
            Some(_) => Err(StoreError::DuplicateId),
            None => {
                if self.holds_version(&package_id, version_code) {
                    return Err(StoreError::DuplicateVersion);
                }
                let ghost before = self@;
                let release = Release::submit(
                    id,
                    package_id,
                    version_code,
                    version_name,
                    source_ref,
                );
                self.releases.push(release);
                assert(self@ =~= before.push(release@));
                proof {
                    if store_wf(before) {
                        assert forall|i: int, j: int| 0 <= i < j < self@.len() implies {
                            &&& (#[trigger] self@[i]).id != (#[trigger] self@[j]).id
                            &&& !same_version(self@[i], self@[j])
                        } by {
                            if j == before.len() {
                                assert(before[i].id != id);
                                assert(!(before[i].package_id == package_id@
                                    && before[i].version_code == version_code));
                            }
                        }
                    }
                }
                Ok(())
            },
        }
    }

    /// The release with the identifier, if there is one.
    pub fn get_release(&self, id: u64) -> (release: Option<&Release>)
        ensures
            match release {
                Some(r) => spec_get(self@, id) == Some(r@) && exists|i: int|
                    #[trigger] is_first_with_id(self@, id, i) && self@[i] == r@,
                None => spec_get(self@, id) is None,
            },
    {
        match self.find(id) {
            Some(i) => {
                proof {
                    lemma_first_with_id_is_found(self@, id, i as int);
                }
                assert(self@[i as int] == self.releases@[i as int]@);
                Some(&self.releases[i])
            },
            None => None,
        }
    }

    /// The identifiers of the releases in the given stage, or of all
    /// releases where no stage is given, in the order of their submission.
    pub fn list_releases(&self, stage: Option<Stage>) -> (ids: Vec<u64>)
        ensures
            ids@ == listed_ids(self@, stage),
    {
        let mut ids: Vec<u64> = Vec::new();
        let mut i: usize = 0;
        proof {
            assert(self@.take(0) =~= Seq::<ReleaseView>::empty());
            assert(self@.take(0).filter(stage_filter(stage)) =~= Seq::<ReleaseView>::empty()) by {
                reveal(Seq::filter);
            }
            assert(ids@ =~= listed_ids(self@.take(0), stage));
        }
        while i < self.releases.len()
            invariant
                i <= self.releases@.len(),
                ids@ == listed_ids(self@.take(i as int), stage),
            decreases self.releases.len() - i,
        {
            let release = &self.releases[i];
            proof {
                let next = self@.take(i as int + 1);
                assert(self@[i as int] == self.releases@[i as int]@);
                assert(next.drop_last() =~= self@.take(i as int));
                assert(next.last() == release@);
                reveal(Seq::filter);
            }
            let wanted = match stage {
                Some(s) => release.stage() == s,
                None => true,
            };
            if wanted {
                ids.push(release.id());
            }
            proof {
                let next = self@.take(i as int + 1);
                assert(ids@ =~= listed_ids(next, stage));
            }
            i = i + 1;
        }
        proof {
            assert(self@.take(self@.len() as int) =~= self@);
        }
        ids
    }

    /// Advances a release: takes its lease for `worker`, and tells the worker
    /// what to do for the current stage and which version to present when it
    /// completes the stage.
    pub fn advance(&mut self, id: u64, worker: u64, now: u64, ttl: u64) -> (result: Result<
        (Action, u64),
        StoreError,
    >)
        ensures
            final(self).spec_generation_time() == old(self).spec_generation_time(),
            old(self).wf() ==> final(self).wf(),
            final(self)@.len() == old(self)@.len(),
            final(self)@ == spec_advance(old(self)@, id, worker, now, ttl).0,
            result == spec_advance(old(self)@, id, worker, now, ttl).1,
    {
        match self.find(id) {
            None => Err(StoreError::NotFound),
            Some(i) => {
                let ghost before = self@;
                assert(before[i as int] == self.releases@[i as int]@);
                proof {
                    lemma_first_with_id_is_found(before, id, i as int);
                }
                let mut release = self.releases.remove(i);
                let taken = release.acquire(worker, now, ttl);
                let action = release.next_action();
                let ghost after = release@;
                self.releases.insert(i, release);
                match taken {
                    Ok(version) => {
                        assert(self@ =~= before.update(i as int, after));
                        match action {
                            Some(a) => Ok((a, version)),
                            None => {
                                assert(false);
                                Err(StoreError::NotFound)
                            },
                        }
                    },
                    Err(e) => {
                        assert(self@ =~= before);
                        Err(StoreError::Refused(e))
                    },
                }
            },
        }
    }

    /// Renews the lease that `worker` holds on a release, and returns the
    /// version to present from now on.
    pub fn renew(&mut self, id: u64, worker: u64, now: u64, ttl: u64) -> (result: Result<
        u64,
        StoreError,
    >)
        ensures
            final(self).spec_generation_time() == old(self).spec_generation_time(),
            old(self).wf() ==> final(self).wf(),
            final(self)@.len() == old(self)@.len(),
            final(self)@ == spec_store_renew(old(self)@, id, worker, now, ttl).0,
            result == spec_store_renew(old(self)@, id, worker, now, ttl).1,
    {
        match self.find(id) {
            None => Err(StoreError::NotFound),
            Some(i) => {
                let ghost before = self@;
                assert(before[i as int] == self.releases@[i as int]@);
                proof {
                    lemma_first_with_id_is_found(before, id, i as int);
                }
                let mut release = self.releases.remove(i);
                let renewed = release.renew(worker, now, ttl);
                let ghost after = release@;
                self.releases.insert(i, release);
                match renewed {
                    Ok(version) => {
                        assert(self@ =~= before.update(i as int, after));
                        Ok(version)
                    },
                    Err(e) => {
                        assert(self@ =~= before);
                        Err(StoreError::Refused(e))
                    },
                }
            },
        }
    }

    /// Completes the current stage of a release with the outcome of its
    /// action.
    pub fn complete(
        &mut self,
        id: u64,
        worker: u64,
        now: u64,
        expected_version: u64,
        event: StageEvent,
        policy: &RetryPolicy,
    ) -> (result: Result<Outcome, StoreError>)
        ensures
            final(self).spec_generation_time() == old(self).spec_generation_time(),
            old(self).wf() ==> final(self).wf(),
            final(self)@.len() == old(self)@.len(),
            final(self)@ == spec_store_complete(
                old(self)@,
                id,
                worker,
                now,
                expected_version,
                event@,
                *policy,
            ).0,
            result == spec_store_complete(
                old(self)@,
                id,
                worker,
                now,
                expected_version,
                event@,
                *policy,
            ).1,
    {
        match self.find(id) {
            None => Err(StoreError::NotFound),
            Some(i) => {
                let ghost before = self@;
                assert(before[i as int] == self.releases@[i as int]@);
                proof {
                    lemma_first_with_id_is_found(before, id, i as int);
                }
                let mut release = self.releases.remove(i);
                let done = release.complete(worker, now, expected_version, event, policy);
                let ghost after = release@;
                self.releases.insert(i, release);
                assert(self@ =~= before.update(i as int, after));
                match done {
                    Ok(outcome) => Ok(outcome),
                    Err(e) => Err(StoreError::Refused(e)),
                }
            },
        }
    }

    /// Cancels a release. Returns whether this call cancelled it: a release
    /// that is already terminal ignores the call.
    pub fn cancel(&mut self, id: u64, now: u64) -> (result: Result<bool, StoreError>)
        ensures
            final(self).spec_generation_time() == old(self).spec_generation_time(),
            old(self).wf() ==> final(self).wf(),
            final(self)@.len() == old(self)@.len(),
            final(self)@ == spec_store_cancel(old(self)@, id, now).0,
            result == spec_store_cancel(old(self)@, id, now).1,
    {
        match self.find(id) {
            None => Err(StoreError::NotFound),
            Some(i) => {
                let ghost before = self@;
                assert(before[i as int] == self.releases@[i as int]@);
                proof {
                    lemma_first_with_id_is_found(before, id, i as int);
                }
                let mut release = self.releases.remove(i);
                let cancelled = release.cancel(now);
                let ghost after = release@;
                self.releases.insert(i, release);
                assert(self@ =~= before.update(i as int, after));
                Ok(cancelled)
            },
        }
    }

    /// Regenerates the index at the given time. The releases stay as they
    /// are; the store remembers the generation time, which never runs
    /// backwards. The index of a store is sorted and lists no package
    /// version twice.
    pub fn regenerate_index(&mut self, now: i64) -> (index: IndexResponse)
        ensures
            final(self)@ == old(self)@,
            entry_views(index.entries@) == index_entries(old(self)@),
            is_sorted(entry_views(index.entries@)),
            old(self).wf() ==> distinct_entries(entry_views(index.entries@)),
            index.repo.timestamp == spec_generation(now, old(self).spec_generation_time()),
            final(self).spec_generation_time() == index.repo.timestamp,
            index.repo.name@ == "DK-AppStore"@,
            index.repo.description@ == "Danish sovereign app distribution platform"@,
            index.repo.version == 21,
    {
        let index = regenerate(&self.releases, now, self.generation);
        proof {
            lemma_index_is_sorted(self@);
            if self.wf() {
                lemma_store_holds_no_version_twice(self@);
                lemma_index_lists_no_version_twice(self@);
            }
        }
        self.generation = index.repo.timestamp;
        index
    }
}

} // verus!
