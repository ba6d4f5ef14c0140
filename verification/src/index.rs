//! Index publisher: projects the published releases into the distribution
//! index, in a fixed order.

use crate::release::{Release, ReleaseView, Stage};
use crate::text::{text_before, text_less};
use vstd::prelude::*;
use vstd::string::*;

verus! {

/// One published release, as the index lists it.
#[derive(Debug)]
pub struct IndexEntry {
    pub release_id: u64,
    pub package_id: String,
    pub version_code: i64,
    pub version_name: String,
    /// The verified hash of the artifact.
    pub hash: String,
    /// The key that signed the artifact.
    pub key_id: String,
    /// The detached signature.
    pub signature: Vec<u8>,
}

/// The plain content of an index entry.
pub struct IndexEntryView {
    pub release_id: u64,
    pub package_id: Seq<char>,
    pub version_code: i64,
    pub version_name: Seq<char>,
    pub hash: Seq<char>,
    pub key_id: Seq<char>,
    pub signature: Seq<u8>,
}

impl View for IndexEntry {
    type V = IndexEntryView;

    open spec fn view(&self) -> IndexEntryView {
        IndexEntryView {
            release_id: self.release_id,
            package_id: self.package_id@,
            version_code: self.version_code,
            version_name: self.version_name@,
            hash: self.hash@,
            key_id: self.key_id@,
            signature: self.signature@,
        }
    }
}

/// Repository information.
#[derive(Debug)]
pub struct RepoInfo {
    pub name: String,
    pub description: String,
    /// When the index was generated, in seconds since the Unix epoch.
    pub timestamp: i64,
    /// Version of the index format.
    pub version: i32,
}

/// The distribution index.
#[derive(Debug)]
pub struct IndexResponse {
    pub repo: RepoInfo,
    /// The published releases, by package identifier, then version code.
    pub entries: Vec<IndexEntry>,
}

/// The content of each release of a sequence.
pub open spec fn release_views(releases: Seq<Release>) -> Seq<ReleaseView> {
    releases.map_values(|r: Release| r@)
}

/// The content of each entry of a sequence.
pub open spec fn entry_views(entries: Seq<IndexEntry>) -> Seq<IndexEntryView> {
    entries.map_values(|e: IndexEntry| e@)
}

/// The entry that a release contributes: its identity, its verified hash and
/// its signature.
pub open spec fn project(r: ReleaseView) -> IndexEntryView {
    IndexEntryView {
        release_id: r.id,
        package_id: r.package_id,
        version_code: r.version_code,
        version_name: r.version_name,
        hash: match r.build_hash {
            Some(h) => h,
            None => Seq::empty(),
        },
        key_id: match r.signing {
            Some(record) => record.key_id,
            None => Seq::empty(),
        },
        signature: match r.signing {
            Some(record) => record.signature,
            None => Seq::empty(),
        },
    }
}

/// The order of the index: by package identifier, then by version code.
pub open spec fn entry_le(a: IndexEntryView, b: IndexEntryView) -> bool {
    text_less(a.package_id, b.package_id) || (!text_less(b.package_id, a.package_id)
        && a.version_code <= b.version_code)
}

/// Every entry stands before or beside each entry that follows it.
pub open spec fn is_sorted(entries: Seq<IndexEntryView>) -> bool {
    forall|i: int, j: int|
        0 <= i < j < entries.len() ==> entry_le(#[trigger] entries[i], #[trigger] entries[j])
}

/// Puts an entry into a sorted sequence, behind every entry that does not
/// come after it.
pub open spec fn insert_sorted(sorted: Seq<IndexEntryView>, e: IndexEntryView) -> Seq<
    IndexEntryView,
>
    decreases sorted.len(),
{
    if sorted.len() == 0 {
        seq![e]
    } else if entry_le(sorted.last(), e) {
        sorted.push(e)
    } else {
        insert_sorted(sorted.drop_last(), e).push(sorted.last())
    }
}

/// The entries of the index: one for each published release, in order.
/// Releases with equal keys keep the order in which they are given.
pub open spec fn index_entries(releases: Seq<ReleaseView>) -> Seq<IndexEntryView>
    decreases releases.len(),
{
    if releases.len() == 0 {
        Seq::empty()
    } else {
        let rest = index_entries(releases.drop_last());
        if releases.last().stage == Stage::Published {
            insert_sorted(rest, project(releases.last()))
        } else {
            rest
        }
    }
}

/// The generation time of an index: the current time, but never earlier than
/// that of the index before it.
pub open spec fn spec_generation(now: i64, previous: i64) -> i64 {
    if now > previous {
        now
    } else {
        previous
    }
}

proof fn lemma_insert_position(sorted: Seq<IndexEntryView>, e: IndexEntryView, p: int)
    requires
        0 <= p <= sorted.len(),
        forall|j: int| p <= j < sorted.len() ==> !entry_le(#[trigger] sorted[j], e),
        p > 0 ==> entry_le(sorted[p - 1], e),
    ensures
        insert_sorted(sorted, e) == sorted.insert(p, e),
    decreases sorted.len(),
{
    if sorted.len() == 0 {
        assert(seq![e] =~= sorted.insert(p, e));
    } else if p == sorted.len() {
        assert(sorted.push(e) =~= sorted.insert(p, e));
    } else {
        assert(!entry_le(sorted[sorted.len() - 1], e));
        let front = sorted.drop_last();
        assert forall|j: int| p <= j < front.len() implies !entry_le(#[trigger] front[j], e) by {
            assert(front[j] == sorted[j]);
        }
        lemma_insert_position(front, e, p);
        assert(front.insert(p, e).push(sorted.last()) =~= sorted.insert(p, e));
    }
}

/// Whether `a` stands before or beside `b` in the order of the index.
pub fn entry_before_or_beside(a: &IndexEntry, b: &IndexEntry) -> (le: bool)
    ensures
        le == entry_le(a@, b@),
{
    if text_before(a.package_id.as_str(), b.package_id.as_str()) {
        true
    } else if text_before(b.package_id.as_str(), a.package_id.as_str()) {
        false
    } else {
        a.version_code <= b.version_code
    }
}

/// The entry that a release contributes to the index.
pub fn entry_for(release: &Release) -> (entry: IndexEntry)
    ensures
        entry@ == project(release@),
{
    let hash = match release.build_hash() {
        Some(h) => h,
        None => String::new(),
    };
    let (key_id, signature) = match release.signing_record() {
        Some(record) => (record.key_id, record.signature),
        None => (String::new(), Vec::new()),
    };
    IndexEntry {
        release_id: release.id(),
        package_id: release.package_id().to_string(),
        version_code: release.version_code(),
        version_name: String::from_str(release.version_name()),
        hash,
        key_id,
        signature,
    }
}

/// Regenerates the index from the current releases.
///
/// The index lists the published releases and nothing else, sorted by package
/// identifier and version code. Its content depends on the releases alone;
/// only the generation time depends on `now`, and it never runs backwards
/// from `previous`, the generation time of the index before.
pub fn regenerate(releases: &Vec<Release>, now: i64, previous: i64) -> (index: IndexResponse)
    ensures
        index.repo.name@ == "DK-AppStore"@,
        index.repo.description@ == "Danish sovereign app distribution platform"@,
        index.repo.version == 21,
        index.repo.timestamp == spec_generation(now, previous),
        entry_views(index.entries@) == index_entries(release_views(releases@)),
{
    let ghost views = release_views(releases@);
    let mut entries: Vec<IndexEntry> = Vec::new();
    let mut i: usize = 0;
    proof {
        assert(views.take(0) =~= Seq::<ReleaseView>::empty());
        assert(entry_views(entries@) =~= Seq::<IndexEntryView>::empty());
    }
    while i < releases.len()
        invariant
            i <= releases.len(),
            views == release_views(releases@),
            entry_views(entries@) == index_entries(views.take(i as int)),
        decreases releases.len() - i,
    {
        proof {
            assert(views.take(i as int + 1).drop_last() =~= views.take(i as int));
            assert(views.take(i as int + 1).last() == releases@[i as int]@);
        }
        if releases[i].stage() == Stage::Published {
            let e = entry_for(&releases[i]);
            let ghost before = entry_views(entries@);
            let mut p: usize = entries.len();
            while p > 0 && !entry_before_or_beside(&entries[p - 1], &e)
                invariant
                    p <= entries@.len(),
                    before == entry_views(entries@),
                    forall|j: int| p <= j < before.len() ==> !entry_le(#[trigger] before[j], e@),
                decreases p,
            {
                p = p - 1;
            }
            proof {
                lemma_insert_position(before, e@, p as int);
            }
            entries.insert(p, e);
            assert(entry_views(entries@) =~= before.insert(p as int, e@));
        }
        i = i + 1;
    }
    proof {
        assert(views.take(releases@.len() as int) =~= views);
    }
    let timestamp = if now > previous {
        now
    } else {
        previous
    };
    IndexResponse {
        repo: RepoInfo {
            name: String::from_str("DK-AppStore"),
            description: String::from_str("Danish sovereign app distribution platform"),
            timestamp,
            version: 21,
        },
        entries,
    }
}

/// A package begins at position `i`: the entry there is the first of the
/// index, or belongs to another package than the entry before it.
pub open spec fn begins_package(entries: Seq<IndexEntryView>, i: int) -> bool {
    &&& 0 <= i < entries.len()
    &&& i == 0 || entries[i - 1].package_id != entries[i].package_id
}

/// The positions at which the packages of an index begin, in ascending
/// order: the entries from one such position up to the next belong to one
/// package.
pub fn package_starts(entries: &Vec<IndexEntry>) -> (starts: Vec<usize>)
    ensures
        forall|k: int|
            0 <= k < starts@.len() ==> begins_package(
                entry_views(entries@),
                (#[trigger] starts@[k]) as int,
            ),
        forall|k: int, m: int| 0 <= k < m < starts@.len() ==> starts@[k] < starts@[m],
        forall|i: int|
            begins_package(entry_views(entries@), i) ==> #[trigger] starts@.contains(i as usize),
{
    let ghost views = entry_views(entries@);
    let mut starts: Vec<usize> = Vec::new();
    let mut i: usize = 0;
    while i < entries.len()
        invariant
            i <= entries@.len(),
            views == entry_views(entries@),
            forall|k: int|
                0 <= k < starts@.len() ==> (#[trigger] starts@[k]) < i && begins_package(
                    views,
                    starts@[k] as int,
                ),
            forall|k: int, m: int| 0 <= k < m < starts@.len() ==> starts@[k] < starts@[m],
            forall|j: int|
                0 <= j < i && begins_package(views, j) ==> #[trigger] starts@.contains(j as usize),
        decreases entries.len() - i,
    {
        let begins = i == 0 || !(entries[i - 1].package_id == entries[i].package_id);
        proof {
            assert(views[i as int] == entries@[i as int]@);
            if i > 0 {
                assert(views[i - 1] == entries@[i - 1]@);
            }
            assert(begins == begins_package(views, i as int));
        }
        if begins {
            let ghost before = starts@;
            starts.push(i);
            proof {
                assert(starts@[before.len() as int] == i);
                assert forall|j: int| 0 <= j < i + 1 && begins_package(views, j) implies
                    #[trigger] starts@.contains(j as usize) by {
                    if j < i {
                        assert(before.contains(j as usize));
                        let k = choose|k: int| 0 <= k < before.len() && before[k] == j as usize;
                        assert(starts@[k] == j as usize);
                    }
                }
            }
        }
        i = i + 1;
    }
    starts
}

} // verus!
