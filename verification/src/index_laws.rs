//! What holds of every generated index.

use crate::index::{
    entry_le, index_entries, insert_sorted, is_sorted, project, spec_generation, IndexEntryView,
};
use crate::release::{ReleaseView, Stage};
use crate::text::{
    lemma_bytes_less_asymmetric, lemma_bytes_less_total, lemma_bytes_less_transitive, text_less,
};
use vstd::prelude::*;
use vstd::utf8::encode_utf8;

verus! {

/// Of two entries, one stands before or beside the other.
pub proof fn lemma_entry_le_total(a: IndexEntryView, b: IndexEntryView)
    ensures
        entry_le(a, b) || entry_le(b, a),
{
}

/// The order of the index is transitive.
pub proof fn lemma_entry_le_transitive(a: IndexEntryView, b: IndexEntryView, c: IndexEntryView)
    requires
        entry_le(a, b),
        entry_le(b, c),
    ensures
        entry_le(a, c),
{
    let pa = encode_utf8(a.package_id);
    let pb = encode_utf8(b.package_id);
    let pc = encode_utf8(c.package_id);
    lemma_bytes_less_asymmetric(pa, pb);
    lemma_bytes_less_asymmetric(pb, pc);
    lemma_bytes_less_asymmetric(pa, pc);
    if text_less(a.package_id, b.package_id) {
        if text_less(b.package_id, c.package_id) {
            lemma_bytes_less_transitive(pa, pb, pc);
        } else {
            lemma_bytes_less_total(pb, pc);
        }
    } else {
        lemma_bytes_less_total(pa, pb);
        if !text_less(b.package_id, c.package_id) {
            lemma_bytes_less_total(pb, pc);
        }
    }
}

/// Where `insert_sorted` puts an entry: behind the last entry that does not
/// come after it.
pub open spec fn insertion_point(sorted: Seq<IndexEntryView>, e: IndexEntryView) -> int
    decreases sorted.len(),
{
    if sorted.len() == 0 {
        0
    } else if entry_le(sorted.last(), e) {
        sorted.len() as int
    } else {
        insertion_point(sorted.drop_last(), e)
    }
}

proof fn lemma_insertion_point(sorted: Seq<IndexEntryView>, e: IndexEntryView)
    ensures
        0 <= insertion_point(sorted, e) <= sorted.len(),
        forall|j: int|
            insertion_point(sorted, e) <= j < sorted.len() ==> !entry_le(#[trigger] sorted[j], e),
        insertion_point(sorted, e) > 0 ==> entry_le(sorted[insertion_point(sorted, e) - 1], e),
        insert_sorted(sorted, e) == sorted.insert(insertion_point(sorted, e), e),
    decreases sorted.len(),
{
    let p = insertion_point(sorted, e);
    if sorted.len() == 0 {
        assert(seq![e] =~= sorted.insert(p, e));
    } else if entry_le(sorted.last(), e) {
        assert(sorted.push(e) =~= sorted.insert(p, e));
    } else {
        let front = sorted.drop_last();
        lemma_insertion_point(front, e);
        assert forall|j: int| p <= j < sorted.len() implies !entry_le(#[trigger] sorted[j], e) by {
            if j < front.len() {
                assert(front[j] == sorted[j]);
            }
        }
        if p > 0 {
            assert(front[p - 1] == sorted[p - 1]);
        }
        assert(front.insert(p, e).push(sorted.last()) =~= sorted.insert(p, e));
    }
}

/// Inserting keeps every entry, adds the new one and nothing else.
pub proof fn lemma_insert_contents(
    sorted: Seq<IndexEntryView>,
    e: IndexEntryView,
    x: IndexEntryView,
)
    ensures
        insert_sorted(sorted, e).len() == sorted.len() + 1,
        insert_sorted(sorted, e).contains(x) <==> sorted.contains(x) || x == e,
{
    lemma_insertion_point(sorted, e);
    let p = insertion_point(sorted, e);
    let after = sorted.insert(p, e);
    assert(after[p] == e);
    if sorted.contains(x) {
        let i = choose|i: int| 0 <= i < sorted.len() && sorted[i] == x;
        if i < p {
            assert(after[i] == x);
        } else {
            assert(after[i + 1] == x);
        }
    }
    if after.contains(x) && x != e {
        let k = choose|k: int| 0 <= k < after.len() && after[k] == x;
        if k < p {
            assert(sorted[k] == x);
        } else {
            assert(sorted[k - 1] == x);
        }
    }
}

/// Inserting into a sorted sequence leaves it sorted.
pub proof fn lemma_insert_keeps_sorted(sorted: Seq<IndexEntryView>, e: IndexEntryView)
    requires
        is_sorted(sorted),
    ensures
        is_sorted(insert_sorted(sorted, e)),
{
    lemma_insertion_point(sorted, e);
    let p = insertion_point(sorted, e);
    let after = sorted.insert(p, e);
    assert forall|i: int, j: int| 0 <= i < j < after.len() implies entry_le(
        #[trigger] after[i],
        #[trigger] after[j],
    ) by {
        if j < p {
            assert(after[i] == sorted[i] && after[j] == sorted[j]);
        } else if j == p {
            assert(after[i] == sorted[i]);
            if i < p - 1 {
                lemma_entry_le_transitive(sorted[i], sorted[p - 1], e);
            }
        } else if i == p {
            assert(after[j] == sorted[j - 1]);
            lemma_entry_le_total(sorted[j - 1], e);
        } else if i < p {
            assert(after[i] == sorted[i] && after[j] == sorted[j - 1]);
        } else {
            assert(after[i] == sorted[i - 1] && after[j] == sorted[j - 1]);
        }
    }
}

/// Every index is sorted by package identifier, then version code.
pub proof fn lemma_index_is_sorted(releases: Seq<ReleaseView>)
    ensures
        is_sorted(index_entries(releases)),
    decreases releases.len(),
{
    if releases.len() > 0 {
        lemma_index_is_sorted(releases.drop_last());
        if releases.last().stage == Stage::Published {
            lemma_insert_keeps_sorted(
                index_entries(releases.drop_last()),
                project(releases.last()),
            );
        }
    }
}

/// An index lists exactly the published releases: each of its entries is the
/// projection of a published release, and each published release has its
/// entry.
pub proof fn lemma_index_lists_exactly_published(releases: Seq<ReleaseView>, x: IndexEntryView)
    ensures
        index_entries(releases).contains(x) <==> exists|i: int|
            0 <= i < releases.len() && (#[trigger] releases[i]).stage == Stage::Published
                && project(releases[i]) == x,
    decreases releases.len(),
{
    let listed = exists|i: int|
        0 <= i < releases.len() && (#[trigger] releases[i]).stage == Stage::Published && project(
            releases[i],
        ) == x;
    if releases.len() == 0 {
    } else {
        let front = releases.drop_last();
        let last = releases.last();
        lemma_index_lists_exactly_published(front, x);
        if last.stage == Stage::Published {
            lemma_insert_contents(index_entries(front), project(last), x);
        }
        if index_entries(releases).contains(x) {
            if last.stage == Stage::Published && x == project(last) {
                assert(releases[releases.len() - 1].stage == Stage::Published);
            } else {
                let i = choose|i: int|
                    0 <= i < front.len() && (#[trigger] front[i]).stage == Stage::Published
                        && project(front[i]) == x;
                assert(releases[i] == front[i]);
            }
            assert(listed);
        }
        if listed {
            let i = choose|i: int|
                0 <= i < releases.len() && (#[trigger] releases[i]).stage == Stage::Published
                    && project(releases[i]) == x;
            if i < front.len() {
                assert(front[i] == releases[i]);
            }
        }
    }
}

/// The index has one entry per published release.
pub open spec fn published_count(releases: Seq<ReleaseView>) -> nat
    decreases releases.len(),
{
    if releases.len() == 0 {
        0
    } else {
        published_count(releases.drop_last()) + if releases.last().stage == Stage::Published {
            1nat
        } else {
            0nat
        }
    }
}

/// The index has as many entries as there are published releases.
pub proof fn lemma_index_length(releases: Seq<ReleaseView>)
    ensures
        index_entries(releases).len() == published_count(releases),
    decreases releases.len(),
{
    if releases.len() > 0 {
        lemma_index_length(releases.drop_last());
        if releases.last().stage == Stage::Published {
            lemma_insert_contents(
                index_entries(releases.drop_last()),
                project(releases.last()),
                project(releases.last()),
            );
        }
    }
}

/// A release that is not published is never listed: no entry of the index
/// carries its identifier.
pub proof fn lemma_unpublished_is_not_listed(releases: Seq<ReleaseView>, id: u64)
    requires
        forall|i: int|
            0 <= i < releases.len() && (#[trigger] releases[i]).id == id ==> releases[i].stage
                != Stage::Published,
    ensures
        forall|k: int|
            0 <= k < index_entries(releases).len() ==> (#[trigger] index_entries(
                releases,
            )[k]).release_id != id,
{
    let index = index_entries(releases);
    assert forall|k: int| 0 <= k < index.len() implies (#[trigger] index[k]).release_id != id by {
        lemma_index_lists_exactly_published(releases, index[k]);
        assert(index.contains(index[k]));
        let i = choose|i: int|
            0 <= i < releases.len() && (#[trigger] releases[i]).stage == Stage::Published
                && project(releases[i]) == index[k];
        assert(releases[i].id == index[k].release_id);
    }
}

/// Generation times never run backwards: each is at least the one before,
/// and at least the time at which it was made.
pub proof fn lemma_generation_is_monotonic(now: i64, previous: i64)
    ensures
        spec_generation(now, previous) >= previous,
        spec_generation(now, previous) >= now,
        spec_generation(now, previous) == now || spec_generation(now, previous) == previous,
{
}

/// No two releases are of the same package and version code.
pub open spec fn distinct_versions(releases: Seq<ReleaseView>) -> bool {
    forall|i: int, j: int|
        0 <= i < j < releases.len() ==> !((#[trigger] releases[i]).package_id
            == (#[trigger] releases[j]).package_id && releases[i].version_code
            == releases[j].version_code)
}

/// No two entries are of the same package and version code.
pub open spec fn distinct_entries(entries: Seq<IndexEntryView>) -> bool {
    forall|k: int, m: int|
        0 <= k < m < entries.len() ==> !((#[trigger] entries[k]).package_id
            == (#[trigger] entries[m]).package_id && entries[k].version_code
            == entries[m].version_code)
}

/// An index lists no package version twice, where the releases hold none
/// twice: the store's invariant says that they do not.
pub proof fn lemma_index_lists_no_version_twice(releases: Seq<ReleaseView>)
    requires
        distinct_versions(releases),
    ensures
        distinct_entries(index_entries(releases)),
    decreases releases.len(),
{
    if releases.len() > 0 {
        let front = releases.drop_last();
        let last = releases.last();
        assert(distinct_versions(front)) by {
            assert forall|i: int, j: int| 0 <= i < j < front.len() implies !((
            #[trigger] front[i]).package_id == (#[trigger] front[j]).package_id
                && front[i].version_code == front[j].version_code) by {
                assert(front[i] == releases[i] && front[j] == releases[j]);
            }
        }
        lemma_index_lists_no_version_twice(front);
        if last.stage == Stage::Published {
            let old_index = index_entries(front);
            let e = project(last);
            lemma_insertion_point(old_index, e);
            let p = insertion_point(old_index, e);
            let index = old_index.insert(p, e);
            assert forall|q: int| 0 <= q < old_index.len() implies !((
            #[trigger] old_index[q]).package_id == e.package_id && old_index[q].version_code
                == e.version_code) by {
                lemma_index_lists_exactly_published(front, old_index[q]);
                assert(old_index.contains(old_index[q]));
                let i = choose|i: int|
                    0 <= i < front.len() && (#[trigger] front[i]).stage == Stage::Published
                        && project(front[i]) == old_index[q];
                assert(front[i] == releases[i]);
                assert(releases[releases.len() - 1] == last);
            }
            assert forall|k: int, m: int| 0 <= k < m < index.len() implies !((
            #[trigger] index[k]).package_id == (#[trigger] index[m]).package_id
                && index[k].version_code == index[m].version_code) by {
                if m < p {
                    assert(index[k] == old_index[k] && index[m] == old_index[m]);
                } else if m == p {
                    assert(index[k] == old_index[k]);
                } else if k == p {
                    assert(index[m] == old_index[m - 1]);
                } else if k < p {
                    assert(index[k] == old_index[k] && index[m] == old_index[m - 1]);
                } else {
                    assert(index[k] == old_index[k - 1] && index[m] == old_index[m - 1]);
                }
            }
        }
    }
}

} // verus!
