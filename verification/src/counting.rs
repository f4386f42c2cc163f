//! Counting messages into the bins of a dense tally and the points of a
//! sparse one.

use crate::series::bucket_views;
use crate::series::point_views;
use crate::series::Bucket;
use crate::series::BucketView;
use crate::series::Point;
use crate::series::PointView;
use crate::series::ProcessedChartData;
use crate::tally::dense_bars;
use crate::tally::is_dense_tally;
use crate::tally::is_line_chart;
use crate::tally::is_sparse_tally;
use crate::tally::lemma_occurrences_bound;
use crate::tally::lemma_sparse_tally_total;
use crate::tally::occurrences;
use crate::tally::present;
use vstd::prelude::*;

verus! {

/// The key as the tallies know it.
pub open spec fn key_view(key: Option<i64>) -> Option<int> {
    match key {
        Some(k) => Some(k as int),
        None => None,
    }
}

/// The bars of a dense tally: each count under its label, in the order of
/// the bins.
pub(crate) fn bars(
    labels: Vec<String>,
    counts: &Vec<usize>,
    Ghost(keys): Ghost<Seq<int>>,
    Ghost(label): Ghost<spec_fn(int) -> Seq<char>>,
) -> (r: Vec<Bucket>)
    requires
        labels@.len() == counts@.len(),
        forall|b: int| 0 <= b < labels@.len() ==> (#[trigger] labels@[b])@ == label(b),
        is_dense_tally(counts@, keys),
    ensures
        bucket_views(r@) == dense_bars(keys, counts@.len(), label),
{
    let mut bars: Vec<Bucket> = Vec::new();
    let mut b: usize = 0;
    while b < counts.len()
        invariant
            b <= counts@.len(),
            labels@.len() == counts@.len(),
            forall|j: int| 0 <= j < labels@.len() ==> (#[trigger] labels@[j])@ == label(j),
            is_dense_tally(counts@, keys),
            bars@.len() == b,
            forall|j: int|
                0 <= j < b ==> (#[trigger] bars@[j])@ == (BucketView {
                    label: label(j),
                    count: occurrences(keys, j),
                }),
        decreases counts@.len() - b,
    {
        bars.push(Bucket { label: labels[b].clone(), count: counts[b] });
        b += 1;
    }
    assert(bucket_views(bars@) =~= dense_bars(keys, counts@.len(), label));
    bars
}

/// Counts one more message in bin `b`.
pub(crate) fn count_in_bin(counts: &mut Vec<usize>, b: usize, Ghost(keys): Ghost<Seq<int>>)
    requires
        is_dense_tally(old(counts)@, keys),
        b < old(counts)@.len(),
        keys.len() < usize::MAX,
    ensures
        final(counts)@.len() == old(counts)@.len(),
        is_dense_tally(final(counts)@, keys.push(b as int)),
{
    proof {
        assert(keys.push(b as int).drop_last() =~= keys);
        lemma_occurrences_bound(keys, b as int);
    }
    let seen: usize = counts[b];
    counts.set(b, seen + 1);
}

/// Counts one more message at `key`, where it has one: the point with that
/// `x` grows by one, or a new point with count 1 takes its place in the
/// order. A message without a key leaves the points as they are.
pub(crate) fn record(points: &mut Vec<Point>, key: Option<i64>, Ghost(keys): Ghost<Seq<Option<int>>>)
    requires
        is_sparse_tally(point_views(old(points)@), keys),
        keys.len() < usize::MAX,
    ensures
        is_sparse_tally(point_views(final(points)@), keys.push(key_view(key))),
{
    match key {
        Some(k) => {
            assert(key_view(key) == Some(k as int));
            count_at(points, k, Ghost(keys));
        },
        None => {
            proof {
                let grown = keys.push(None);
                assert(grown.drop_last() =~= keys);
                assert forall|k: int| #[trigger]
                    occurrences(grown, Some(k)) == occurrences(keys, Some(k)) by {}
            }
        },
    }
}

/// The chart of a finished sparse tally: its points, or the empty marker
/// where there are none.
pub(crate) fn line_chart(points: Vec<Point>, Ghost(keys): Ghost<Seq<Option<int>>>) -> (r:
    ProcessedChartData)
    requires
        is_sparse_tally(point_views(points@), keys),
    ensures
        is_line_chart(r@, keys),
        r@.total() == present(keys),
{
    proof {
        lemma_sparse_tally_total(point_views(points@), keys);
    }
    if points.len() == 0 {
        assert(point_views(points@) =~= Seq::<PointView>::empty());
        ProcessedChartData::Empty
    } else {
        ProcessedChartData::Lines { points }
    }
}

/// Counts one more message at `key`: the point with that `x` grows by one, or
/// a new point with count 1 takes its place in the order.
fn count_at(points: &mut Vec<Point>, key: i64, Ghost(keys): Ghost<Seq<Option<int>>>)
    requires
        is_sparse_tally(point_views(old(points)@), keys),
        keys.len() < usize::MAX,
    ensures
        is_sparse_tally(point_views(final(points)@), keys.push(Some(key as int))),
{
    let ghost before = point_views(points@);
    // New keys mostly come last: look for the place from the end.
    let mut p: usize = points.len();
    while p > 0 && points[p - 1].x > key
        invariant
            p <= points@.len(),
            before == point_views(points@),
            forall|j: int| p <= j < before.len() ==> (#[trigger] before[j]).x > key,
        decreases p,
    {
        p -= 1;
    }
    if p > 0 && points[p - 1].x == key {
        let hit: Point = points[p - 1];
        let ghost grown = PointView { x: key as int, y: (hit.y + 1) as nat };
        proof {
            assert(before[p - 1] == hit@);
            lemma_occurrences_bound(keys, Some(key as int));
            lemma_tally_grows(before, keys, key as int, p - 1);
        }
        points.set(p - 1, Point { x: key, y: hit.y + 1 });
        assert(point_views(points@) =~= before.update(p - 1, grown));
    } else {
        let ghost fresh = PointView { x: key as int, y: 1 };
        proof {
            assert forall|j: int| 0 <= j < p implies (#[trigger] before[j]).x < key by {
                assert(before[p - 1] == points@[p - 1]@);
                if j < p - 1 {
                    assert(before[j].x < before[p - 1].x);
                }
            }
            lemma_tally_enters(before, keys, key as int, p as int);
        }
        points.insert(p, Point { x: key, y: 1 });
        assert(point_views(points@) =~= before.insert(p as int, fresh));
    }
}

/// One more occurrence of a key that has its point: the point grows by one.
proof fn lemma_tally_grows(before: Seq<PointView>, keys: Seq<Option<int>>, key: int, h: int)
    requires
        is_sparse_tally(before, keys),
        0 <= h < before.len(),
        before[h].x == key,
    ensures
        is_sparse_tally(
            before.update(h, PointView { x: key, y: before[h].y + 1 }),
            keys.push(Some(key)),
        ),
{
    let grown = keys.push(Some(key));
    let after = before.update(h, PointView { x: key, y: before[h].y + 1 });
    assert(grown.drop_last() =~= keys);
    assert forall|i: int, j: int| 0 <= i < j < after.len() implies (#[trigger] after[i]).x < (
    #[trigger] after[j]).x by {
        assert(before[i].x < before[j].x);
    }
    assert forall|i: int| 0 <= i < after.len() implies (#[trigger] after[i]).y >= 1 && after[i].y
        == occurrences(grown, Some(after[i].x)) by {
        assert(before[i].y == occurrences(keys, Some(before[i].x)));
        if i < h {
            assert(before[i].x < before[h].x);
        } else if i > h {
            assert(before[h].x < before[i].x);
        }
    }
    assert forall|k: int| #[trigger] occurrences(grown, Some(k)) > 0 implies exists|i: int|
        0 <= i < after.len() && (#[trigger] after[i]).x == k by {
        if k == key {
            assert(after[h].x == k);
        } else {
            assert(occurrences(keys, Some(k)) > 0);
            let i = choose|i: int| 0 <= i < before.len() && (#[trigger] before[i]).x == k;
            assert(after[i].x == k);
        }
    }
}

/// The first occurrence of a key: a point with count 1 enters at its place
/// in the order.
proof fn lemma_tally_enters(before: Seq<PointView>, keys: Seq<Option<int>>, key: int, p: int)
    requires
        is_sparse_tally(before, keys),
        0 <= p <= before.len(),
        forall|j: int| 0 <= j < p ==> (#[trigger] before[j]).x < key,
        forall|j: int| p <= j < before.len() ==> (#[trigger] before[j]).x > key,
    ensures
        is_sparse_tally(before.insert(p, PointView { x: key, y: 1 }), keys.push(Some(key))),
{
    let grown = keys.push(Some(key));
    let after = before.insert(p, PointView { x: key, y: 1 });
    assert(grown.drop_last() =~= keys);
    if occurrences(keys, Some(key)) > 0 {
        let i = choose|i: int| 0 <= i < before.len() && (#[trigger] before[i]).x == key;
        assert(false);
    }
    assert forall|i: int, j: int| 0 <= i < j < after.len() implies (#[trigger] after[i]).x < (
    #[trigger] after[j]).x by {
        let a = if i < p {
            i
        } else {
            i - 1
        };
        let b = if j < p {
            j
        } else {
            j - 1
        };
        if i != p && j != p {
            assert(after[i] == before[a]);
            assert(after[j] == before[b]);
            assert(before[a].x < before[b].x);
        } else if i == p {
            assert(after[j] == before[b]);
            assert(before[b].x > key);
        } else {
            assert(after[i] == before[a]);
            assert(before[a].x < key);
        }
    }
    assert forall|i: int| 0 <= i < after.len() implies (#[trigger] after[i]).y >= 1 && after[i].y
        == occurrences(grown, Some(after[i].x)) by {
        if i < p {
            assert(after[i] == before[i]);
            assert(before[i].x < key);
        } else if i > p {
            assert(after[i] == before[i - 1]);
            assert(before[i - 1].x > key);
        }
    }
    assert forall|k: int| #[trigger] occurrences(grown, Some(k)) > 0 implies exists|i: int|
        0 <= i < after.len() && (#[trigger] after[i]).x == k by {
        if k == key {
            assert(after[p].x == k);
        } else {
            assert(occurrences(keys, Some(k)) > 0);
            let i = choose|i: int| 0 <= i < before.len() && (#[trigger] before[i]).x == k;
            if i < p {
                assert(after[i] == before[i]);
            } else {
                assert(after[i + 1] == before[i]);
            }
        }
    }
}

} // verus!
