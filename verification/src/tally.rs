//! Tallies: how often each key occurs among the keys of the messages.

use crate::series::bucket_total;
use crate::series::point_total;
use crate::series::BucketView;
use crate::series::ChartDataView;
use crate::series::PointView;
use vstd::prelude::*;

verus! {

/// How many entries of `keys` equal `k`.
pub open spec fn occurrences<T>(keys: Seq<T>, k: T) -> nat
    decreases keys.len(),
{
    if keys.len() == 0 {
        0
    } else {
        occurrences(keys.drop_last(), k) + if keys.last() == k {
            1nat
        } else {
            0nat
        }
    }
}

/// How many entries of `keys` are present (not `None`).
pub open spec fn present<T>(keys: Seq<Option<T>>) -> nat
    decreases keys.len(),
{
    if keys.len() == 0 {
        0
    } else {
        present(keys.drop_last()) + if keys.last() is Some {
            1nat
        } else {
            0nat
        }
    }
}

/// The sum of the occurrences of the keys `0 .. bins`.
pub open spec fn bin_total(keys: Seq<int>, bins: nat) -> nat
    decreases bins,
{
    if bins == 0 {
        0
    } else {
        bin_total(keys, (bins - 1) as nat) + occurrences(keys, bins - 1)
    }
}

/// `counts` holds, for each of its bins, how often the bin's number is a key.
pub open spec fn is_dense_tally(counts: Seq<usize>, keys: Seq<int>) -> bool {
    forall|b: int| 0 <= b < counts.len() ==> #[trigger] counts[b] == occurrences(keys, b)
}

/// The bars of a dense tally: one for each of the bins `0 .. bins`, in that
/// order, with the bin's label and the number of keys equal to the bin.
pub open spec fn dense_bars(
    keys: Seq<int>,
    bins: nat,
    label: spec_fn(int) -> Seq<char>,
) -> Seq<BucketView> {
    Seq::new(bins, |b: int| BucketView { label: label(b), count: occurrences(keys, b) })
}

/// `points` is the sparse tally of `keys`: its points stand in strictly
/// ascending order of `x`, each counts how often its `x` is a key, and every
/// key that occurs has its point. Absent keys (`None`) are not counted.
pub open spec fn is_sparse_tally(points: Seq<PointView>, keys: Seq<Option<int>>) -> bool {
    &&& forall|i: int, j: int|
        0 <= i < j < points.len() ==> (#[trigger] points[i]).x < (#[trigger] points[j]).x
    &&& forall|i: int|
        0 <= i < points.len() ==> (#[trigger] points[i]).y >= 1 && points[i].y == occurrences(
            keys,
            Some(points[i].x),
        )
    &&& forall|k: int| #[trigger]
        occurrences(keys, Some(k)) > 0 ==> exists|i: int|
            0 <= i < points.len() && (#[trigger] points[i]).x == k
}

/// The data is the line chart of `keys`: their sparse tally, or the empty
/// marker where no key is present.
pub open spec fn is_line_chart(data: ChartDataView, keys: Seq<Option<int>>) -> bool {
    match data {
        ChartDataView::Lines { points } => points.len() > 0 && is_sparse_tally(points, keys),
        ChartDataView::Empty => present(keys) == 0,
        ChartDataView::Bars { buckets } => false,
    }
}

/// A key occurs at most as often as there are keys.
pub proof fn lemma_occurrences_bound<T>(keys: Seq<T>, k: T)
    ensures
        occurrences(keys, k) <= keys.len(),
    decreases keys.len(),
{
    if keys.len() > 0 {
        lemma_occurrences_bound(keys.drop_last(), k);
    }
}

/// A key that occurs is the key at some position, and the other way round.
pub proof fn lemma_occurrences_positive<T>(keys: Seq<T>, k: T)
    ensures
        occurrences(keys, k) > 0 <==> exists|i: int| 0 <= i < keys.len() && keys[i] == k,
    decreases keys.len(),
{
    if keys.len() > 0 {
        let front = keys.drop_last();
        lemma_occurrences_positive(front, k);
        if occurrences(keys, k) > 0 {
            if keys.last() == k {
                assert(keys[keys.len() - 1] == k);
            } else {
                let i = choose|i: int| 0 <= i < front.len() && front[i] == k;
                assert(keys[i] == k);
            }
        }
        if exists|i: int| 0 <= i < keys.len() && keys[i] == k {
            let i = choose|i: int| 0 <= i < keys.len() && keys[i] == k;
            if i < keys.len() - 1 {
                assert(front[i] == k);
            }
        }
    }
}

/// No key is present exactly where every key is absent.
pub proof fn lemma_present_none<T>(keys: Seq<Option<T>>)
    ensures
        present(keys) == 0 <==> forall|i: int| 0 <= i < keys.len() ==> keys[i] is None,
    decreases keys.len(),
{
    if keys.len() > 0 {
        let front = keys.drop_last();
        lemma_present_none(front);
        if present(keys) == 0 {
            assert forall|i: int| 0 <= i < keys.len() implies keys[i] is None by {
                if i < keys.len() - 1 {
                    assert(front[i] is None);
                }
            }
        }
        if forall|i: int| 0 <= i < keys.len() ==> keys[i] is None {
            assert(keys[keys.len() - 1] is None);
            assert forall|i: int| 0 <= i < front.len() implies front[i] is None by {
                assert(keys[i] is None);
            }
        }
    }
}

/// Where every key is one of the bins, the bins together hold every key once.
pub proof fn lemma_bin_total(keys: Seq<int>, bins: nat)
    requires
        forall|i: int| 0 <= i < keys.len() ==> 0 <= #[trigger] keys[i] < bins,
    ensures
        bin_total(keys, bins) == keys.len(),
    decreases keys.len(),
{
    if keys.len() == 0 {
        assert(keys =~= Seq::<int>::empty());
        lemma_bin_total_empty(bins);
    } else {
        assert(0 <= keys[keys.len() - 1] < bins);
        let front = keys.drop_last();
        assert forall|i: int| 0 <= i < front.len() implies 0 <= #[trigger] front[i] < bins by {
            assert(front[i] == keys[i]);
        }
        lemma_bin_total(front, bins);
        lemma_bin_total_push(keys, bins);
    }
}

/// The bars of a dense tally count every key that is one of the bins once.
pub proof fn lemma_dense_bars_total(keys: Seq<int>, bins: nat, label: spec_fn(int) -> Seq<char>)
    ensures
        bucket_total(dense_bars(keys, bins, label)) == bin_total(keys, bins),
    decreases bins,
{
    if bins > 0 {
        let fewer = (bins - 1) as nat;
        assert(dense_bars(keys, bins, label).drop_last() =~= dense_bars(keys, fewer, label));
        lemma_dense_bars_total(keys, fewer, label);
    }
}

/// The keys have one sparse tally only.
pub proof fn lemma_sparse_tally_unique(
    a: Seq<PointView>,
    b: Seq<PointView>,
    keys: Seq<Option<int>>,
)
    requires
        is_sparse_tally(a, keys),
        is_sparse_tally(b, keys),
    ensures
        a == b,
{
    let n = if a.len() <= b.len() {
        a.len() as int
    } else {
        b.len() as int
    };
    lemma_sparse_tally_prefix(a, b, keys, n);
    if a.len() < b.len() {
        assert(occurrences(keys, Some(b[n].x)) > 0);
        let h = choose|h: int| 0 <= h < a.len() && (#[trigger] a[h]).x == b[n].x;
        assert(b[h].x < b[n].x);
    }
    if b.len() < a.len() {
        assert(occurrences(keys, Some(a[n].x)) > 0);
        let j = choose|j: int| 0 <= j < b.len() && (#[trigger] b[j]).x == a[n].x;
        assert(a[j].x < a[n].x);
    }
    assert(a =~= b);
}

/// A sparse tally counts every present key once: its counts add up to the
/// number of present keys.
pub proof fn lemma_sparse_tally_total(points: Seq<PointView>, keys: Seq<Option<int>>)
    requires
        is_sparse_tally(points, keys),
    ensures
        point_total(points) == present(keys),
    decreases keys.len(),
{
    if keys.len() == 0 {
        if points.len() > 0 {
            assert(points[0].y == occurrences(keys, Some(points[0].x)));
        }
    } else {
        let front = keys.drop_last();
        match keys.last() {
            None => {
                assert forall|x: int| #[trigger]
                    occurrences(front, Some(x)) == occurrences(keys, Some(x)) by {}
                assert forall|i: int| 0 <= i < points.len() implies (#[trigger] points[i]).y
                    == occurrences(front, Some(points[i].x)) by {
                    assert(points[i].y == occurrences(keys, Some(points[i].x)));
                }
                assert forall|x: int| #[trigger] occurrences(front, Some(x)) > 0 implies exists|
                    i: int,
                | 0 <= i < points.len() && (#[trigger] points[i]).x == x by {
                    assert(occurrences(keys, Some(x)) > 0);
                }
                lemma_sparse_tally_total(points, front);
            },
            Some(k) => {
                assert(occurrences(keys, Some(k)) > 0);
                let h = choose|h: int| 0 <= h < points.len() && (#[trigger] points[h]).x == k;
                let fewer = if points[h].y >= 2 {
                    points.update(h, PointView { x: k, y: (points[h].y - 1) as nat })
                } else {
                    points.remove(h)
                };
                if points[h].y >= 2 {
                    lemma_point_total_update(points, h, fewer[h]);
                } else {
                    assert(fewer.insert(h, points[h]) =~= points);
                    lemma_point_total_insert(fewer, h, points[h]);
                }
                lemma_tally_shrinks(points, keys, h);
                lemma_sparse_tally_total(fewer, front);
            },
        }
    }
}

/// The keys have one line chart only: the points are fixed by the keys, and
/// so is whether there are any.
pub proof fn lemma_line_chart_unique(a: ChartDataView, b: ChartDataView, keys: Seq<Option<int>>)
    requires
        is_line_chart(a, keys),
        is_line_chart(b, keys),
    ensures
        a == b,
{
    lemma_line_chart_empty(a, keys);
    lemma_line_chart_empty(b, keys);
    match (a, b) {
        (ChartDataView::Lines { points: p }, ChartDataView::Lines { points: q }) => {
            lemma_sparse_tally_unique(p, q, keys);
        },
        _ => {},
    }
}

/// A line chart is the empty marker exactly where no key is present, that
/// is, where no message lies in the window.
pub proof fn lemma_line_chart_empty(data: ChartDataView, keys: Seq<Option<int>>)
    requires
        is_line_chart(data, keys),
    ensures
        data is Empty <==> present(keys) == 0,
        present(keys) == 0 <==> forall|i: int| 0 <= i < keys.len() ==> keys[i] is None,
{
    lemma_present_none(keys);
    if let ChartDataView::Lines { points } = data {
        let k = points[0].x;
        assert(occurrences(keys, Some(k)) > 0);
        lemma_occurrences_positive(keys, Some(k));
        let i = choose|i: int| 0 <= i < keys.len() && keys[i] == Some(k);
        assert(keys[i] is Some);
    }
}

/// A line chart counts every present key once.
pub proof fn lemma_line_chart_total(data: ChartDataView, keys: Seq<Option<int>>)
    requires
        is_line_chart(data, keys),
    ensures
        data.total() == present(keys),
{
    if let ChartDataView::Lines { points } = data {
        lemma_sparse_tally_total(points, keys);
    }
}

proof fn lemma_bin_total_empty(bins: nat)
    ensures
        bin_total(Seq::<int>::empty(), bins) == 0,
    decreases bins,
{
    if bins > 0 {
        lemma_bin_total_empty((bins - 1) as nat);
    }
}

proof fn lemma_bin_total_push(keys: Seq<int>, bins: nat)
    requires
        keys.len() > 0,
    ensures
        bin_total(keys, bins) == bin_total(keys.drop_last(), bins) + if 0 <= keys.last() < bins {
            1nat
        } else {
            0nat
        },
    decreases bins,
{
    if bins > 0 {
        lemma_bin_total_push(keys, (bins - 1) as nat);
    }
}

/// Two sparse tallies of the same keys agree up to any position that both
/// have.
proof fn lemma_sparse_tally_prefix(
    a: Seq<PointView>,
    b: Seq<PointView>,
    keys: Seq<Option<int>>,
    n: int,
)
    requires
        is_sparse_tally(a, keys),
        is_sparse_tally(b, keys),
        0 <= n <= a.len(),
        n <= b.len(),
    ensures
        forall|i: int| 0 <= i < n ==> a[i] == b[i],
    decreases n,
{
    if n > 0 {
        lemma_sparse_tally_prefix(a, b, keys, n - 1);
        let i = n - 1;
        // Each of the two points at `i` has its match in the other tally, at
        // `i` or later: so neither lies before the other.
        assert(occurrences(keys, Some(a[i].x)) > 0);
        let j = choose|j: int| 0 <= j < b.len() && (#[trigger] b[j]).x == a[i].x;
        if j < i {
            assert(a[j].x < a[i].x);
        } else if j > i {
            assert(b[i].x < b[j].x);
        }
        assert(occurrences(keys, Some(b[i].x)) > 0);
        let h = choose|h: int| 0 <= h < a.len() && (#[trigger] a[h]).x == b[i].x;
        if h < i {
            assert(b[h].x < b[i].x);
        } else if h > i {
            assert(a[i].x < a[h].x);
        }
        assert(a[i].x == b[i].x);
    }
}

/// Without its last key, a tally has one occurrence less at that key's
/// point: the point shrinks by one, or leaves where nothing is left of it.
proof fn lemma_tally_shrinks(points: Seq<PointView>, keys: Seq<Option<int>>, h: int)
    requires
        is_sparse_tally(points, keys),
        keys.len() > 0,
        0 <= h < points.len(),
        keys.last() == Some(points[h].x),
    ensures
        is_sparse_tally(
            if points[h].y >= 2 {
                points.update(h, PointView { x: points[h].x, y: (points[h].y - 1) as nat })
            } else {
                points.remove(h)
            },
            keys.drop_last(),
        ),
{
    let k = points[h].x;
    let front = keys.drop_last();
    assert(points[h].y == occurrences(keys, Some(k)));
    if points[h].y >= 2 {
        let fewer = points.update(h, PointView { x: k, y: (points[h].y - 1) as nat });
        assert forall|i: int, j: int| 0 <= i < j < fewer.len() implies (#[trigger] fewer[i]).x < (
        #[trigger] fewer[j]).x by {
            assert(points[i].x < points[j].x);
        }
        assert forall|i: int| 0 <= i < fewer.len() implies (#[trigger] fewer[i]).y >= 1
            && fewer[i].y == occurrences(front, Some(fewer[i].x)) by {
            assert(points[i].y == occurrences(keys, Some(points[i].x)));
            if i < h {
                assert(points[i].x < points[h].x);
            } else if i > h {
                assert(points[h].x < points[i].x);
            }
        }
        assert forall|x: int| #[trigger] occurrences(front, Some(x)) > 0 implies exists|i: int|
            0 <= i < fewer.len() && (#[trigger] fewer[i]).x == x by {
            assert(occurrences(keys, Some(x)) > 0);
            let i = choose|i: int| 0 <= i < points.len() && (#[trigger] points[i]).x == x;
            assert(fewer[i].x == x);
        }
    } else {
        let fewer = points.remove(h);
        assert forall|i: int, j: int| 0 <= i < j < fewer.len() implies (#[trigger] fewer[i]).x < (
        #[trigger] fewer[j]).x by {
            let a = if i < h {
                i
            } else {
                i + 1
            };
            let b = if j < h {
                j
            } else {
                j + 1
            };
            assert(fewer[i] == points[a]);
            assert(fewer[j] == points[b]);
            assert(points[a].x < points[b].x);
        }
        assert forall|i: int| 0 <= i < fewer.len() implies (#[trigger] fewer[i]).y >= 1
            && fewer[i].y == occurrences(front, Some(fewer[i].x)) by {
            let a = if i < h {
                i
            } else {
                i + 1
            };
            assert(fewer[i] == points[a]);
            assert(points[a].y == occurrences(keys, Some(points[a].x)));
            if a < h {
                assert(points[a].x < points[h].x);
            } else {
                assert(points[h].x < points[a].x);
            }
        }
        assert forall|x: int| #[trigger] occurrences(front, Some(x)) > 0 implies exists|i: int|
            0 <= i < fewer.len() && (#[trigger] fewer[i]).x == x by {
            assert(occurrences(keys, Some(x)) > 0);
            let a = choose|a: int| 0 <= a < points.len() && (#[trigger] points[a]).x == x;
            assert(a != h);
            if a < h {
                assert(fewer[a] == points[a]);
            } else {
                assert(fewer[a - 1] == points[a]);
            }
        }
    }
}

/// Replacing one point changes the total by the difference of the counts.
proof fn lemma_point_total_update(points: Seq<PointView>, p: int, v: PointView)
    requires
        0 <= p < points.len(),
    ensures
        point_total(points.update(p, v)) + points[p].y == point_total(points) + v.y,
    decreases points.len(),
{
    let changed = points.update(p, v);
    if p == points.len() - 1 {
        assert(changed.drop_last() =~= points.drop_last());
    } else {
        assert(changed.drop_last() =~= points.drop_last().update(p, v));
        lemma_point_total_update(points.drop_last(), p, v);
    }
}

/// Inserting one point adds its count to the total.
proof fn lemma_point_total_insert(points: Seq<PointView>, p: int, v: PointView)
    requires
        0 <= p <= points.len(),
    ensures
        point_total(points.insert(p, v)) == point_total(points) + v.y,
    decreases points.len(),
{
    let grown = points.insert(p, v);
    if p == points.len() {
        assert(grown.drop_last() =~= points);
    } else {
        assert(grown.drop_last() =~= points.drop_last().insert(p, v));
        assert(grown.last() == points.last());
        lemma_point_total_insert(points.drop_last(), p, v);
    }
}

} // verus!
