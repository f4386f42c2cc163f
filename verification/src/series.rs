//! The data of a chart: bars, points, and what they stand for.

use vstd::prelude::*;

verus! {

/// One bar of a categorical chart: its axis label and how many messages fell
/// into it. The position in the sequence of buckets is the x-coordinate.
#[derive(Debug, PartialEq, Eq)]
pub struct Bucket {
    pub label: String,
    pub count: usize,
}

/// What a `Bucket` stands for.
pub struct BucketView {
    pub label: Seq<char>,
    pub count: nat,
}

impl View for Bucket {
    type V = BucketView;

    open spec fn view(&self) -> BucketView {
        BucketView { label: self.label@, count: self.count as nat }
    }
}

impl Clone for Bucket {
    fn clone(&self) -> (r: Self)
        ensures
            r@ == self@,
    {
        Bucket { label: self.label.clone(), count: self.count }
    }
}

/// One point of a time series: `x` is a UTC instant in seconds since the
/// epoch, `y` the number of messages counted at it.
#[derive(Debug, Clone, Copy, PartialEq, Eq, Structural)]
pub struct Point {
    pub x: i64,
    pub y: usize,
}

/// What a `Point` stands for.
pub struct PointView {
    pub x: int,
    pub y: nat,
}

impl View for Point {
    type V = PointView;

    open spec fn view(&self) -> PointView {
        PointView { x: self.x as int, y: self.y as nat }
    }
}

/// The processed data for drawing a chart.
#[derive(Debug, PartialEq, Eq)]
pub enum ProcessedChartData {
    /// Categorical data: every bucket is present, also with a count of zero.
    Bars { buckets: Vec<Bucket> },
    /// A sparse time series in ascending order of `x`.
    Lines { points: Vec<Point> },
    /// No data for the view.
    Empty,
}

/// What a `ProcessedChartData` stands for.
pub enum ChartDataView {
    Bars { buckets: Seq<BucketView> },
    Lines { points: Seq<PointView> },
    Empty,
}

/// The views of a sequence of buckets, position by position.
pub open spec fn bucket_views(buckets: Seq<Bucket>) -> Seq<BucketView> {
    Seq::new(buckets.len(), |i: int| buckets[i]@)
}

/// The views of a sequence of points, position by position.
pub open spec fn point_views(points: Seq<Point>) -> Seq<PointView> {
    Seq::new(points.len(), |i: int| points[i]@)
}

impl View for ProcessedChartData {
    type V = ChartDataView;

    open spec fn view(&self) -> ChartDataView {
        match self {
            ProcessedChartData::Bars { buckets } => ChartDataView::Bars {
                buckets: bucket_views(buckets@),
            },
            ProcessedChartData::Lines { points } => ChartDataView::Lines {
                points: point_views(points@),
            },
            ProcessedChartData::Empty => ChartDataView::Empty,
        }
    }
}

impl Clone for ProcessedChartData {
    fn clone(&self) -> (r: Self)
        ensures
            r@ == self@,
    {
        match self {
            ProcessedChartData::Bars { buckets } => {
                let mut copy: Vec<Bucket> = Vec::new();
                let mut i: usize = 0;
                while i < buckets.len()
                    invariant
                        i <= buckets@.len(),
                        copy@.len() == i,
                        forall|j: int| 0 <= j < i ==> copy@[j]@ == buckets@[j]@,
                    decreases buckets@.len() - i,
                {
                    copy.push(buckets[i].clone());
                    i += 1;
                }
                assert(bucket_views(copy@) =~= bucket_views(buckets@));
                ProcessedChartData::Bars { buckets: copy }
            },
            ProcessedChartData::Lines { points } => {
                let mut copy: Vec<Point> = Vec::new();
                let mut i: usize = 0;
                while i < points.len()
                    invariant
                        i <= points@.len(),
                        copy@ == points@.take(i as int),
                    decreases points@.len() - i,
                {
                    copy.push(points[i]);
                    i += 1;
                    assert(copy@ =~= points@.take(i as int));
                }
                assert(points@.take(i as int) =~= points@);
                ProcessedChartData::Lines { points: copy }
            },
            ProcessedChartData::Empty => ProcessedChartData::Empty,
        }
    }
}

/// The sum of the counts of a sequence of buckets.
pub open spec fn bucket_total(buckets: Seq<BucketView>) -> nat
    decreases buckets.len(),
{
    if buckets.len() == 0 {
        0
    } else {
        bucket_total(buckets.drop_last()) + buckets.last().count
    }
}

/// The sum of the counts of a sequence of points.
pub open spec fn point_total(points: Seq<PointView>) -> nat
    decreases points.len(),
{
    if points.len() == 0 {
        0
    } else {
        point_total(points.drop_last()) + points.last().y
    }
}

impl ChartDataView {
    /// The number of messages that the data counts.
    pub open spec fn total(self) -> nat {
        match self {
            ChartDataView::Bars { buckets } => bucket_total(buckets),
            ChartDataView::Lines { points } => point_total(points),
            ChartDataView::Empty => 0,
        }
    }
}

} // verus!
