//! The chart views and the state that computes and caches their data.

use crate::calendar::civil_month_at;
use crate::calendar::civil_month_of;
use crate::calendar::CivilMonth;
use crate::calendar::format_month_day;
use crate::calendar::format_year_month;
use crate::calendar::month_view;
use crate::calendar::months_before;
use crate::calendar::utc_now;
use crate::calendar::window_start;
use crate::counting::bars;
use crate::counting::count_in_bin;
use crate::counting::key_view;
use crate::counting::line_chart;
use crate::counting::record;
use crate::labels::half_hour_label;
use crate::labels::half_hour_labels;
use crate::labels::weekday_label;
use crate::labels::weekday_labels;
use crate::laws::lemma_day_of_week_chart;
use crate::laws::lemma_no_message_in_day_window;
use crate::laws::lemma_time_of_day_chart;
use crate::series::ChartDataView;
use crate::series::Point;
use crate::series::point_views;
use crate::series::PointView;
pub use crate::series::ProcessedChartData;
use crate::t3_json::T3Message;
use crate::tally::is_dense_tally;
use crate::tally::is_line_chart;
use crate::tally::is_sparse_tally;
use crate::tally::present;
use crate::time::day_of;
use crate::time::in_range;
use crate::time::Timestamp;
use crate::views::answers;
use crate::views::axis_text;
use crate::views::civil_months;
use crate::views::day_keys;
use crate::views::day_of_week_chart;
use crate::views::half_hour_keys;
use crate::views::in_day_window;
use crate::views::month_keys;
use crate::views::month_views;
use crate::views::time_of_day_chart;
use crate::views::weekday_keys;
use std::collections::HashMap;
use vstd::prelude::*;

verus! {

/// The available quick chart views.
#[derive(Debug, PartialEq, Eq, Clone, Copy, Hash, Structural)]
pub enum ChartType {
    DayOfWeek,
    Last30Days,
    Last12Months,
    TimeOfDay,
}

impl ChartType {
    /// The display name of each view, as a sequence of characters.
    pub open spec fn name_text(self) -> Seq<char> {
        match self {
            ChartType::DayOfWeek => "Message Volume by Day of Week"@,
            ChartType::Last30Days => "Message Volume Last 30 Days"@,
            ChartType::Last12Months => "Message Volume Last 12 Months"@,
            ChartType::TimeOfDay => "Message Volume by Time of Day"@,
        }
    }

    /// The views in the order in which a selection list shows them.
    pub open spec fn all_views() -> Seq<ChartType> {
        seq![
            ChartType::DayOfWeek,
            ChartType::Last30Days,
            ChartType::Last12Months,
            ChartType::TimeOfDay,
        ]
    }

    /// The number under which the cache keeps the view: its place in the
    /// order of `all`.
    spec fn number(self) -> u8 {
        match self {
            ChartType::DayOfWeek => 0,
            ChartType::Last30Days => 1,
            ChartType::Last12Months => 2,
            ChartType::TimeOfDay => 3,
        }
    }

    /// The number under which the cache keeps the view.
    fn slot(&self) -> (r: u8)
        ensures
            r == self.number(),
    {
        match self {
            ChartType::DayOfWeek => 0,
            ChartType::Last30Days => 1,
            ChartType::Last12Months => 2,
            ChartType::TimeOfDay => 3,
        }
    }

    /// The label that the x-axis shows at `x` where this view is drawn with
    /// `data`. A chart of bars shows the label of the bar at the index `x`,
    /// and nothing where no bar has that index. A chart over time takes `x`
    /// as seconds since the epoch and shows the month and the day of that
    /// instant for the last 30 days, its year and month for the last 12
    /// months, and nothing where the instant has no date.
    pub fn axis_label(&self, data: &ProcessedChartData, x: i64) -> (r: String)
        ensures
            r@ == axis_text(*self, data@, x as int),
    {
        match self {
            ChartType::DayOfWeek | ChartType::TimeOfDay => match data {
                ProcessedChartData::Bars { buckets } => {
                    if 0 <= x && (x as u64) < (buckets.len() as u64) {
                        buckets[x as usize].label.clone()
                    } else {
                        String::new()
                    }
                },
                _ => String::new(),
            },
            ChartType::Last30Days => label_or_empty(format_month_day(x)),
            ChartType::Last12Months => label_or_empty(format_year_month(x)),
        }
    }

    /// Returns a human-readable name for the chart type.
    pub fn name(&self) -> (r: &'static str)
        ensures
            r@ == self.name_text(),
    {
        match self {
            ChartType::DayOfWeek => "Message Volume by Day of Week",
            ChartType::Last30Days => "Message Volume Last 30 Days",
            ChartType::Last12Months => "Message Volume Last 12 Months",
            ChartType::TimeOfDay => "Message Volume by Time of Day",
        }
    }

    /// Returns all available chart types.
    pub fn all() -> (r: &'static [ChartType])
        ensures
            r@ == Self::all_views(),
    {
        &[
            ChartType::DayOfWeek,
            ChartType::Last30Days,
            ChartType::Last12Months,
            ChartType::TimeOfDay,
        ]
    }
}

/// The label for a formatted date: the text, or the empty text where the
/// date could not be formatted.
pub fn label_or_empty(text: Option<String>) -> (r: String)
    ensures
        r@ == match text {
            Some(t) => t@,
            None => Seq::<char>::empty(),
        },
{
    match text {
        Some(t) => t,
        None => String::new(),
    }
}

/// Structure to hold the state related to charting for a file.
pub struct ChartState {
    pub selected_chart: ChartType,
    /// Cache for processed chart data, by the number of the view.
    processed_data: HashMap<u8, ProcessedChartData>,
}

impl ChartState {
    /// The view that is shown.
    pub closed spec fn selected(&self) -> ChartType {
        self.selected_chart
    }

    /// The charts computed so far, by view.
    pub closed spec fn cache(&self) -> Map<ChartType, ChartDataView> {
        Map::new(
            |kind: ChartType| self.processed_data@.contains_key(kind.number()),
            |kind: ChartType| self.processed_data@[kind.number()]@,
        )
    }

    /// Creates a new ChartState with a default selected chart.
    pub fn new() -> (r: Self)
        ensures
            r.selected() == ChartType::DayOfWeek,
            r.cache() == Map::<ChartType, ChartDataView>::empty(),
    {
        let r = Self { selected_chart: ChartType::DayOfWeek, processed_data: HashMap::new() };
        assert(r.cache() =~= Map::<ChartType, ChartDataView>::empty());
        r
    }

    /// Makes `view` the selected chart. Nothing is computed, and the cache
    /// stays as it is.
    pub fn select(&mut self, view: ChartType)
        ensures
            final(self).selected() == view,
            final(self).cache() == old(self).cache(),
    {
        self.selected_chart = view;
    }

    /// Processes the raw messages data to generate plot points for a
    /// specific chart type, seen from the instant `now`, and caches the
    /// result. A view once cached is never computed again.
    pub fn process_messages_at(
        &mut self,
        chart_type: ChartType,
        messages: &[T3Message],
        now: Timestamp,
    ) -> (r: ProcessedChartData)
        ensures
            final(self).selected() == old(self).selected(),
            answers(old(self).cache(), chart_type, messages@, now@, final(self).cache(), r@),
    {
        let slot: u8 = chart_type.slot();
        // Check cache first
        if let Some(data) = self.processed_data.get(&slot) {
            return data.clone();
        }
        let processed_data = match chart_type {
            ChartType::DayOfWeek => self.process_day_of_week(messages),
            ChartType::Last30Days => self.process_last_n_days_at(messages, 30, now),
            ChartType::Last12Months => self.process_last_n_months_at(messages, 12, now),
            ChartType::TimeOfDay => self.process_time_of_day(messages),
        };
        // Store in cache
        self.processed_data.insert(slot, processed_data.clone());
        assert(self.cache() =~= old(self).cache().insert(chart_type, processed_data@));
        processed_data
    }

    /// Processes the raw messages data to generate plot points for a
    /// specific chart type, seen from the current time, and caches the
    /// result.
    pub fn process_messages(&mut self, chart_type: ChartType, messages: &[T3Message]) -> (r:
        ProcessedChartData)
        ensures
            final(self).selected() == old(self).selected(),
            exists|now: int|
                in_range(now) && #[trigger] answers(
                    old(self).cache(),
                    chart_type,
                    messages@,
                    now,
                    final(self).cache(),
                    r@,
                ),
    {
        let now: Timestamp = utc_now();
        self.process_messages_at(chart_type, messages, now)
    }

    /// Aggregates messages for the last `n` days before the current time.
    pub fn process_last_n_days(&self, messages: &[T3Message], n: usize) -> (r: ProcessedChartData)
        ensures
            exists|now: int|
                in_range(now) && is_line_chart(r@, #[trigger] day_keys(messages@, n as int, now))
                    && r@.total() == present(day_keys(messages@, n as int, now)),
    {
        let now: Timestamp = utc_now();
        self.process_last_n_days_at(messages, n, now)
    }

    /// Aggregates messages for the last `n` months before the current time.
    pub fn process_last_n_months(&self, messages: &[T3Message], n: usize) -> (r:
        ProcessedChartData)
        ensures
            exists|now: int|
                in_range(now) && is_line_chart(
                    r@,
                    month_keys(civil_months(messages@), #[trigger] civil_month_at(now), n as int),
                ) && r@.total() == present(
                    month_keys(civil_months(messages@), civil_month_at(now), n as int),
                ),
    {
        let now: Timestamp = utc_now();
        self.process_last_n_months_at(messages, n, now)
    }

    /// Aggregates messages by the weekday on which they were sent: seven
    /// bars from Monday to Sunday, also where a day has no message.
    pub fn process_day_of_week(&self, messages: &[T3Message]) -> (r: ProcessedChartData)
        ensures
            r@ == day_of_week_chart(messages@),
            r@.total() == messages@.len(),
    {
        let ghost keys = weekday_keys(messages@);
        let mut counts: Vec<usize> = vec![0; 7];
        let mut i: usize = 0;
        while i < messages.len()
            invariant
                i <= messages@.len(),
                keys == weekday_keys(messages@),
                counts@.len() == 7,
                is_dense_tally(counts@, keys.take(i as int)),
            decreases messages@.len() - i,
        {
            let day: usize = messages[i].created_at.weekday();
            assert(keys.take(i + 1) =~= keys.take(i as int).push(day as int));
            count_in_bin(&mut counts, day, Ghost(keys.take(i as int)));
            i += 1;
        }
        proof {
            assert(keys.take(i as int) =~= keys);
            lemma_day_of_week_chart(messages@);
        }
        let ghost label = |day: int| weekday_label(day);
        ProcessedChartData::Bars {
            buckets: bars(weekday_labels(), &counts, Ghost(keys), Ghost(label)),
        }
    }

    /// Aggregates messages by time of day, binned by 30 minutes: 48 bars
    /// from 00:00 to 23:30, also where a bin has no message. The day on which
    /// a message was sent plays no part.
    pub fn process_time_of_day(&self, messages: &[T3Message]) -> (r: ProcessedChartData)
        ensures
            r@ == time_of_day_chart(messages@),
            r@.total() == messages@.len(),
    {
        let ghost keys = half_hour_keys(messages@);
        let mut counts: Vec<usize> = vec![0; 48];
        let mut i: usize = 0;
        while i < messages.len()
            invariant
                i <= messages@.len(),
                keys == half_hour_keys(messages@),
                counts@.len() == 48,
                is_dense_tally(counts@, keys.take(i as int)),
            decreases messages@.len() - i,
        {
            let at: Timestamp = messages[i].created_at;
            let bin: usize = (at.hour() * 2 + at.minute() / 30) as usize;
            assert(keys.take(i + 1) =~= keys.take(i as int).push(bin as int));
            count_in_bin(&mut counts, bin, Ghost(keys.take(i as int)));
            i += 1;
        }
        proof {
            assert(keys.take(i as int) =~= keys);
            lemma_time_of_day_chart(messages@);
        }
        let ghost label = |bin: int| half_hour_label(bin);
        ProcessedChartData::Bars {
            buckets: bars(half_hour_labels(), &counts, Ghost(keys), Ghost(label)),
        }
    }

    /// Aggregates messages for the last `n` days, seen from `now`: one point
    /// for each day of the window on which a message was sent, at the first
    /// instant of the day. The window is today and the `n - 1` days before.
    pub fn process_last_n_days_at(
        &self,
        messages: &[T3Message],
        n: usize,
        now: Timestamp,
    ) -> (r: ProcessedChartData)
        ensures
            is_line_chart(r@, day_keys(messages@, n as int, now@)),
            r@.total() == present(day_keys(messages@, n as int, now@)),
            r@ is Empty <==> forall|i: int|
                0 <= i < messages@.len() ==> !in_day_window(
                    (#[trigger] messages@[i]).created_at@,
                    n as int,
                    now@,
                ),
    {
        let ghost keys = day_keys(messages@, n as int, now@);
        let today: i64 = now.day();
        let first: i128 = today as i128 - (n as i128 - 1);
        let mut points: Vec<Point> = Vec::new();
        let mut i: usize = 0;
        assert(point_views(points@) =~= Seq::<PointView>::empty());
        while i < messages.len()
            invariant
                i <= messages@.len(),
                keys == day_keys(messages@, n as int, now@),
                today == day_of(now@),
                first == today - (n - 1),
                is_sparse_tally(point_views(points@), keys.take(i as int)),
            decreases messages@.len() - i,
        {
            let at: Timestamp = messages[i].created_at;
            let day: i64 = at.day();
            let key: Option<i64> = if first <= day as i128 && day <= today {
                Some(at.start_of_day())
            } else {
                None
            };
            assert(keys.take(i + 1) =~= keys.take(i as int).push(key_view(key)));
            record(&mut points, key, Ghost(keys.take(i as int)));
            i += 1;
        }
        assert(keys.take(i as int) =~= keys);
        let r = line_chart(points, Ghost(keys));
        proof {
            lemma_no_message_in_day_window(messages@, n as int, now@, r@);
        }
        r
    }

    /// Aggregates messages for the last `n` months, seen from `now`: one
    /// point for each month from the first of the window on in which a
    /// message was sent, at the first instant of the month. The calendar
    /// months of the messages and of `now` are asked of chrono.
    pub fn process_last_n_months_at(
        &self,
        messages: &[T3Message],
        n: usize,
        now: Timestamp,
    ) -> (r: ProcessedChartData)
        ensures
            is_line_chart(r@, month_keys(civil_months(messages@), civil_month_at(now@), n as int)),
            r@.total() == present(
                month_keys(civil_months(messages@), civil_month_at(now@), n as int),
            ),
    {
        let current: Option<CivilMonth> = civil_month_of(now);
        let mut months: Vec<Option<CivilMonth>> = Vec::new();
        let mut i: usize = 0;
        while i < messages.len()
            invariant
                i <= messages@.len(),
                months@.len() == i,
                forall|j: int|
                    0 <= j < i ==> month_view(#[trigger] months@[j]) == civil_month_at(
                        messages@[j].created_at@,
                    ),
            decreases messages@.len() - i,
        {
            months.push(civil_month_of(messages[i].created_at));
            i += 1;
        }
        assert(month_views(months@) =~= civil_months(messages@));
        Self::months_chart(months.as_slice(), current, n)
    }

    /// The chart of the last `n` months for messages sent in the given
    /// months, where `current` is the month of today: one point for each
    /// month from the first of the window on in which a message was sent.
    /// The window starts `n - 1` months before the current month.
    pub fn months_chart(months: &[Option<CivilMonth>], current: Option<CivilMonth>, n: usize) -> (r:
        ProcessedChartData)
        ensures
            is_line_chart(r@, month_keys(month_views(months@), month_view(current), n as int)),
            r@.total() == present(month_keys(month_views(months@), month_view(current), n as int)),
    {
        let ghost keys = month_keys(month_views(months@), month_view(current), n as int);
        let start: Option<(i64, u32)> = match current {
            Some(c) => Some(window_start(c.year, c.month, n)),
            None => None,
        };
        let mut points: Vec<Point> = Vec::new();
        let mut i: usize = 0;
        assert(point_views(points@) =~= Seq::<PointView>::empty());
        while i < months.len()
            invariant
                i <= months@.len(),
                keys == month_keys(month_views(months@), month_view(current), n as int),
                match (start, current) {
                    (Some(s), Some(c)) => (s.0 as int, s.1 as int) == months_before(
                        c.year as int,
                        c.month as int,
                        n - 1,
                    ),
                    (None, None) => true,
                    _ => false,
                },
                is_sparse_tally(point_views(points@), keys.take(i as int)),
            decreases months@.len() - i,
        {
            let key: Option<i64> = match (months[i], start) {
                (Some(m), Some(s)) => {
                    let year: i64 = m.year as i64;
                    if year > s.0 || (year == s.0 && m.month >= s.1) {
                        Some(m.start)
                    } else {
                        None
                    }
                },
                _ => None,
            };
            assert(keys.take(i + 1) =~= keys.take(i as int).push(key_view(key)));
            record(&mut points, key, Ghost(keys.take(i as int)));
            i += 1;
        }
        assert(keys.take(i as int) =~= keys);
        line_chart(points, Ghost(keys))
    }
}

} // verus!
