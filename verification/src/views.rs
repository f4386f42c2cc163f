//! What each view shows: the chart of a view as a function of the messages
//! and of the time, and what the cache and the axis make of it.

use crate::calendar::civil_month_at;
use crate::calendar::CivilMonth;
use crate::calendar::CivilMonthView;
use crate::calendar::month_day_text;
use crate::calendar::month_view;
use crate::calendar::months_before;
use crate::calendar::not_before;
use crate::calendar::year_month_text;
use crate::charts::ChartType;
use crate::labels::half_hour_label;
use crate::labels::weekday_label;
use crate::series::ChartDataView;
use crate::t3_json::T3Message;
use crate::tally::dense_bars;
use crate::tally::is_line_chart;
use crate::tally::present;
use crate::time::day_of;
use crate::time::day_start;
use crate::time::hour_of;
use crate::time::minute_of;
use crate::time::weekday_of;
use vstd::prelude::*;

verus! {

/// For each message, the weekday on which it was sent, Monday first.
pub open spec fn weekday_keys(messages: Seq<T3Message>) -> Seq<int> {
    Seq::new(messages.len(), |i: int| weekday_of(messages[i].created_at@))
}

/// The chart of messages by weekday: seven bars from Monday to Sunday.
pub open spec fn day_of_week_chart(messages: Seq<T3Message>) -> ChartDataView {
    ChartDataView::Bars {
        buckets: dense_bars(weekday_keys(messages), 7, |day: int| weekday_label(day)),
    }
}

/// The half hour of the day, from 0 to 47, that holds the instant `secs`.
pub open spec fn half_hour_of(secs: int) -> int {
    hour_of(secs) * 2 + minute_of(secs) / 30
}

/// For each message, the half hour of the day in which it was sent.
pub open spec fn half_hour_keys(messages: Seq<T3Message>) -> Seq<int> {
    Seq::new(messages.len(), |i: int| half_hour_of(messages[i].created_at@))
}

/// The chart of messages by time of day: 48 bars, one for each half hour
/// from 00:00 on.
pub open spec fn time_of_day_chart(messages: Seq<T3Message>) -> ChartDataView {
    ChartDataView::Bars {
        buckets: dense_bars(half_hour_keys(messages), 48, |bin: int| half_hour_label(bin)),
    }
}

/// Whether a message sent at `secs` lies in the window of the last `n` days
/// seen from `now`: its UTC day is today or one of the `n - 1` days before.
pub open spec fn in_day_window(secs: int, n: int, now: int) -> bool {
    day_of(now) - (n - 1) <= day_of(secs) <= day_of(now)
}

/// The point of the daily chart at which a message sent at `secs` is
/// counted: the first instant of its UTC day, where that day lies in the
/// window.
pub open spec fn day_key(secs: int, n: int, now: int) -> Option<int> {
    if in_day_window(secs, n, now) {
        Some(day_start(day_of(secs)))
    } else {
        None
    }
}

/// For each message, the point of the chart of the last `n` days, seen from
/// `now`, at which it is counted.
pub open spec fn day_keys(messages: Seq<T3Message>, n: int, now: int) -> Seq<Option<int>> {
    Seq::new(messages.len(), |i: int| day_key(messages[i].created_at@, n, now))
}

/// The point of the monthly chart at which a message sent in `month` is
/// counted, in a window of `n` months that ends with the month `current`:
/// the first instant of its month, where that month is not before the first
/// of the window. A message before the window has none, nor has one whose
/// month is not known, and none has one where the current month is not
/// known.
pub open spec fn month_key(
    month: Option<CivilMonthView>,
    current: Option<CivilMonthView>,
    n: int,
) -> Option<int> {
    match (month, current) {
        (Some(m), Some(c)) => if not_before(
            m.year,
            m.month,
            months_before(c.year, c.month, n - 1),
        ) {
            Some(m.start)
        } else {
            None
        },
        _ => None,
    }
}

/// For each of the months in which a message was sent, the point of the
/// chart of the last `n` months at which the message is counted.
pub open spec fn month_keys(
    months: Seq<Option<CivilMonthView>>,
    current: Option<CivilMonthView>,
    n: int,
) -> Seq<Option<int>> {
    Seq::new(months.len(), |i: int| month_key(months[i], current, n))
}

/// What a sequence of calendar months stands for, position by position.
pub open spec fn month_views(months: Seq<Option<CivilMonth>>) -> Seq<Option<CivilMonthView>> {
    Seq::new(months.len(), |i: int| month_view(months[i]))
}

/// For each message, the calendar month in which it was sent.
pub open spec fn civil_months(messages: Seq<T3Message>) -> Seq<Option<CivilMonthView>> {
    Seq::new(messages.len(), |i: int| civil_month_at(messages[i].created_at@))
}

/// Whether `data` is the chart of the view `kind` for `messages`, seen from
/// the instant `now`. The two charts by weekday and by time of day do not
/// depend on `now`; the other two show the last 30 days and the last 12
/// months before it.
pub open spec fn depicts(
    kind: ChartType,
    messages: Seq<T3Message>,
    now: int,
    data: ChartDataView,
) -> bool {
    match kind {
        ChartType::DayOfWeek => data == day_of_week_chart(messages),
        ChartType::Last30Days => is_line_chart(data, day_keys(messages, 30, now)),
        ChartType::Last12Months => is_line_chart(
            data,
            month_keys(civil_months(messages), civil_month_at(now), 12),
        ),
        ChartType::TimeOfDay => data == time_of_day_chart(messages),
    }
}

/// How many of the messages the chart of the view `kind` counts, seen from
/// `now`: all of them by weekday and by time of day, and those in the window
/// for the last 30 days and the last 12 months.
pub open spec fn counted(kind: ChartType, messages: Seq<T3Message>, now: int) -> nat {
    match kind {
        ChartType::DayOfWeek => messages.len(),
        ChartType::Last30Days => present(day_keys(messages, 30, now)),
        ChartType::Last12Months => present(
            month_keys(civil_months(messages), civil_month_at(now), 12),
        ),
        ChartType::TimeOfDay => messages.len(),
    }
}

/// One request for the chart of `kind` against a cache: a view that the
/// cache holds is answered from it, whatever the messages are, and the cache
/// stays as it is; any other is computed from `messages` and `now`, and
/// stored.
pub open spec fn answers(
    before: Map<ChartType, ChartDataView>,
    kind: ChartType,
    messages: Seq<T3Message>,
    now: int,
    after: Map<ChartType, ChartDataView>,
    data: ChartDataView,
) -> bool {
    if before.contains_key(kind) {
        data == before[kind] && after == before
    } else {
        depicts(kind, messages, now, data) && after == before.insert(kind, data)
    }
}

/// The label of the bar at `index`; empty where the data has no such bar.
pub open spec fn bar_label(data: ChartDataView, index: int) -> Seq<char> {
    match data {
        ChartDataView::Bars { buckets } => if 0 <= index < buckets.len() {
            buckets[index].label
        } else {
            Seq::empty()
        },
        _ => Seq::empty(),
    }
}

/// The text, or the empty text where there is none.
pub open spec fn text_or_empty(text: Option<Seq<char>>) -> Seq<char> {
    match text {
        Some(t) => t,
        None => Seq::empty(),
    }
}

/// The label that the x-axis of the view `kind`, drawn with `data`, shows
/// at `x`.
pub open spec fn axis_text(kind: ChartType, data: ChartDataView, x: int) -> Seq<char> {
    match kind {
        ChartType::DayOfWeek => bar_label(data, x),
        ChartType::Last30Days => text_or_empty(month_day_text(x)),
        ChartType::Last12Months => text_or_empty(year_month_text(x)),
        ChartType::TimeOfDay => bar_label(data, x),
    }
}

} // verus!
