//! What holds of the charts and of the cache, whatever the messages are.

use crate::calendar::civil_month_at;
use crate::calendar::CivilMonthView;
use crate::calendar::lemma_not_before;
use crate::calendar::month_index;
use crate::calendar::months_before;
use crate::charts::ChartType;
use crate::labels::half_hour_label;
use crate::labels::weekday_label;
use crate::series::ChartDataView;
use crate::t3_json::T3Message;
use crate::tally::is_line_chart;
use crate::tally::lemma_bin_total;
use crate::tally::lemma_dense_bars_total;
use crate::tally::lemma_line_chart_empty;
use crate::tally::lemma_line_chart_total;
use crate::tally::lemma_line_chart_unique;
use crate::tally::lemma_occurrences_positive;
use crate::time::day_of;
use crate::time::day_start;
use crate::views::answers;
use crate::views::civil_months;
use crate::views::counted;
use crate::views::day_keys;
use crate::views::day_of_week_chart;
use crate::views::depicts;
use crate::views::half_hour_keys;
use crate::views::in_day_window;
use crate::views::month_key;
use crate::views::month_keys;
use crate::views::time_of_day_chart;
use crate::views::weekday_keys;
use vstd::arithmetic::div_mod::lemma_fundamental_div_mod;
use vstd::arithmetic::div_mod::lemma_fundamental_div_mod_converse;
use vstd::prelude::*;

verus! {

/// The chart by weekday has seven bars, labelled from Monday to Sunday in
/// this order, and their counts add up to the number of messages.
pub proof fn lemma_day_of_week_chart(messages: Seq<T3Message>)
    ensures
        day_of_week_chart(messages) is Bars,
        day_of_week_chart(messages)->buckets.len() == 7,
        forall|day: int|
            0 <= day < 7 ==> (#[trigger] day_of_week_chart(messages)->buckets[day]).label
                == weekday_label(day),
        day_of_week_chart(messages).total() == messages.len(),
{
    let keys = weekday_keys(messages);
    lemma_dense_bars_total(keys, 7, |day: int| weekday_label(day));
    lemma_bin_total(keys, 7);
}

/// The chart by time of day has 48 bars, each labelled with the time at
/// which its half hour begins, and their counts add up to the number of
/// messages.
pub proof fn lemma_time_of_day_chart(messages: Seq<T3Message>)
    ensures
        time_of_day_chart(messages) is Bars,
        time_of_day_chart(messages)->buckets.len() == 48,
        forall|bin: int|
            0 <= bin < 48 ==> (#[trigger] time_of_day_chart(messages)->buckets[bin]).label
                == half_hour_label(bin),
        time_of_day_chart(messages).total() == messages.len(),
{
    let keys = half_hour_keys(messages);
    lemma_dense_bars_total(keys, 48, |bin: int| half_hour_label(bin));
    lemma_bin_total(keys, 48);
}

/// The chart of the last `n` days is the empty marker exactly where no
/// message lies in the window.
pub proof fn lemma_no_message_in_day_window(
    messages: Seq<T3Message>,
    n: int,
    now: int,
    data: ChartDataView,
)
    requires
        is_line_chart(data, day_keys(messages, n, now)),
    ensures
        data is Empty <==> forall|i: int|
            0 <= i < messages.len() ==> !in_day_window(
                (#[trigger] messages[i]).created_at@,
                n,
                now,
            ),
{
    let keys = day_keys(messages, n, now);
    lemma_line_chart_empty(data, keys);
    if data is Empty {
        assert forall|i: int| 0 <= i < messages.len() implies !in_day_window(
            (#[trigger] messages[i]).created_at@,
            n,
            now,
        ) by {
            assert(keys[i] is None);
        }
    } else {
        let i = choose|i: int| 0 <= i < keys.len() && !(keys[i] is None);
        assert(in_day_window(messages[i].created_at@, n, now));
    }
}

/// The edges of the window of the last `n` days, for `n` of 1 or more: a
/// message sent on the day `n - 1` days before today is counted, at the
/// first instant of its day, and a message sent on the day before that is
/// not counted. A message sent exactly `n - 1` days before `now`, to the
/// second, is of the first kind, and one sent exactly `n` days before `now`
/// is of the second.
pub proof fn lemma_day_window_edges(
    messages: Seq<T3Message>,
    n: int,
    now: int,
    data: ChartDataView,
    i: int,
)
    requires
        n >= 1,
        0 <= i < messages.len(),
        is_line_chart(data, day_keys(messages, n, now)),
    ensures
        day_of(messages[i].created_at@) == day_of(now) - (n - 1) ==> {
            &&& in_day_window(messages[i].created_at@, n, now)
            &&& data is Lines
            &&& exists|j: int|
                0 <= j < data->points.len() && (#[trigger] data->points[j]).x == day_start(
                    day_of(now) - (n - 1),
                ) && data->points[j].y >= 1
        },
        day_of(messages[i].created_at@) == day_of(now) - n ==> {
            &&& !in_day_window(messages[i].created_at@, n, now)
            &&& day_keys(messages, n, now)[i] is None
        },
        messages[i].created_at@ == now - (n - 1) * 86_400 ==> day_of(messages[i].created_at@)
            == day_of(now) - (n - 1),
        messages[i].created_at@ == now - n * 86_400 ==> day_of(messages[i].created_at@) == day_of(
            now,
        ) - n,
{
    let keys = day_keys(messages, n, now);
    let secs = messages[i].created_at@;
    lemma_day_shift(now, -(n - 1));
    lemma_day_shift(now, -n);
    if day_of(secs) == day_of(now) - (n - 1) {
        let k = day_start(day_of(now) - (n - 1));
        assert(keys[i] == Some(k));
        lemma_occurrences_positive(keys, Some(k));
        lemma_line_chart_empty(data, keys);
    }
}

/// An instant a whole number of days away lies that many days away.
pub proof fn lemma_day_shift(secs: int, days: int)
    ensures
        day_of(secs + days * 86_400) == day_of(secs) + days,
{
    lemma_fundamental_div_mod(secs, 86_400);
    lemma_fundamental_div_mod_converse(
        secs + days * 86_400,
        86_400,
        secs / 86_400 + days,
        secs % 86_400,
    );
}

/// The edges of the window of the last `n` months, for `n` of 1 or more and
/// months numbered from 1 to 12: a message sent in the month `n - 1` months
/// before the current one is counted, at the first instant of its month, and
/// a message sent in the month before that is not counted. Seen from March,
/// the twelve months reach back over the new year to April.
pub proof fn lemma_month_window_edges(month: CivilMonthView, current: CivilMonthView, n: int)
    requires
        n >= 1,
        1 <= month.month <= 12,
        1 <= current.month <= 12,
    ensures
        month_index(month.year, month.month) == month_index(current.year, current.month) - (n
            - 1) ==> month_key(Some(month), Some(current), n) == Some(month.start),
        month_index(month.year, month.month) == month_index(current.year, current.month) - n
            ==> month_key(Some(month), Some(current), n) is None,
        month_index(month.year, month.month) >= month_index(current.year, current.month) - (n
            - 1) <==> month_key(Some(month), Some(current), n) == Some(month.start),
{
    let start = months_before(current.year, current.month, n - 1);
    lemma_not_before(month.year, month.month, start);
}

/// The counts of a chart add up to the number of messages that its view
/// counts: all of them, or those in the window.
pub proof fn lemma_chart_counts_each_message_once(
    kind: ChartType,
    messages: Seq<T3Message>,
    now: int,
    data: ChartDataView,
)
    requires
        depicts(kind, messages, now, data),
    ensures
        data.total() == counted(kind, messages, now),
{
    match kind {
        ChartType::DayOfWeek => {
            lemma_day_of_week_chart(messages);
        },
        ChartType::Last30Days => {
            lemma_line_chart_total(data, day_keys(messages, 30, now));
        },
        ChartType::Last12Months => {
            lemma_line_chart_total(
                data,
                month_keys(civil_months(messages), civil_month_at(now), 12),
            );
        },
        ChartType::TimeOfDay => {
            lemma_time_of_day_chart(messages);
        },
    }
}

/// Of a view and its messages, seen from one instant, there is one chart
/// only.
pub proof fn lemma_depicts_unique(
    kind: ChartType,
    messages: Seq<T3Message>,
    now: int,
    a: ChartDataView,
    b: ChartDataView,
)
    requires
        depicts(kind, messages, now, a),
        depicts(kind, messages, now, b),
    ensures
        a == b,
{
    match kind {
        ChartType::Last30Days => {
            lemma_line_chart_unique(a, b, day_keys(messages, 30, now));
        },
        ChartType::Last12Months => {
            lemma_line_chart_unique(
                a,
                b,
                month_keys(civil_months(messages), civil_month_at(now), 12),
            );
        },
        _ => {},
    }
}

/// The cache answers a view the second time as the first time: of two
/// requests for the same view, one after the other with no other between
/// them, the second returns what the first returned and leaves the cache as
/// it is, whatever messages and time it is given. Where the view was not
/// cached before the first request, both return the chart of the first
/// request's messages.
pub proof fn lemma_cache_idempotent(
    before: Map<ChartType, ChartDataView>,
    kind: ChartType,
    messages_a: Seq<T3Message>,
    now_a: int,
    between: Map<ChartType, ChartDataView>,
    first: ChartDataView,
    messages_b: Seq<T3Message>,
    now_b: int,
    after: Map<ChartType, ChartDataView>,
    second: ChartDataView,
)
    requires
        answers(before, kind, messages_a, now_a, between, first),
        answers(between, kind, messages_b, now_b, after, second),
    ensures
        second == first,
        after == between,
        !before.contains_key(kind) ==> depicts(kind, messages_a, now_a, second),
{
}

/// A request for one view leaves what the cache holds for every other view
/// as it is, and afterwards the cache holds the view that was asked for.
pub proof fn lemma_cache_keeps_others(
    before: Map<ChartType, ChartDataView>,
    kind: ChartType,
    messages: Seq<T3Message>,
    now: int,
    after: Map<ChartType, ChartDataView>,
    data: ChartDataView,
    other: ChartType,
)
    requires
        answers(before, kind, messages, now, after, data),
    ensures
        after.contains_key(kind),
        after[kind] == data,
        other != kind ==> after.contains_key(other) == before.contains_key(other),
        other != kind && before.contains_key(other) ==> after[other] == before[other],
{
}

} // verus!
