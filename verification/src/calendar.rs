//! Calendar months: what chrono says of an instant, and the arithmetic of
//! years and months around it.

use crate::digits::four_digits_or_more;
use crate::digits::two_digits;
use crate::time::floor_div_mod;
use crate::time::in_range;
use crate::time::Timestamp;
use vstd::prelude::*;

verus! {

/// The year of the UTC calendar date that holds the instant `secs`, in the
/// proleptic Gregorian calendar as chrono reckons it; `None` where chrono
/// has no date for the instant.
pub uninterp spec fn civil_year(secs: int) -> Option<int>;

/// The month (1 to 12) of the UTC calendar date that holds the instant
/// `secs`; `None` where chrono has no date for the instant.
pub uninterp spec fn civil_month(secs: int) -> Option<int>;

/// The day of the month (1 to 31) of the UTC calendar date that holds the
/// instant `secs`; `None` where chrono has no date for the instant.
pub uninterp spec fn civil_day(secs: int) -> Option<int>;

/// The instant, in seconds since the epoch, at which the given month of the
/// given year begins in UTC; `None` where chrono has no such date.
pub uninterp spec fn month_start(year: int, month: int) -> Option<int>;

/// The year as a date shows it: in four digits from the year 0 to the year
/// 9999, and with a sign in front of four digits or more before and after.
pub open spec fn year_text(year: int) -> Seq<char> {
    if year < 0 {
        seq!['-'] + four_digits_or_more(-year)
    } else if year <= 9_999 {
        four_digits_or_more(year)
    } else {
        seq!['+'] + four_digits_or_more(year)
    }
}

/// The text `MM-DD` of the UTC calendar date that holds the instant `secs`:
/// its month and its day in two digits each; `None` where chrono has no
/// date for the instant.
pub open spec fn month_day_text(secs: int) -> Option<Seq<char>> {
    match (civil_month(secs), civil_day(secs)) {
        (Some(month), Some(day)) => Some(two_digits(month) + seq!['-'] + two_digits(day)),
        _ => None,
    }
}

/// The text `YYYY-MM` of the UTC calendar date that holds the instant
/// `secs`: its year and its month in two digits; `None` where chrono has no
/// date for the instant.
pub open spec fn year_month_text(secs: int) -> Option<Seq<char>> {
    match (civil_year(secs), civil_month(secs)) {
        (Some(year), Some(month)) => Some(year_text(year) + seq!['-'] + two_digits(month)),
        _ => None,
    }
}

/// A calendar month as chrono names it, with the instant at which it begins
/// in UTC, in seconds since the epoch.
#[derive(Debug, Clone, Copy, PartialEq, Eq, Structural)]
pub struct CivilMonth {
    pub year: i32,
    pub month: u32,
    pub start: i64,
}

/// What a `CivilMonth` stands for.
pub struct CivilMonthView {
    pub year: int,
    pub month: int,
    pub start: int,
}

impl View for CivilMonth {
    type V = CivilMonthView;

    open spec fn view(&self) -> CivilMonthView {
        CivilMonthView { year: self.year as int, month: self.month as int, start: self.start as int }
    }
}

/// What a calendar month that may be missing stands for.
pub open spec fn month_view(month: Option<CivilMonth>) -> Option<CivilMonthView> {
    match month {
        Some(m) => Some(m@),
        None => None,
    }
}

/// The calendar month of the UTC date that holds the instant `secs`: what
/// chrono gives as its year, its month and the first instant of that month;
/// `None` where chrono has no answer to one of the three.
pub open spec fn civil_month_at(secs: int) -> Option<CivilMonthView> {
    match (civil_year(secs), civil_month(secs)) {
        (Some(year), Some(month)) => match month_start(year, month) {
            Some(start) => Some(CivilMonthView { year, month, start }),
            None => None,
        },
        _ => None,
    }
}

/// The calendar month of the UTC date that holds the instant `at`, asked of
/// chrono.
pub fn civil_month_of(at: Timestamp) -> (r: Option<CivilMonth>)
    ensures
        month_view(r) == civil_month_at(at@),
{
    let secs: i64 = at.secs();
    match (utc_year(secs), utc_month(secs)) {
        (Some(year), Some(month)) => match utc_month_start(year, month) {
            Some(start) => Some(CivilMonth { year, month, start }),
            None => None,
        },
        _ => None,
    }
}

/// The number of a calendar month on a line on which every year has twelve
/// places: January of year 0 is 0, and December of the year before is -1.
pub open spec fn month_index(year: int, month: int) -> int {
    year * 12 + (month - 1)
}

/// The month `back` months before the given one, as year and month. Going
/// back from January leads to December of the year before. A month number
/// outside 1 to 12 is counted from the December before the year.
pub open spec fn months_before(year: int, month: int, back: int) -> (int, int) {
    let place = month_index(year, month) - back;
    (place / 12, place % 12 + 1)
}

/// Whether the first month is the second or comes after it.
pub open spec fn not_before(year: int, month: int, start: (int, int)) -> bool {
    year > start.0 || (year == start.0 && month >= start.1)
}

/// The first month of a window of `n` months that ends with the given
/// month: `n - 1` months before it, counted by year and month with the wrap
/// from January to December of the year before.
pub fn window_start(year: i32, month: u32, n: usize) -> (r: (i64, u32))
    ensures
        (r.0 as int, r.1 as int) == months_before(year as int, month as int, n - 1),
        1 <= r.1 <= 12,
{
    let place: i128 = (year as i128) * 12 + (month as i128 - 1) - (n as i128 - 1);
    let (years, months) = floor_div_mod(place, 12);
    (years as i64, (months + 1) as u32)
}

/// The month before January is December of the year before; the month
/// before any other is the one with the next smaller number in the same year.
pub proof fn lemma_month_before(year: int, month: int)
    requires
        1 <= month <= 12,
    ensures
        months_before(year, month, 1) == if month == 1 {
            (year - 1, 12int)
        } else {
            (year, month - 1)
        },
        months_before(year, month, 0) == (year, month),
{
}

/// Going back by `a` months and then by `b` is going back by `a + b`, and
/// the month reached is always one of the twelve.
pub proof fn lemma_months_before_twice(year: int, month: int, a: int, b: int)
    ensures
        1 <= months_before(year, month, a).1 <= 12,
        months_before(months_before(year, month, a).0, months_before(year, month, a).1, b)
            == months_before(year, month, a + b),
{
}

/// Among months with numbers from 1 to 12, a month is the start or comes
/// after it exactly when it is at most as far back on the line of months.
pub proof fn lemma_not_before(year: int, month: int, start: (int, int))
    requires
        1 <= month <= 12,
        1 <= start.1 <= 12,
    ensures
        not_before(year, month, start) <==> month_index(year, month) >= month_index(
            start.0,
            start.1,
        ),
{
}

/// The current time, read from the system clock through `chrono::Utc::now`
/// and cut to whole seconds by `DateTime::timestamp`. Claimed: the value
/// lies in the span of a `Timestamp`, which is that of a `DateTime<Utc>`.
/// Nothing else is known of it: it differs from call to call. Where the
/// system clock stands before 1970, chrono stops the program.
#[verifier::external_body]
pub(crate) fn utc_now() -> (r: Timestamp)
    ensures
        in_range(r@),
{
    Timestamp { secs: chrono::Utc::now().timestamp() }
}

/// Calls `Datelike::year` on the `DateTime<Utc>` that
/// `DateTime::from_timestamp(secs, 0)` makes. Claimed: the result is a
/// function of `secs` alone, named `civil_year`.
#[verifier::external_body]
pub(crate) fn utc_year(secs: i64) -> (r: Option<i32>)
    ensures
        match r {
            Some(y) => civil_year(secs as int) == Some(y as int),
            None => civil_year(secs as int) is None,
        },
{
    match chrono::DateTime::from_timestamp(secs, 0) {
        Some(t) => Some(chrono::Datelike::year(&t)),
        None => None,
    }
}

/// Calls `Datelike::month` on the `DateTime<Utc>` that
/// `DateTime::from_timestamp(secs, 0)` makes. Claimed: the result is a
/// function of `secs` alone, named `civil_month`, and a month number lies
/// between 1 and 12, as the method's documentation says.
#[verifier::external_body]
pub(crate) fn utc_month(secs: i64) -> (r: Option<u32>)
    ensures
        match r {
            Some(m) => civil_month(secs as int) == Some(m as int) && 1 <= m <= 12,
            None => civil_month(secs as int) is None,
        },
{
    match chrono::DateTime::from_timestamp(secs, 0) {
        Some(t) => Some(chrono::Datelike::month(&t)),
        None => None,
    }
}

/// Calls `NaiveDate::from_ymd_opt(year, month, 1)` and reads the date's
/// midnight as a UTC timestamp. Claimed: the result is a function of the
/// year and the month alone, named `month_start`.
#[verifier::external_body]
pub(crate) fn utc_month_start(year: i32, month: u32) -> (r: Option<i64>)
    ensures
        match r {
            Some(x) => month_start(year as int, month as int) == Some(x as int),
            None => month_start(year as int, month as int) is None,
        },
{
    match chrono::NaiveDate::from_ymd_opt(year, month, 1) {
        Some(d) => Some(d.and_time(chrono::NaiveTime::MIN).and_utc().timestamp()),
        None => None,
    }
}

/// Calls `DateTime::format` with the pattern `%m-%d` on the `DateTime<Utc>`
/// that `DateTime::from_timestamp(secs, 0)` makes. Claimed, as chrono
/// documents the two specifiers: the text is the month of the date, as
/// `Datelike::month` gives it, and its day, as `Datelike::day` gives it, each
/// filled with a zero to two digits, with `-` between them; there is no text
/// exactly where there is no date.
#[verifier::external_body]
pub(crate) fn format_month_day(secs: i64) -> (r: Option<String>)
    ensures
        match r {
            Some(s) => match (civil_month(secs as int), civil_day(secs as int)) {
                (Some(month), Some(day)) => s@ == two_digits(month) + seq!['-'] + two_digits(day),
                _ => false,
            },
            None => civil_month(secs as int) is None,
        },
{
    match chrono::DateTime::from_timestamp(secs, 0) {
        Some(t) => Some(t.format("%m-%d").to_string()),
        None => None,
    }
}

/// Calls `DateTime::format` with the pattern `%Y-%m` on the `DateTime<Utc>`
/// that `DateTime::from_timestamp(secs, 0)` makes. Claimed, as chrono
/// documents the two specifiers: the text is the year of the date, as
/// `Datelike::year` gives it, filled with zeros to four digits and with a
/// sign in front before the year 0 and after the year 9999, then `-`, then
/// the month as `Datelike::month` gives it, filled with a zero to two digits;
/// there is no text exactly where there is no date.
#[verifier::external_body]
pub(crate) fn format_year_month(secs: i64) -> (r: Option<String>)
    ensures
        match r {
            Some(s) => match (civil_year(secs as int), civil_month(secs as int)) {
                (Some(year), Some(month)) => s@ == year_text(year) + seq!['-'] + two_digits(month),
                _ => false,
            },
            None => civil_year(secs as int) is None,
        },
{
    match chrono::DateTime::from_timestamp(secs, 0) {
        Some(t) => Some(t.format("%Y-%m").to_string()),
        None => None,
    }
}

} // verus!
