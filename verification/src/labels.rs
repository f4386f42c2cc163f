//! The labels of the bars: weekdays and half hours.

use crate::digits::push_two_digits;
use crate::digits::two_digits;
use vstd::prelude::*;

verus! {

/// The label of a weekday, Monday first; empty for any other number.
pub open spec fn weekday_label(day: int) -> Seq<char> {
    if day == 0 {
        "Mon"@
    } else if day == 1 {
        "Tue"@
    } else if day == 2 {
        "Wed"@
    } else if day == 3 {
        "Thu"@
    } else if day == 4 {
        "Fri"@
    } else if day == 5 {
        "Sat"@
    } else if day == 6 {
        "Sun"@
    } else {
        Seq::empty()
    }
}

/// The label of a half hour of the day: the time `HH:MM` at which it begins.
pub open spec fn half_hour_label(bin: int) -> Seq<char> {
    two_digits(bin / 2) + seq![':'] + two_digits((bin % 2) * 30)
}

/// The label of the weekday `day`, Monday first.
pub(crate) fn weekday_name(day: usize) -> (r: &'static str)
    ensures
        r@ == weekday_label(day as int),
{
    if day == 0 {
        "Mon"
    } else if day == 1 {
        "Tue"
    } else if day == 2 {
        "Wed"
    } else if day == 3 {
        "Thu"
    } else if day == 4 {
        "Fri"
    } else if day == 5 {
        "Sat"
    } else if day == 6 {
        "Sun"
    } else {
        proof {
            reveal_strlit("");
        }
        assert(""@ =~= Seq::<char>::empty());
        ""
    }
}

/// The label of the half hour `bin` of the day.
pub(crate) fn half_hour_name(bin: usize) -> (r: String)
    requires
        bin < 48,
    ensures
        r@ == half_hour_label(bin as int),
{
    let mut text = String::new();
    push_two_digits(&mut text, (bin / 2) as u32);
    proof {
        reveal_strlit(":");
    }
    text.append(":");
    push_two_digits(&mut text, ((bin % 2) * 30) as u32);
    assert(text@ =~= half_hour_label(bin as int));
    text
}

/// The labels of the seven weekdays, Monday first.
pub(crate) fn weekday_labels() -> (r: Vec<String>)
    ensures
        r@.len() == 7,
        forall|day: int| 0 <= day < 7 ==> (#[trigger] r@[day])@ == weekday_label(day),
{
    let mut labels: Vec<String> = Vec::new();
    let mut day: usize = 0;
    while day < 7
        invariant
            day <= 7,
            labels@.len() == day,
            forall|j: int| 0 <= j < day ==> (#[trigger] labels@[j])@ == weekday_label(j),
        decreases 7 - day,
    {
        labels.push(String::from_str(weekday_name(day)));
        day += 1;
    }
    labels
}

/// The labels of the 48 half hours of the day, from 00:00 on.
pub(crate) fn half_hour_labels() -> (r: Vec<String>)
    ensures
        r@.len() == 48,
        forall|bin: int| 0 <= bin < 48 ==> (#[trigger] r@[bin])@ == half_hour_label(bin),
{
    let mut labels: Vec<String> = Vec::new();
    let mut bin: usize = 0;
    while bin < 48
        invariant
            bin <= 48,
            labels@.len() == bin,
            forall|j: int| 0 <= j < bin ==> (#[trigger] labels@[j])@ == half_hour_label(j),
        decreases 48 - bin,
    {
        labels.push(half_hour_name(bin));
        bin += 1;
    }
    labels
}

} // verus!
