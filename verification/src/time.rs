//! Instants in whole seconds, and the day, weekday, hour and minute that
//! hold them in UTC.

use vstd::arithmetic::div_mod::lemma_fundamental_div_mod;
use vstd::arithmetic::div_mod::lemma_fundamental_div_mod_converse;
use vstd::prelude::*;

verus! {

/// Seconds in one UTC day.
pub const SECONDS_PER_DAY: i64 = 86_400;

/// The first instant that a `Timestamp` can hold: the first second of the
/// year 262144 BCE.
pub const FIRST_SECOND: i64 = -8_334_601_228_800;

/// The last instant that a `Timestamp` can hold: the last second of the year
/// 262142 CE.
pub const LAST_SECOND: i64 = 8_210_266_876_799;

/// The number of the UTC calendar day that holds `secs`, counted from
/// 1970-01-01 as day 0; days before the epoch are negative.
pub open spec fn day_of(secs: int) -> int {
    secs / 86_400
}

/// The second within its UTC day, from 0 to 86399.
pub open spec fn second_of_day(secs: int) -> int {
    secs % 86_400
}

/// The weekday of the UTC day that holds `secs`: Monday is 0, Sunday is 6.
/// Day 0 (1970-01-01) was a Thursday.
pub open spec fn weekday_of(secs: int) -> int {
    (day_of(secs) + 3) % 7
}

/// The hour of the UTC day, from 0 to 23.
pub open spec fn hour_of(secs: int) -> int {
    second_of_day(secs) / 3_600
}

/// The minute of the hour, from 0 to 59.
pub open spec fn minute_of(secs: int) -> int {
    (second_of_day(secs) % 3_600) / 60
}

/// The first second of UTC day number `day`.
pub open spec fn day_start(day: int) -> int {
    day * 86_400
}

/// Whether `secs` is an instant that a `Timestamp` can hold.
pub open spec fn in_range(secs: int) -> bool {
    FIRST_SECOND <= secs <= LAST_SECOND
}

/// An instant on the UTC time line, held as whole seconds since
/// 1970-01-01T00:00:00Z (negative before it). Leap seconds are not counted.
/// Every value lies between `FIRST_SECOND` and `LAST_SECOND`.
#[derive(Debug, Clone, Copy, PartialEq, Eq, Hash)]
pub struct Timestamp {
    pub(crate) secs: i64,
}

impl View for Timestamp {
    type V = int;

    closed spec fn view(&self) -> int {
        self.secs as int
    }
}

impl Timestamp {
    /// No value leaves the span from `FIRST_SECOND` to `LAST_SECOND`.
    #[verifier::type_invariant]
    spec fn stays_in_range(self) -> bool {
        in_range(self.secs as int)
    }

    /// The instant `secs` seconds after the epoch, where a `Timestamp` can
    /// hold it.
    pub fn from_secs(secs: i64) -> (r: Option<Timestamp>)
        ensures
            r is Some <==> in_range(secs as int),
            r matches Some(t) ==> t@ == secs,
    {
        if FIRST_SECOND <= secs && secs <= LAST_SECOND {
            Some(Timestamp { secs })
        } else {
            None
        }
    }

    /// The seconds since the epoch.
    pub fn secs(&self) -> (r: i64)
        ensures
            r == self@,
            in_range(r as int),
    {
        proof {
            use_type_invariant(self);
        }
        self.secs
    }

    /// The day number of this instant.
    pub fn day(&self) -> (r: i64)
        ensures
            r == day_of(self@),
    {
        floor_div_mod(self.secs as i128, 86_400).0 as i64
    }

    /// The first second of the day of this instant.
    pub fn start_of_day(&self) -> (r: i64)
        ensures
            r == day_start(day_of(self@)),
    {
        proof {
            use_type_invariant(self);
        }
        self.day() * SECONDS_PER_DAY
    }

    /// The second within the day of this instant.
    pub fn second_of_day(&self) -> (r: u32)
        ensures
            r == second_of_day(self@),
            r < 86_400,
    {
        floor_div_mod(self.secs as i128, 86_400).1 as u32
    }

    /// The weekday of this instant, Monday first.
    pub fn weekday(&self) -> (r: usize)
        ensures
            r == weekday_of(self@),
            r < 7,
    {
        proof {
            use_type_invariant(self);
        }
        let day: i64 = self.day();
        floor_div_mod(day as i128 + 3, 7).1 as usize
    }

    /// The hour of the day of this instant.
    pub fn hour(&self) -> (r: u32)
        ensures
            r == hour_of(self@),
            r < 24,
    {
        self.second_of_day() / 3_600
    }

    /// The minute of the hour of this instant.
    pub fn minute(&self) -> (r: u32)
        ensures
            r == minute_of(self@),
            r < 60,
    {
        (self.second_of_day() % 3_600) / 60
    }
}

/// The quotient of `a` by `d`, rounded down, and the remainder that goes
/// with it, which is never negative. The operators of the machine round
/// towards zero: left of zero the two differ.
pub fn floor_div_mod(a: i128, d: i128) -> (r: (i128, i128))
    requires
        d > 0,
    ensures
        r.0 == a / d,
        r.1 == a % d,
        0 <= r.1 < d,
{
    if a >= 0 {
        proof {
            lemma_fundamental_div_mod(a as int, d as int);
        }
        (a / d, a % d)
    } else {
        let b: i128 = -(a + 1);
        let q: i128 = b / d;
        let m: i128 = b % d;
        proof {
            lemma_fundamental_div_mod(b as int, d as int);
            assert((-q - 1) * d + (d - 1 - m) == -(d * q + m) - 1) by (nonlinear_arith);
            lemma_fundamental_div_mod_converse(a as int, d as int, -q - 1, d - 1 - m);
        }
        (-q - 1, d - 1 - m)
    }
}

} // verus!
