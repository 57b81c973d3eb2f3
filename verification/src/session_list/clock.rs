//! Moments as a calendar and a clock at hand show them.

use chrono::{Datelike, TimeZone, Timelike};
use vstd::prelude::*;

use crate::text;
use crate::text::{chars_of, concat, decimal_text};

verus! {

/// A moment in the time zone of the machine, to the minute. `day_number` counts the days, with
/// the first day of the year one as day one.
#[derive(Clone, Copy, Debug, PartialEq, Eq, Structural)]
pub struct LocalMoment {
    pub year: i32,
    pub month: u32,
    pub day: u32,
    pub hour: u32,
    pub minute: u32,
    pub day_number: i32,
}

/// The year has a leap day.
pub open spec fn is_leap(year: int) -> bool {
    year % 4 == 0 && (year % 100 != 0 || year % 400 == 0)
}

/// How many days of the year come before a month.
pub open spec fn days_before_month(month: int, leap: bool) -> int {
    let leap_day: int = if leap && month > 2 {
        1
    } else {
        0
    };
    leap_day + if month == 1 {
        0int
    } else if month == 2 {
        31
    } else if month == 3 {
        59
    } else if month == 4 {
        90
    } else if month == 5 {
        120
    } else if month == 6 {
        151
    } else if month == 7 {
        181
    } else if month == 8 {
        212
    } else if month == 9 {
        243
    } else if month == 10 {
        273
    } else if month == 11 {
        304
    } else {
        334
    }
}

/// The number of a day, with the first day of the year one as day one.
pub open spec fn day_number_of(year: int, month: int, day: int) -> int {
    let past = year - 1;
    365 * past + past / 4 - past / 100 + past / 400 + days_before_month(month, is_leap(year)) + day
}

impl LocalMoment {
    /// The fields are those of a day and a time of day, and the number of the day is right.
    pub open spec fn is_valid(self) -> bool {
        &&& 1 <= self.month <= 12
        &&& 1 <= self.day <= 31
        &&& self.hour < 24
        &&& self.minute < 60
        &&& self.day_number == day_number_of(self.year as int, self.month as int, self.day as int)
    }

    /// The seconds from the start of 1970 to the moment, on the local clock.
    pub open spec fn clock(self) -> int {
        (self.day_number - 719163) * 86400 + self.hour * 3600 + self.minute * 60
    }
}

/// The first and the last second of the years that are written with four digits.
pub open spec fn in_four_digit_years(seconds: int) -> bool {
    -62135596800 <= seconds <= 253402300799
}

/// The moment may be the one that lies the given number of seconds behind the start of 1970, in
/// some time zone. Only a time beyond the years of four digits may be unknown.
pub open spec fn may_be_at(moment: Option<LocalMoment>, seconds: int) -> bool {
    &&& moment matches Some(known) ==> known.is_valid() && seconds - 86460 < known.clock() < seconds
        + 86400
    &&& in_four_digit_years(seconds) ==> moment is Some
}

/// The moment that lies the given number of seconds behind the start of 1970, in the time zone
/// of the machine.
///
/// Calls `chrono::TimeZone::timestamp_opt` on `chrono::Local`. What comes back depends on the
/// time zone of the machine. The contract claims that the fields are in their ranges and agree
/// with each other, that the local clock is less than a day from the given time, and that every
/// time within the years of four digits is known. Times far beyond them are unknown; which ones
/// is left unsaid, as is the time zone.
#[verifier::external_body]
fn local_moment(seconds: i64) -> (r: Option<LocalMoment>)
    ensures
        may_be_at(r, seconds as int),
{
    match chrono::Local.timestamp_opt(seconds, 0).single() {
        Some(t) => Some(
            LocalMoment {
                year: t.year(),
                month: t.month(),
                day: t.day(),
                hour: t.hour(),
                minute: t.minute(),
                day_number: t.num_days_from_ce(),
            },
        ),
        None => None,
    }
}

impl LocalMoment {
    /// The moment that lies the given number of seconds behind the start of 1970, in the time
    /// zone of the machine.
    pub fn at(seconds: i64) -> (r: Option<LocalMoment>)
        ensures
            may_be_at(r, seconds as int),
    {
        local_moment(seconds)
    }
}

/// A number in decimal, filled up with zeros in front.
pub open spec fn padded(n: nat, width: nat) -> Seq<char> {
    let digits = text::decimal(n);
    if digits.len() >= width {
        digits
    } else {
        Seq::new((width - digits.len()) as nat, |i: int| '0') + digits
    }
}

/// A year: four digits, and a sign where they do not suffice.
pub open spec fn year_text(year: int) -> Seq<char> {
    if year < 0 {
        "-"@ + padded((0 - year) as nat, 4)
    } else if year > 9999 {
        "+"@ + padded(year as nat, 4)
    } else {
        padded(year as nat, 4)
    }
}

/// The time of day.
pub open spec fn time_text(moment: LocalMoment) -> Seq<char> {
    padded(moment.hour as nat, 2) + ":"@ + padded(moment.minute as nat, 2)
}

/// The day of the year.
pub open spec fn day_text(moment: LocalMoment) -> Seq<char> {
    padded(moment.month as nat, 2) + "-"@ + padded(moment.day as nat, 2)
}

/// The day of the year and the time of day.
pub open spec fn day_time_text(moment: LocalMoment) -> Seq<char> {
    day_text(moment) + " "@ + time_text(moment)
}

/// The day with its year.
pub open spec fn date_text(moment: LocalMoment) -> Seq<char> {
    year_text(moment.year as int) + "-"@ + day_text(moment)
}

pub(crate) fn pad(n: u64, width: usize) -> (r: String)
    ensures
        r@ == padded(n as nat, width as nat),
{
    let digits: String = decimal_text(n);
    let count: usize = chars_of(digits.as_str()).len();
    let mut out: String = String::new();
    let mut i: usize = count;
    while i < width
        invariant
            count == digits@.len(),
            count <= i,
            out@ == Seq::new((i - count) as nat, |k: int| '0'),
            i <= width || i == count,
        decreases width - i,
    {
        proof {
            reveal_strlit("0");
        }
        out.append("0");
        i = i + 1;
        assert(out@ =~= Seq::new((i - count) as nat, |k: int| '0'));
    }
    out.append(digits.as_str());
    if count >= width {
        assert(out@ =~= digits@);
    }
    out
}

impl LocalMoment {
    /// The time of day.
    pub fn time(&self) -> (r: String)
        ensures
            r@ == time_text(*self),
    {
        let mut out: String = pad(self.hour as u64, 2);
        out.append(":");
        out.append(pad(self.minute as u64, 2).as_str());
        out
    }

    /// The day of the year.
    pub fn day_of_year(&self) -> (r: String)
        ensures
            r@ == day_text(*self),
    {
        let mut out: String = pad(self.month as u64, 2);
        out.append("-");
        out.append(pad(self.day as u64, 2).as_str());
        out
    }

    /// The day of the year and the time of day.
    pub fn day_and_time(&self) -> (r: String)
        ensures
            r@ == day_time_text(*self),
    {
        let mut out: String = concat(self.day_of_year().as_str(), " ");
        out.append(self.time().as_str());
        out
    }

    /// The day with its year.
    pub fn date(&self) -> (r: String)
        ensures
            r@ == date_text(*self),
    {
        let mut out: String = if self.year < 0 {
            concat("-", pad((0 - self.year as i64) as u64, 4).as_str())
        } else if self.year > 9999 {
            concat("+", pad(self.year as u64, 4).as_str())
        } else {
            pad(self.year as u64, 4)
        };
        out.append("-");
        out.append(self.day_of_year().as_str());
        out
    }
}

/// What is said of a moment in the past, as seen from another: the time of day for today and
/// yesterday, the day for the same year, and the date for what is longer ago. A moment that lies
/// ahead counts as today.
pub open spec fn ago_text(moment: LocalMoment, now: LocalMoment) -> Seq<char> {
    let days = now.day_number - moment.day_number;
    if days <= 0 {
        "今天 "@ + time_text(moment)
    } else if days == 1 {
        "昨天 "@ + time_text(moment)
    } else if moment.year == now.year {
        day_time_text(moment)
    } else {
        date_text(moment)
    }
}

/// What is said of when a session was last active. What was never recorded, or lies beyond the
/// calendar, is unknown.
pub open spec fn updated_text(timestamp: u64, moment: Option<LocalMoment>, now: LocalMoment) -> Seq<
    char,
> {
    match moment {
        Some(moment) if timestamp != 0 => ago_text(moment, now),
        _ => "时间未知"@,
    }
}

/// What is said of when a session was last active, where the moment is known already.
pub fn updated_at_text(timestamp: u64, moment: Option<LocalMoment>, now: &LocalMoment) -> (r:
    String)
    ensures
        r@ == updated_text(timestamp, moment, *now),
{
    if timestamp == 0 {
        return "时间未知".to_owned();
    }
    match moment {
        None => "时间未知".to_owned(),
        Some(moment) => {
            let days: i64 = now.day_number as i64 - moment.day_number as i64;
            if days <= 0 {
                concat("今天 ", moment.time().as_str())
            } else if days == 1 {
                concat("昨天 ", moment.time().as_str())
            } else if moment.year == now.year {
                moment.day_and_time()
            } else {
                moment.date()
            }
        },
    }
}

/// The seconds that a timestamp stands for. One beyond the clock counts as its last second.
pub open spec fn seconds_of(timestamp: u64) -> int {
    if timestamp > i64::MAX {
        i64::MAX as int
    } else {
        timestamp as int
    }
}

/// What is said of when a session was last active. The time does not go stale while it is
/// shown: it names the day, not how long ago that is.
pub fn session_updated_at_text(timestamp: u64, now: &LocalMoment) -> (r: String)
    ensures
        timestamp == 0 ==> r@ == "时间未知"@,
        exists|moment: Option<LocalMoment>|
            #![trigger updated_text(timestamp, moment, *now)]
            r@ == updated_text(timestamp, moment, *now) && may_be_at(
                moment,
                seconds_of(timestamp),
            ),
{
    let seconds: i64 = if timestamp > 9223372036854775807 {
        9223372036854775807
    } else {
        timestamp as i64
    };
    let moment: Option<LocalMoment> = LocalMoment::at(seconds);
    let r: String = updated_at_text(timestamp, moment, now);
    assert(r@ == updated_text(timestamp, moment, *now));
    r
}

/// What happens on the same day is told by the time of day, and by nothing else.
pub proof fn same_day_shows_the_time(timestamp: u64, moment: LocalMoment, now: LocalMoment)
    requires
        timestamp != 0,
        moment.day_number == now.day_number,
    ensures
        updated_text(timestamp, Some(moment), now) == "今天 "@ + time_text(moment),
{
}

/// What is said of a moment stays the same all day.
pub proof fn texts_last_all_day(timestamp: u64, moment: Option<LocalMoment>, now: LocalMoment, later: LocalMoment)
    requires
        now.day_number == later.day_number,
        now.year == later.year,
    ensures
        updated_text(timestamp, moment, now) == updated_text(timestamp, moment, later),
{
}

} // verus!
