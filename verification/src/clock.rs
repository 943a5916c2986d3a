//! Points in time and the calendar.
use vstd::prelude::*;

verus! {

/// The first second that the calendar reaches, counted from the start of 1970 in UTC: the start
/// of the year -9999.
pub const FIRST_SECOND: i64 = -377705116800;

/// The last second that the calendar reaches: the end of the year 9999.
pub const LAST_SECOND: i64 = 253402300799;

/// A date and a time of day.
#[derive(Debug, Clone, Copy, PartialEq, Eq, Structural)]
pub struct CivilTime {
    pub year: i32,
    pub month: u8,
    pub day: u8,
    pub hour: u8,
    pub minute: u8,
    pub second: u8,
}

/// Whether a year has 366 days.
pub open spec fn leap_year(year: int) -> bool {
    year % 4 == 0 && (year % 100 != 0 || year % 400 == 0)
}

/// The days of a month.
pub open spec fn days_in_month(year: int, month: int) -> int {
    if month == 2 {
        if leap_year(year) {
            29
        } else {
            28
        }
    } else if month == 4 || month == 6 || month == 9 || month == 11 {
        30
    } else {
        31
    }
}

/// The days of a year that come before a month.
pub open spec fn days_before_month(year: int, month: int) -> int
    decreases month,
{
    if month <= 1 {
        0
    } else {
        days_before_month(year, month - 1) + days_in_month(year, month - 1)
    }
}

/// The days from the start of the year 1 to the start of a year, negative before it.
pub open spec fn days_before_year(year: int) -> int {
    365 * (year - 1) + (year - 1) / 4 - (year - 1) / 100 + (year - 1) / 400
}

impl CivilTime {
    /// Whether the date and the time of day exist.
    pub open spec fn valid(self) -> bool {
        &&& 1 <= self.month <= 12
        &&& 1 <= self.day <= days_in_month(self.year as int, self.month as int)
        &&& self.hour < 24
        &&& self.minute < 60
        &&& self.second < 60
    }

    /// The days from the first of January 1970 to the date, negative before it.
    pub open spec fn day_number(self) -> int {
        days_before_year(self.year as int) - days_before_year(1970) + days_before_month(
            self.year as int,
            self.month as int,
        ) + self.day - 1
    }

    /// The seconds from the start of 1970 to this time, on a clock that was set alike.
    pub open spec fn seconds(self) -> int {
        86400 * self.day_number() + 3600 * self.hour + 60 * self.minute + self.second
    }
}

/// The date and the time of day that a clock shows so many seconds after it showed the start
/// of 1970.
pub open spec fn civil_time(seconds: int) -> CivilTime {
    choose|t: CivilTime| t.valid() && t.seconds() == seconds
}

proof fn lemma_days_before_month(year: int, month: int)
    requires
        1 <= month <= 13,
    ensures
        days_before_month(year, month) == if month <= 2 {
            31 * (month - 1)
        } else {
            (if leap_year(year) { 1int } else { 0 }) + (if month == 3 {
                59int
            } else if month == 4 {
                90
            } else if month == 5 {
                120
            } else if month == 6 {
                151
            } else if month == 7 {
                181
            } else if month == 8 {
                212
            } else if month == 9 {
                243
            } else if month == 10 {
                273
            } else if month == 11 {
                304
            } else if month == 12 {
                334
            } else {
                365
            })
        },
{
    reveal_with_fuel(days_before_month, 14);
}

proof fn lemma_year_length(year: int)
    ensures
        days_before_year(year + 1) - days_before_year(year) == if leap_year(year) {
            366int
        } else {
            365
        },
{
}

proof fn lemma_years_ascend(first: int, second: int)
    requires
        first < second,
    ensures
        days_before_year(first) + 365 <= days_before_year(second),
        days_before_year(first + 1) <= days_before_year(second),
    decreases second - first,
{
    lemma_year_length(first);
    if first + 1 < second {
        lemma_years_ascend(first + 1, second);
    }
}

/// The day of the year, counted from zero, and where the year stands on the count of days.
proof fn lemma_day_in_year(t: CivilTime)
    requires
        t.valid(),
    ensures
        0 <= days_before_month(t.year as int, t.month as int) + t.day - 1,
        days_before_year(t.year as int) + days_before_month(t.year as int, t.month as int) + t.day - 1
            < days_before_year(t.year + 1),
{
    lemma_days_before_month(t.year as int, t.month as int);
    lemma_year_length(t.year as int);
}

/// A clock shows each date and time of day only once.
pub proof fn lemma_civil_time_unique(a: CivilTime, b: CivilTime)
    requires
        a.valid(),
        b.valid(),
        a.seconds() == b.seconds(),
    ensures
        a == b,
{
    assert(a.day_number() == b.day_number());
    lemma_day_in_year(a);
    lemma_day_in_year(b);
    if a.year < b.year {
        lemma_years_ascend(a.year as int, b.year as int);
    }
    if b.year < a.year {
        lemma_years_ascend(b.year as int, a.year as int);
    }
    assert(a.year == b.year);
    lemma_days_before_month(a.year as int, a.month as int);
    lemma_days_before_month(a.year as int, b.month as int);
    assert(a.month == b.month);
}

/// Whether one date and time of day comes before another, by the first field in which they
/// differ.
pub open spec fn earlier(a: CivilTime, b: CivilTime) -> bool {
    if a.year != b.year {
        a.year < b.year
    } else if a.month != b.month {
        a.month < b.month
    } else if a.day != b.day {
        a.day < b.day
    } else if a.hour != b.hour {
        a.hour < b.hour
    } else if a.minute != b.minute {
        a.minute < b.minute
    } else {
        a.second < b.second
    }
}

/// A clock shows earlier dates and times of day before later ones.
pub proof fn lemma_earlier(a: CivilTime, b: CivilTime)
    requires
        a.valid(),
        b.valid(),
    ensures
        earlier(a, b) <==> a.seconds() < b.seconds(),
{
    if earlier(a, b) {
        lemma_earlier_seconds(a, b);
    } else if earlier(b, a) {
        lemma_earlier_seconds(b, a);
    }
}

proof fn lemma_earlier_seconds(a: CivilTime, b: CivilTime)
    requires
        a.valid(),
        b.valid(),
        earlier(a, b),
    ensures
        a.seconds() < b.seconds(),
{
    if a.year != b.year {
        lemma_day_in_year(a);
        lemma_day_in_year(b);
        lemma_years_ascend(a.year as int, b.year as int);
        assert(a.day_number() < b.day_number());
    } else if a.month != b.month {
        lemma_days_before_month(a.year as int, a.month as int);
        lemma_days_before_month(a.year as int, b.month as int);
        assert(a.day_number() < b.day_number());
    }
}

/// The date of a day, counted from the first of January 1970.
proof fn lemma_date_of_day(day_number: int) -> (t: CivilTime)
    requires
        -4371587 <= day_number <= 2932896,
    ensures
        t.valid(),
        t.day_number() == day_number,
        -9999 <= t.year <= 9999,
        t.hour == 0,
        t.minute == 0,
        t.second == 0,
    decreases day_number + 4371587,
{
    if day_number == -4371587 {
        let first = CivilTime { year: -9999i32, month: 1, day: 1, hour: 0, minute: 0, second: 0 };
        lemma_days_before_month(-9999, 1);
        first
    } else {
        let before = lemma_date_of_day(day_number - 1);
        let year = before.year as int;
        let month = before.month as int;
        if before.day < days_in_month(year, month) {
            CivilTime { day: (before.day + 1) as u8, ..before }
        } else if before.month < 12 {
            let t = CivilTime { month: (before.month + 1) as u8, day: 1, ..before };
            assert(days_before_month(year, month + 1) == days_before_month(year, month)
                + days_in_month(year, month));
            t
        } else {
            lemma_days_before_month(year, 12);
            lemma_year_length(year);
            lemma_days_before_month(year + 1, 1);
            assert(year < 9999);
            CivilTime { year: (before.year + 1) as i32, month: 1, day: 1, ..before }
        }
    }
}

/// Every second of the calendar has a date and a time of day.
pub proof fn lemma_civil_time(seconds: int)
    requires
        FIRST_SECOND <= seconds <= LAST_SECOND,
    ensures
        civil_time(seconds).valid(),
        civil_time(seconds).seconds() == seconds,
        -9999 <= civil_time(seconds).year <= 9999,
{
    let midnight = lemma_date_of_day(seconds / 86400);
    let rest = seconds % 86400;
    let t = CivilTime {
        hour: (rest / 3600) as u8,
        minute: (rest / 60 % 60) as u8,
        second: (rest % 60) as u8,
        ..midnight
    };
    assert(rest == 3600 * (rest / 3600) + 60 * (rest / 60 % 60) + rest % 60);
    assert(t.valid() && t.seconds() == seconds);
    lemma_civil_time_unique(t, civil_time(seconds));
}

/// What a clock shows that was set to a given offset from UTC:
/// `time::OffsetDateTime::from_unix_timestamp`, moved by `to_offset` and read field by field.
/// The date and time of day exist and are as many seconds away from the start of 1970 as the
/// point in time is, plus the offset.
#[verifier::external_body]
fn clock_at_offset(unix_seconds: i64, offset_hours: i8) -> (r: CivilTime)
    requires
        -25 <= offset_hours <= 25,
        FIRST_SECOND <= unix_seconds <= LAST_SECOND,
        FIRST_SECOND <= unix_seconds + 3600 * offset_hours <= LAST_SECOND,
    ensures
        r.valid(),
        r.seconds() == unix_seconds + 3600 * offset_hours,
{
    let offset = time::UtcOffset::from_hms(offset_hours, 0, 0).unwrap();
    let utc = time::OffsetDateTime::from_unix_timestamp(unix_seconds).unwrap();
    let t = utc.to_offset(offset);
    CivilTime {
        year: t.year(),
        month: u8::from(t.month()),
        day: t.day(),
        hour: t.hour(),
        minute: t.minute(),
        second: t.second(),
    }
}

/// `time::OffsetDateTime::now_utc`, in seconds since the start of 1970. What the system clock
/// shows is not stated; a clock beyond the calendar does not return.
#[verifier::external_body]
pub(crate) fn now() -> (r: i64)
    ensures
        FIRST_SECOND <= r <= LAST_SECOND,
{
    time::OffsetDateTime::now_utc().unix_timestamp()
}

/// Whether Vietnamese clocks show a date of the calendar at a point in time.
pub open spec fn in_calendar(unix_seconds: int) -> bool {
    FIRST_SECOND <= unix_seconds && unix_seconds + 25200 <= LAST_SECOND
}

/// Whether Vietnamese clocks show a date of the calendar at a point in time.
pub fn calendar_reaches(unix_seconds: i64) -> (r: bool)
    ensures
        r == in_calendar(unix_seconds as int),
{
    FIRST_SECOND <= unix_seconds && unix_seconds <= LAST_SECOND - 25200
}

/// What Vietnamese clocks show, seven hours ahead of UTC.
pub open spec fn vietnam_time(unix_seconds: int) -> CivilTime {
    civil_time(unix_seconds + 25200)
}

/// What Vietnamese clocks show at a point in time.
pub fn vietnam_clock(unix_seconds: i64) -> (r: CivilTime)
    requires
        in_calendar(unix_seconds as int),
    ensures
        r == vietnam_time(unix_seconds as int),
        r.valid(),
        r.seconds() == unix_seconds + 25200,
        -9999 <= r.year <= 9999,
{
    let t = clock_at_offset(unix_seconds, 7);
    proof {
        lemma_civil_time(unix_seconds + 25200);
        lemma_civil_time_unique(t, civil_time(unix_seconds + 25200));
    }
    t
}

} // verus!
