//! Moments in time, as the `time` crate tells them, held as plain integers.

use vstd::prelude::*;

verus! {

/// Nanoseconds in one second.
pub const NANOS_PER_SECOND: i128 = 1_000_000_000;

/// The Unix timestamp of the first second that the `time` crate can name:
/// the first second of the year -9999 in UTC.
pub const MIN_UNIX_TIMESTAMP: i64 = -377_705_116_800;

/// The Unix timestamp of the last second that the `time` crate can name:
/// the last second of the year 9999 in UTC.
pub const MAX_UNIX_TIMESTAMP: i64 = 253_402_300_799;

/// The widest distance in seconds between a local clock and UTC: 25:59:59.
pub const MAX_OFFSET_SECONDS: i64 = 93_599;

/// `seconds` is a Unix timestamp within the years -9999 to 9999 in UTC.
pub open spec fn is_unix_timestamp(seconds: int) -> bool {
    MIN_UNIX_TIMESTAMP <= seconds <= MAX_UNIX_TIMESTAMP
}

/// A moment in time, whatever the offset of the clock that told it.
#[derive(Debug, Clone, Copy, PartialEq, Eq, Structural, Hash)]
pub struct OffsetDateTime {
    /// Nanoseconds since 1970-01-01 00:00 UTC.
    pub unix_nanos: i128,
}

impl OffsetDateTime {
    /// The moment is one that some clock names by a date in the years -9999 to 9999.
    pub open spec fn wf(self) -> bool {
        (MIN_UNIX_TIMESTAMP - MAX_OFFSET_SECONDS) * NANOS_PER_SECOND <= self.unix_nanos < (
        MAX_UNIX_TIMESTAMP + MAX_OFFSET_SECONDS + 1) * NANOS_PER_SECOND
    }

    /// The moment that lies `seconds` after the start of 1970 in UTC.
    pub open spec fn at_second(self, seconds: int) -> bool {
        self.unix_nanos == seconds * NANOS_PER_SECOND
    }
}

/// A date, by year and day of the year, with a time of day, on a clock whose
/// offset is not told.
#[derive(Debug, Clone, Copy, PartialEq, Eq, Structural, Hash)]
pub struct PrimitiveDateTime {
    pub year: i32,
    /// Day of the year, from 1.
    pub ordinal: u16,
    pub hour: u8,
    pub minute: u8,
    pub second: u8,
}

/// Leap years of the proleptic Gregorian calendar.
pub open spec fn is_leap_year(year: int) -> bool {
    year % 4 == 0 && (year % 100 != 0 || year % 400 == 0)
}

/// Days from 1970-01-01 to the day `ordinal` of `year`.
pub open spec fn days_from_epoch(year: int, ordinal: int) -> int {
    365 * (year - 1) + (year - 1) / 4 - (year - 1) / 100 + (year - 1) / 400 + ordinal - 719_163
}

/// The Unix timestamp of a date and time of day in UTC.
pub open spec fn utc_seconds(year: int, ordinal: int, hour: int, minute: int, second: int) -> int {
    days_from_epoch(year, ordinal) * 86_400 + hour * 3_600 + minute * 60 + second
}

/// The numbers name a day in the years -9999 to 9999 and a time of day.
pub open spec fn is_date_time(year: int, ordinal: int, hour: int, minute: int, second: int) -> bool {
    &&& -9999 <= year <= 9999
    &&& 1 <= ordinal <= 365 || ordinal == 366 && is_leap_year(year)
    &&& 0 <= hour < 24
    &&& 0 <= minute < 60
    &&& 0 <= second < 60
}

impl PrimitiveDateTime {
    pub open spec fn wf(self) -> bool {
        is_date_time(
            self.year as int,
            self.ordinal as int,
            self.hour as int,
            self.minute as int,
            self.second as int,
        )
    }

    /// The Unix timestamp, if the clock is one of UTC.
    pub open spec fn utc_seconds(self) -> int {
        utc_seconds(
            self.year as int,
            self.ordinal as int,
            self.hour as int,
            self.minute as int,
            self.second as int,
        )
    }

    /// Reads the date and time of day as one of UTC, and gives its Unix timestamp.
    pub fn assume_utc_timestamp(&self) -> (seconds: i64)
        requires
            self.wf(),
        ensures
            seconds == self.utc_seconds(),
            is_unix_timestamp(seconds as int),
    {
        proof {
            lemma_utc_seconds_in_range(*self);
        }
        assume_utc_timestamp(self.year, self.ordinal, self.hour, self.minute, self.second)
    }
}

/// Every date and time of day of the years -9999 to 9999 has its Unix timestamp
/// within the range of those years.
pub proof fn lemma_utc_seconds_in_range(datetime: PrimitiveDateTime)
    requires
        datetime.wf(),
    ensures
        is_unix_timestamp(datetime.utc_seconds()),
{
    assert(days_from_epoch(-9999, 1) == -4_371_587);
    assert(days_from_epoch(9999, 365) == 2_932_896);
}

/// Trusted: `time::PrimitiveDateTime::assume_utc`, and `unix_timestamp` of what it
/// gives. The date is made by `Date::from_ordinal_date` and the time of day by
/// `with_hms`, which take exactly the numbers that `is_date_time` admits. The claim
/// is that the result counts the seconds from 1970-01-01 00:00 to that moment in the
/// Gregorian calendar, leap seconds left out.
#[verifier::external_body]
fn assume_utc_timestamp(year: i32, ordinal: u16, hour: u8, minute: u8, second: u8) -> (seconds: i64)
    requires
        is_date_time(year as int, ordinal as int, hour as int, minute as int, second as int),
    ensures
        seconds == utc_seconds(
            year as int,
            ordinal as int,
            hour as int,
            minute as int,
            second as int,
        ),
{
    let date = time::Date::from_ordinal_date(year, ordinal).unwrap();
    date.with_hms(hour, minute, second).unwrap().assume_utc().unix_timestamp()
}

/// Trusted: `time::OffsetDateTime::from_unix_timestamp`, with its result read back by
/// `unix_timestamp_nanos`. The claim is that it takes exactly the timestamps of the
/// years -9999 to 9999, and that the moment it gives lies on that second.
#[verifier::external_body]
pub(crate) fn from_unix_timestamp(seconds: i64) -> (moment: Option<OffsetDateTime>)
    ensures
        moment is Some <==> is_unix_timestamp(seconds as int),
        moment matches Some(m) ==> m.at_second(seconds as int),
{
    let moment = time::OffsetDateTime::from_unix_timestamp(seconds).ok()?;
    Some(OffsetDateTime { unix_nanos: moment.unix_timestamp_nanos() })
}

/// Trusted: `time::OffsetDateTime::now_utc`, and `unix_timestamp` of what it gives.
/// The result is whatever the machine's clock says; the claim is only that it lies
/// in the years -9999 to 9999, as every moment of that type in UTC does. With a clock
/// that is set to a later year it panics.
#[verifier::external_body]
pub(crate) fn now_utc_timestamp() -> (seconds: i64)
    ensures
        is_unix_timestamp(seconds as int),
{
    time::OffsetDateTime::now_utc().unix_timestamp()
}

/// Leap years come every four years, but for centuries that 400 does not divide.
pub proof fn law_leap_years(year: int)
    ensures
        is_leap_year(year) <==> year % 400 == 0 || (year % 4 == 0 && year % 100 != 0),
        is_leap_year(year) == is_leap_year(year + 400),
{
}

/// Unix timestamps start with 1970 and count on: by 1 from second to second, by 60 from
/// minute to minute, by 3600 from hour to hour and by 86400 from day to day.
pub proof fn law_timestamps_count_on(year: int, ordinal: int, hour: int, minute: int, second: int)
    ensures
        utc_seconds(1970, 1, 0, 0, 0) == 0,
        utc_seconds(year, ordinal, hour, minute, second + 1) == utc_seconds(
            year,
            ordinal,
            hour,
            minute,
            second,
        ) + 1,
        utc_seconds(year, ordinal, hour, minute + 1, second) == utc_seconds(
            year,
            ordinal,
            hour,
            minute,
            second,
        ) + 60,
        utc_seconds(year, ordinal, hour + 1, minute, second) == utc_seconds(
            year,
            ordinal,
            hour,
            minute,
            second,
        ) + 3_600,
        utc_seconds(year, ordinal + 1, hour, minute, second) == utc_seconds(
            year,
            ordinal,
            hour,
            minute,
            second,
        ) + 86_400,
{
}

/// The first day of a year comes a day after the last day of the year before, which is its
/// 366th if that is a leap year and its 365th if not.
pub proof fn law_years_follow_each_other(year: int, hour: int, minute: int, second: int)
    ensures
        utc_seconds(year + 1, 1, hour, minute, second) == utc_seconds(
            year,
            (if year % 400 == 0 || (year % 4 == 0 && year % 100 != 0) {
                366
            } else {
                365
            }),
            hour,
            minute,
            second,
        ) + 86_400,
{
    lemma_quotients_step(year);
    assert(year % 100 == 0 ==> year % 4 == 0);
    assert(year % 400 == 0 ==> year % 100 == 0);
    let last: int = if year % 400 == 0 || (year % 4 == 0 && year % 100 != 0) {
        366
    } else {
        365
    };
    assert(days_from_epoch(year + 1, 1) == days_from_epoch(year, last) + 1);
}

/// A quotient goes up by one exactly at the multiples of the divisor.
proof fn lemma_quotients_step(n: int)
    ensures
        n / 4 - (n - 1) / 4 == (if n % 4 == 0 {
            1int
        } else {
            0
        }),
        n / 100 - (n - 1) / 100 == (if n % 100 == 0 {
            1int
        } else {
            0
        }),
        n / 400 - (n - 1) / 400 == (if n % 400 == 0 {
            1int
        } else {
            0
        }),
{
}

/// A date and time of day is told by its five numbers, each within its usual bounds, and its
/// Unix timestamp is that of these numbers.
pub proof fn law_date_time_is_its_numbers(datetime: PrimitiveDateTime)
    ensures
        datetime.wf() <==> {
            let year = datetime.year as int;
            let leap = year % 400 == 0 || (year % 4 == 0 && year % 100 != 0);
            &&& -9999 <= year <= 9999
            &&& 1 <= datetime.ordinal <= (if leap {
                366int
            } else {
                365
            })
            &&& datetime.hour <= 23
            &&& datetime.minute <= 59
            &&& datetime.second <= 59
        },
        datetime.utc_seconds() == utc_seconds(
            datetime.year as int,
            datetime.ordinal as int,
            datetime.hour as int,
            datetime.minute as int,
            datetime.second as int,
        ),
{
}

/// The Unix timestamps are those from the first second of the year -9999 to the last second
/// of the year 9999.
pub proof fn law_timestamps_span_the_calendar(seconds: int)
    ensures
        is_unix_timestamp(seconds) <==> utc_seconds(-9999, 1, 0, 0, 0) <= seconds <= utc_seconds(
            9999,
            365,
            23,
            59,
            59,
        ),
        is_unix_timestamp(seconds) <==> -377_705_116_800 <= seconds <= 253_402_300_799,
{
}

/// A moment is at a second if that many times a thousand million nanoseconds have passed
/// since 1970, and every moment of the calendar is told by some clock.
pub proof fn law_moments_are_nanoseconds(moment: OffsetDateTime, seconds: int)
    ensures
        moment.at_second(seconds) <==> moment.unix_nanos == seconds * 1_000_000_000,
        moment.at_second(seconds) && is_unix_timestamp(seconds) ==> moment.wf(),
        moment.wf() <==> (-377_705_116_800 - 93_599) * 1_000_000_000 <= moment.unix_nanos < (
        253_402_300_799 + 93_600) * 1_000_000_000,
{
}

} // verus!
