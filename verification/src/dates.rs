//! Calendar values as plain data: civil dates, epoch-based date-times, and
//! the conversions between protocol timestamps and both, matching what the
//! calendar library accepts and rejects.

use vstd::prelude::*;
use crate::wire;

verus! {

/// The first and last whole days (in days since the Unix epoch) that the
/// calendar library can represent: January 1 of astronomical year -262143
/// (262144 BCE) and December 31 of year 262142.
pub const EPOCH_DAYS_MIN: i64 = -96_465_292;
pub const EPOCH_DAYS_MAX: i64 = 95_026_236;

/// The same two days counted in the proleptic Gregorian day count that takes
/// 0001-01-01 CE as day 1.
pub const DAYS_FROM_CE_MIN: i32 = -95_746_129;
pub const DAYS_FROM_CE_MAX: i32 = 95_745_399;

/// 1970-01-01 in the day count that takes 0001-01-01 CE as day 1.
pub const UNIX_EPOCH_DAY: i32 = 719_163;

/// The years the calendar library can represent.
pub const YEAR_MIN: i32 = -262_143;
pub const YEAR_MAX: i32 = 262_142;

/// A leap year of the proleptic Gregorian calendar.
pub open spec fn is_leap_year(year: int) -> bool {
    year % 4 == 0 && (year % 100 != 0 || year % 400 == 0)
}

/// How many days the given month of the given year has.
pub open spec fn days_in_month(year: int, month: int) -> int {
    if month == 2 {
        if is_leap_year(year) {
            29
        } else {
            28
        }
    } else if month == 4 || month == 6 || month == 9 || month == 11 {
        30
    } else {
        31
    }
}

/// A representable day of the proleptic Gregorian calendar.
pub open spec fn valid_date(year: int, month: int, day: int) -> bool {
    &&& YEAR_MIN <= year <= YEAR_MAX
    &&& 1 <= month <= 12
    &&& 1 <= day <= days_in_month(year, month)
}

/// A civil date.
#[derive(Debug, Clone, Copy, PartialEq, Eq, Structural)]
pub struct Date {
    pub year: i32,
    pub month: u8,
    pub day: u8,
}

impl Date {
    /// The date names a representable calendar day.
    pub open spec fn wf(&self) -> bool {
        valid_date(self.year as int, self.month as int, self.day as int)
    }
}

/// The day number that the calendar assigns to a date, counting 0001-01-01 CE
/// as day 1. The calendar library computes it; its value is a function of the
/// three arguments alone.
pub uninterp spec fn days_from_ce_of(year: int, month: int, day: int) -> int;

/// Relies on chrono::NaiveDate::from_ymd_opt and Datelike::num_days_from_ce:
/// the day count of the proleptic Gregorian calendar, with 0001-01-01 CE as
/// day 1 and 1970-01-01 as day 719163; every representable date falls between
/// the day counts of the calendar's first and last representable days.
#[verifier::external_body]
pub(crate) fn days_from_ce(d: &Date) -> (r: i32)
    requires
        d.wf(),
    ensures
        r == days_from_ce_of(d.year as int, d.month as int, d.day as int),
        d.year == 1970 && d.month == 1 && d.day == 1 ==> r == 719_163,
        DAYS_FROM_CE_MIN <= r <= DAYS_FROM_CE_MAX,
{
    let nd = chrono::NaiveDate::from_ymd_opt(d.year, d.month as u32, d.day as u32).unwrap();
    chrono::Datelike::num_days_from_ce(&nd)
}

/// Relies on chrono::NaiveDate::from_num_days_from_ce_opt and its accessors:
/// the date whose day count (0001-01-01 CE as day 1) is the argument; day 0
/// of the Unix epoch count, 719163 here, is 1970-01-01.
#[verifier::external_body]
pub(crate) fn date_of_days_from_ce(days: i32) -> (r: Date)
    requires
        DAYS_FROM_CE_MIN <= days <= DAYS_FROM_CE_MAX,
    ensures
        r.wf(),
        days_from_ce_of(r.year as int, r.month as int, r.day as int) == days,
        days == 719_163 ==> r == (Date { year: 1970, month: 1, day: 1 }),
{
    let nd = chrono::NaiveDate::from_num_days_from_ce_opt(days).unwrap();
    Date {
        year: chrono::Datelike::year(&nd),
        month: chrono::Datelike::month(&nd) as u8,
        day: chrono::Datelike::day(&nd) as u8,
    }
}

/// Floor division by the number of seconds in a day.
pub(crate) fn floor_div_86400(s: i64) -> (q: i64)
    ensures
        q == s as int / 86400,
{
    match s.checked_div_euclid(86400) {
        Some(q) => q,
        None => {
            proof {
                vstd::arithmetic::div_mod::lemma_fundamental_div_mod(s as int, 86400);
                assert(i64::MIN <= s as int / 86400 <= i64::MAX) by (nonlinear_arith)
                    requires
                        86400 * (s as int / 86400) + (s as int % 86400) == s as int,
                        0 <= s as int % 86400 < 86400,
                        i64::MIN <= s as int <= i64::MAX,
                ;
            }
            0
        },
    }
}

/// A date-time, kept as the protocol counts it: non-leap seconds since the
/// Unix epoch plus nanoseconds within the second.
#[derive(Debug, Clone, Copy, PartialEq, Eq, Structural)]
pub struct DateTime {
    pub seconds: i64,
    pub nanos: u32,
}

impl DateTime {
    /// The value lies on a representable calendar day and its nanosecond part
    /// is meaningful (below two seconds, allowing leap-second readings).
    pub open spec fn wf(&self) -> bool {
        &&& EPOCH_DAYS_MIN <= self.seconds as int / 86400 <= EPOCH_DAYS_MAX
        &&& self.nanos < 2_000_000_000
    }

    /// The calendar day the value falls on.
    pub fn date(&self) -> (r: Date)
        requires
            self.wf(),
        ensures
            r.wf(),
            days_from_ce_of(r.year as int, r.month as int, r.day as int)
                == self.seconds as int / 86400 + 719_163,
    {
        let days = floor_div_86400(self.seconds);
        date_of_days_from_ce((days + UNIX_EPOCH_DAY as i64) as i32)
    }
}

/// A timestamp the calendar library accepts: its day is representable and its
/// nanosecond part, read as the protocol's unsigned count, is below two
/// seconds.
pub open spec fn ts_valid(seconds: int, nanos: int) -> bool {
    &&& EPOCH_DAYS_MIN <= seconds / 86400 <= EPOCH_DAYS_MAX
    &&& 0 <= nanos < 2_000_000_000
}

/// A wire timestamp read as a date-time: accepted exactly when the calendar
/// library would accept it.
pub fn timestamp_to_datetime(t: &wire::Timestamp) -> (r: Option<DateTime>)
    ensures
        r is Some <==> ts_valid(t.seconds as int, t.nanos as int),
        r matches Some(dt) ==> dt == (DateTime { seconds: t.seconds, nanos: t.nanos as u32 })
            && dt.wf(),
{
    let days = floor_div_86400(t.seconds);
    if 0 <= t.nanos && t.nanos < 2_000_000_000 && EPOCH_DAYS_MIN <= days && days
        <= EPOCH_DAYS_MAX {
        Some(DateTime { seconds: t.seconds, nanos: t.nanos as u32 })
    } else {
        None
    }
}

/// A wire timestamp written back from a date-time.
pub fn datetime_to_timestamp(t: &DateTime) -> (r: wire::Timestamp)
    requires
        t.wf(),
    ensures
        r.seconds == t.seconds,
        r.nanos == t.nanos as i32,
{
    wire::Timestamp { seconds: t.seconds, nanos: t.nanos as i32 }
}

/// How an optional wire timestamp field is read as an optional date: absent
/// or unrepresentable timestamps give nothing, and an accepted one gives the
/// day it falls on.
pub open spec fn date_field_converted(field: Option<wire::Timestamp>, r: Option<Date>) -> bool {
    match field {
        None => r is None,
        Some(t) => if ts_valid(t.seconds as int, t.nanos as int) {
            r matches Some(d) && d.wf() && days_from_ce_of(
                d.year as int,
                d.month as int,
                d.day as int,
            ) == t.seconds as int / 86400 + 719_163
        } else {
            r is None
        },
    }
}

/// How an optional wire timestamp field is read as an optional date-time.
pub open spec fn datetime_field_converted(
    field: Option<wire::Timestamp>,
    r: Option<DateTime>,
) -> bool {
    match field {
        None => r is None,
        Some(t) => if ts_valid(t.seconds as int, t.nanos as int) {
            r == Some(DateTime { seconds: t.seconds, nanos: t.nanos as u32 })
        } else {
            r is None
        },
    }
}

/// Reads an optional wire timestamp field as the day it falls on.
pub fn convert_date_field(field: &Option<wire::Timestamp>) -> (r: Option<Date>)
    ensures
        date_field_converted(*field, r),
{
    match field {
        None => None,
        Some(t) => match timestamp_to_datetime(t) {
            None => None,
            Some(dt) => Some(dt.date()),
        },
    }
}

/// Reads an optional wire timestamp field as a date-time.
pub fn convert_datetime_field(field: &Option<wire::Timestamp>) -> (r: Option<DateTime>)
    ensures
        datetime_field_converted(*field, r),
{
    match field {
        None => None,
        Some(t) => timestamp_to_datetime(t),
    }
}

/// An inclusive span of date-times.
#[derive(Debug, Clone, Copy, PartialEq, Eq, Structural)]
pub struct DateTimeRange {
    pub start: DateTime,
    pub end: DateTime,
}

/// How a pair of optional wire timestamp fields is read as an optional span:
/// present exactly when both ends are present and accepted.
pub open spec fn range_fields_converted(
    s: Option<wire::Timestamp>,
    e: Option<wire::Timestamp>,
    r: Option<DateTimeRange>,
) -> bool {
    match (s, e) {
        (Some(ts), Some(te)) => if ts_valid(ts.seconds as int, ts.nanos as int) && ts_valid(
            te.seconds as int,
            te.nanos as int,
        ) {
            r == Some(
                DateTimeRange {
                    start: DateTime { seconds: ts.seconds, nanos: ts.nanos as u32 },
                    end: DateTime { seconds: te.seconds, nanos: te.nanos as u32 },
                },
            )
        } else {
            r is None
        },
        _ => r is None,
    }
}

/// Reads a pair of optional wire timestamp fields as an inclusive span.
pub fn convert_range_fields(s: &Option<wire::Timestamp>, e: &Option<wire::Timestamp>) -> (r: Option<
    DateTimeRange,
>)
    ensures
        range_fields_converted(*s, *e, r),
{
    match (s, e) {
        (Some(ts), Some(te)) => match (timestamp_to_datetime(ts), timestamp_to_datetime(te)) {
            (Some(start), Some(end)) => Some(DateTimeRange { start, end }),
            _ => None,
        },
        _ => None,
    }
}

/// One end of a span of dates.
#[derive(Debug, Clone, Copy, PartialEq, Eq, Structural)]
pub enum DateBound {
    Included(Date),
    Excluded(Date),
    Unbounded,
}

impl DateBound {
    /// Any date the bound names is representable.
    pub open spec fn wf(&self) -> bool {
        match self {
            DateBound::Included(d) => d.wf(),
            DateBound::Excluded(d) => d.wf(),
            DateBound::Unbounded => true,
        }
    }
}

/// The epoch second of midnight of the day that opens the span: an excluded
/// start leaves its day out, so the span opens at midnight of the day after
/// it.
pub open spec fn start_bound_seconds(b: DateBound) -> Option<int> {
    match b {
        DateBound::Included(d) => Some(
            (days_from_ce_of(d.year as int, d.month as int, d.day as int) - 719_163) * 86400,
        ),
        DateBound::Excluded(d) => Some(
            (days_from_ce_of(d.year as int, d.month as int, d.day as int) - 719_163 + 1) * 86400,
        ),
        DateBound::Unbounded => None,
    }
}

/// The epoch second of midnight of the day that closes the span: an excluded
/// end stops at its own day's midnight, leaving that day out.
pub open spec fn end_bound_seconds(b: DateBound) -> Option<int> {
    match b {
        DateBound::Included(d) => Some(
            (days_from_ce_of(d.year as int, d.month as int, d.day as int) - 719_163) * 86400,
        ),
        DateBound::Excluded(d) => Some(
            (days_from_ce_of(d.year as int, d.month as int, d.day as int) - 719_163) * 86400,
        ),
        DateBound::Unbounded => None,
    }
}

/// An optional wire timestamp carries exactly the given midnight second.
pub open spec fn ts_opt_matches(r: Option<wire::Timestamp>, s: Option<int>) -> bool {
    match s {
        None => r is None,
        Some(v) => r matches Some(t) && t.seconds == v && t.nanos == 0,
    }
}

/// Turns a span of dates into the pair of wire timestamps that frames it:
/// midnight of each bounding day, with an excluded bound's own day left out
/// of the span, and nothing for an unbounded end.
pub fn date_range_to_timestamp_pair(start: &DateBound, end: &DateBound) -> (r: (
    Option<wire::Timestamp>,
    Option<wire::Timestamp>,
))
    requires
        start.wf(),
        end.wf(),
    ensures
        ts_opt_matches(r.0, start_bound_seconds(*start)),
        ts_opt_matches(r.1, end_bound_seconds(*end)),
{
    let s = match start {
        DateBound::Included(d) => {
            let days = days_from_ce(d) as i64 - 719_163;
            Some(wire::Timestamp { seconds: days * 86400, nanos: 0 })
        },
        DateBound::Excluded(d) => {
            let days = days_from_ce(d) as i64 - 719_163 + 1;
            Some(wire::Timestamp { seconds: days * 86400, nanos: 0 })
        },
        DateBound::Unbounded => None,
    };
    let e = match end {
        DateBound::Included(d) => {
            let days = days_from_ce(d) as i64 - 719_163;
            Some(wire::Timestamp { seconds: days * 86400, nanos: 0 })
        },
        DateBound::Excluded(d) => {
            let days = days_from_ce(d) as i64 - 719_163;
            Some(wire::Timestamp { seconds: days * 86400, nanos: 0 })
        },
        DateBound::Unbounded => None,
    };
    (s, e)
}

} // verus!
