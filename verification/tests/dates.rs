use tinkoff_invest_sdk::dates::{
    convert_date_field, date_range_to_timestamp_pair, timestamp_to_datetime, Date, DateBound,
    DateTime,
};
use tinkoff_invest_sdk::wire::Timestamp;

#[test]
fn epoch_reads_as_new_years_day_1970() {
    let dt = timestamp_to_datetime(&Timestamp { seconds: 0, nanos: 0 }).unwrap();
    assert_eq!(dt, DateTime { seconds: 0, nanos: 0 });
    assert_eq!(dt.date(), Date { year: 1970, month: 1, day: 1 });
}

#[test]
fn days_split_at_midnight() {
    let last_second = timestamp_to_datetime(&Timestamp { seconds: 86_399, nanos: 999_999_999 })
        .unwrap();
    assert_eq!(last_second.date(), Date { year: 1970, month: 1, day: 1 });
    let next_day = timestamp_to_datetime(&Timestamp { seconds: 86_400, nanos: 0 }).unwrap();
    assert_eq!(next_day.date(), Date { year: 1970, month: 1, day: 2 });
}

#[test]
fn seconds_before_the_epoch_fall_on_earlier_days() {
    let dt = timestamp_to_datetime(&Timestamp { seconds: -1, nanos: 0 }).unwrap();
    assert_eq!(dt.date(), Date { year: 1969, month: 12, day: 31 });
}

#[test]
fn a_known_calendar_day_round_trips() {
    // 2022-01-01 00:00:00 UTC
    let dt = timestamp_to_datetime(&Timestamp { seconds: 1_640_995_200, nanos: 0 }).unwrap();
    assert_eq!(dt.date(), Date { year: 2022, month: 1, day: 1 });
    // 2000-02-29 12:00:00 UTC, a leap day
    let dt = timestamp_to_datetime(&Timestamp { seconds: 951_825_600, nanos: 0 }).unwrap();
    assert_eq!(dt.date(), Date { year: 2000, month: 2, day: 29 });
}

#[test]
fn invalid_nanoseconds_are_rejected() {
    assert!(timestamp_to_datetime(&Timestamp { seconds: 0, nanos: -1 }).is_none());
    assert!(timestamp_to_datetime(&Timestamp { seconds: 0, nanos: 2_000_000_000 }).is_none());
    // a leap-second reading is accepted
    assert!(timestamp_to_datetime(&Timestamp { seconds: 59, nanos: 1_999_999_999 }).is_some());
}

#[test]
fn out_of_range_seconds_are_rejected() {
    assert!(timestamp_to_datetime(&Timestamp { seconds: i64::MAX, nanos: 0 }).is_none());
    assert!(timestamp_to_datetime(&Timestamp { seconds: i64::MIN, nanos: 0 }).is_none());
}

#[test]
fn the_calendar_boundaries_are_exact() {
    // the first representable instant: midnight of the calendar's first day
    let first = timestamp_to_datetime(&Timestamp { seconds: -8_334_601_228_800, nanos: 0 })
        .unwrap();
    assert_eq!(first.date(), Date { year: -262_143, month: 1, day: 1 });
    assert!(
        timestamp_to_datetime(&Timestamp { seconds: -8_334_601_228_801, nanos: 0 }).is_none()
    );
    // the last representable second: the end of the calendar's last day
    let last = timestamp_to_datetime(&Timestamp { seconds: 8_210_266_876_799, nanos: 0 })
        .unwrap();
    assert_eq!(last.date(), Date { year: 262_142, month: 12, day: 31 });
    assert!(timestamp_to_datetime(&Timestamp { seconds: 8_210_266_876_800, nanos: 0 }).is_none());
}

#[test]
fn absent_fields_convert_to_nothing() {
    assert!(convert_date_field(&None).is_none());
    assert!(convert_date_field(&Some(Timestamp { seconds: 0, nanos: -5 })).is_none());
    assert_eq!(
        convert_date_field(&Some(Timestamp { seconds: 0, nanos: 0 })),
        Some(Date { year: 1970, month: 1, day: 1 })
    );
}

#[test]
fn included_bounds_frame_midnights() {
    let start = DateBound::Included(Date { year: 2022, month: 1, day: 1 });
    let end = DateBound::Included(Date { year: 2022, month: 1, day: 7 });
    let (from, to) = date_range_to_timestamp_pair(&start, &end);
    assert_eq!(from, Some(Timestamp { seconds: 1_640_995_200, nanos: 0 }));
    assert_eq!(to, Some(Timestamp { seconds: 1_641_513_600, nanos: 0 }));
}

#[test]
fn excluded_bounds_leave_their_day_out() {
    let start = DateBound::Excluded(Date { year: 2022, month: 1, day: 1 });
    let end = DateBound::Excluded(Date { year: 2022, month: 1, day: 7 });
    let (from, to) = date_range_to_timestamp_pair(&start, &end);
    // the span opens at midnight of January 2 and closes at midnight of
    // January 7, so neither excluded day is covered
    assert_eq!(from, Some(Timestamp { seconds: 1_641_081_600, nanos: 0 }));
    assert_eq!(to, Some(Timestamp { seconds: 1_641_513_600, nanos: 0 }));
}

#[test]
fn unbounded_ends_send_nothing() {
    let (from, to) = date_range_to_timestamp_pair(&DateBound::Unbounded, &DateBound::Unbounded);
    assert_eq!(from, None);
    assert_eq!(to, None);
}

#[test]
fn coupon_requests_carry_the_span() {
    let request = tinkoff_invest_sdk::instruments::bond_coupons_request(
        "BBG00T22WKV5".to_string(),
        &DateBound::Included(Date { year: 2022, month: 1, day: 1 }),
        &DateBound::Unbounded,
    );
    assert_eq!(request.figi, "BBG00T22WKV5");
    assert_eq!(request.from, Some(Timestamp { seconds: 1_640_995_200, nanos: 0 }));
    assert_eq!(request.to, None);
}

#[test]
fn schedule_requests_carry_exchange_and_span() {
    let request = tinkoff_invest_sdk::instruments::trading_schedules_request(
        "MOEX".to_string(),
        &DateBound::Included(Date { year: 2022, month: 1, day: 1 }),
        &DateBound::Included(Date { year: 2022, month: 1, day: 7 }),
    );
    assert_eq!(request.exchange, "MOEX");
    assert_eq!(request.from, Some(Timestamp { seconds: 1_640_995_200, nanos: 0 }));
    assert_eq!(request.to, Some(Timestamp { seconds: 1_641_513_600, nanos: 0 }));
    let all = tinkoff_invest_sdk::instruments::trading_schedules_all_request(
        &DateBound::Unbounded,
        &DateBound::Unbounded,
    );
    assert_eq!(all.exchange, "");
}
