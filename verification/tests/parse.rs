use chrono::{DateTime, Datelike, Local, TimeZone, Utc};
use metime_core::parse::grammar::{
    read_decimal_int, read_time_span, LexedDate, LexedInstant, LexedOffset, LexedTime,
    LexedTimeSpan,
};
use metime_core::parse::{assemble_time_span, parse_instant, parse_lenient_time_span};
use metime_core::{TimeDelta, TimePoint, TimeSpan};

fn point(at: DateTime<Utc>) -> TimePoint {
    TimePoint::from_timestamp(at.timestamp(), at.timestamp_subsec_nanos())
}

fn delta(duration: chrono::TimeDelta) -> TimeDelta {
    TimeDelta::from_nanos(duration.num_nanoseconds().unwrap() as i128)
}

#[test]
fn parse_date_and_time_with_utc_offset() {
    let input = "2023-10-05T14:30:00Z";
    let expected = Utc.with_ymd_and_hms(2023, 10, 5, 14, 30, 0).unwrap();
    assert_eq!(
        parse_lenient_time_span(input),
        Some(TimeSpan::Instant(point(expected)))
    );
}

#[test]
fn parse_date_and_time_with_positive_offset() {
    let input = "2023-10-05T14:30:00+02:00";
    let expected = Utc.with_ymd_and_hms(2023, 10, 5, 12, 30, 0).unwrap();
    assert_eq!(
        parse_lenient_time_span(input),
        Some(TimeSpan::Instant(point(expected)))
    );
}

#[test]
fn parse_date_and_time_with_negative_offset() {
    let input = "2023-10-05T14:30:00-02:00";
    let expected = Utc.with_ymd_and_hms(2023, 10, 5, 16, 30, 0).unwrap();
    assert_eq!(
        parse_lenient_time_span(input),
        Some(TimeSpan::Instant(point(expected)))
    );
}

#[test]
fn parse_date_and_time_without_offset() {
    let input = "2023-10-05T14:30:00";
    let expected = Local
        .with_ymd_and_hms(2023, 10, 5, 14, 30, 0)
        .unwrap()
        .with_timezone(&Utc);
    assert_eq!(
        parse_lenient_time_span(input),
        Some(TimeSpan::Instant(point(expected)))
    );
}

#[test]
fn parse_date_and_time_without_seconds() {
    let input = "2023-10-05T14:30";
    let expected = Local
        .with_ymd_and_hms(2023, 10, 5, 14, 30, 0)
        .unwrap()
        .with_timezone(&Utc);
    assert_eq!(
        parse_lenient_time_span(input),
        Some(TimeSpan::Instant(point(expected)))
    );
}

#[test]
fn parse_date_and_time_without_seconds_with_offset() {
    let input = "2023-10-05T14:30+02:00";
    let expected = Utc.with_ymd_and_hms(2023, 10, 5, 12, 30, 0).unwrap();
    assert_eq!(
        parse_lenient_time_span(input),
        Some(TimeSpan::Instant(point(expected)))
    );
}

#[test]
fn parse_date_and_time_without_years() {
    let input = "10-05T14:30:00";
    let now = Utc::now();
    let expected = Local
        .with_ymd_and_hms(now.year(), 10, 5, 14, 30, 0)
        .unwrap()
        .with_timezone(&Utc);
    assert_eq!(
        parse_lenient_time_span(input),
        Some(TimeSpan::Instant(point(expected)))
    );
}

#[test]
fn parse_instant_interval_with_utc_offset() {
    let input = "2023-10-05T14:30:00Z/2023-10-05T16:30:00Z";
    let start = Utc.with_ymd_and_hms(2023, 10, 5, 14, 30, 0).unwrap();
    let end = Utc.with_ymd_and_hms(2023, 10, 5, 16, 30, 0).unwrap();
    let duration = end - start;
    assert_eq!(
        parse_lenient_time_span(input),
        Some(TimeSpan::Interval {
            start: point(start),
            duration: delta(duration)
        })
    );
}

#[test]
fn parse_instant_interval_with_positive_offset() {
    let input = "2023-10-05T14:30:00+02:00/2023-10-05T16:30:00+02:00";
    let start = Utc.with_ymd_and_hms(2023, 10, 5, 12, 30, 0).unwrap();
    let end = Utc.with_ymd_and_hms(2023, 10, 5, 14, 30, 0).unwrap();
    let duration = end - start;
    assert_eq!(
        parse_lenient_time_span(input),
        Some(TimeSpan::Interval {
            start: point(start),
            duration: delta(duration)
        })
    );
}

#[test]
fn parse_instant_interval_with_negative_offset() {
    let input = "2023-10-05T14:30:00-02:00/2023-10-05T16:30:00-02:00";
    let start = Utc.with_ymd_and_hms(2023, 10, 5, 16, 30, 0).unwrap();
    let end = Utc.with_ymd_and_hms(2023, 10, 5, 18, 30, 0).unwrap();
    let duration = end - start;
    assert_eq!(
        parse_lenient_time_span(input),
        Some(TimeSpan::Interval {
            start: point(start),
            duration: delta(duration)
        })
    );
}

#[test]
fn parse_instant_interval_without_offset() {
    let input = "2023-10-05T14:30:00/2023-10-05T16:30:00";
    let start = Local
        .with_ymd_and_hms(2023, 10, 5, 14, 30, 0)
        .unwrap()
        .with_timezone(&Utc);
    let end = Local
        .with_ymd_and_hms(2023, 10, 5, 16, 30, 0)
        .unwrap()
        .with_timezone(&Utc);
    let duration = end - start;
    assert_eq!(
        parse_lenient_time_span(input),
        Some(TimeSpan::Interval {
            start: point(start),
            duration: delta(duration)
        })
    );
}

#[test]
fn parse_instant_interval_without_seconds() {
    let input = "2023-10-05T14:30/2023-10-05T16:30";
    let start = Local
        .with_ymd_and_hms(2023, 10, 5, 14, 30, 0)
        .unwrap()
        .with_timezone(&Utc);
    let end = Local
        .with_ymd_and_hms(2023, 10, 5, 16, 30, 0)
        .unwrap()
        .with_timezone(&Utc);
    let duration = end - start;
    assert_eq!(
        parse_lenient_time_span(input),
        Some(TimeSpan::Interval {
            start: point(start),
            duration: delta(duration)
        })
    );
}

#[test]
fn parse_instant_interval_without_seconds_with_offset() {
    let input = "2023-10-05T14:30+02:00/2023-10-05T16:30+02:00";
    let start = Utc.with_ymd_and_hms(2023, 10, 5, 12, 30, 0).unwrap();
    let end = Utc.with_ymd_and_hms(2023, 10, 5, 14, 30, 0).unwrap();
    let duration = end - start;
    assert_eq!(
        parse_lenient_time_span(input),
        Some(TimeSpan::Interval {
            start: point(start),
            duration: delta(duration)
        })
    );
}

#[test]
fn parse_instant_interval_omitting_end_date_and_offset() {
    let input = "2023-10-05T14:30:00/16:30:00";
    let start = Local
        .with_ymd_and_hms(2023, 10, 5, 14, 30, 0)
        .unwrap()
        .with_timezone(&Utc);
    let end = Local
        .with_ymd_and_hms(2023, 10, 5, 16, 30, 0)
        .unwrap()
        .with_timezone(&Utc);
    let duration = end - start;
    assert_eq!(
        parse_lenient_time_span(input),
        Some(TimeSpan::Interval {
            start: point(start),
            duration: delta(duration)
        })
    );
}

#[test]
fn parse_gives_the_exact_number_of_nanoseconds() {
    assert_eq!(
        parse_lenient_time_span("2023-10-05T14:30:00Z"),
        Some(TimeSpan::Instant(TimePoint::from_nanos(
            1_696_516_200_000_000_000
        )))
    );
    assert_eq!(
        parse_lenient_time_span("1970-01-01T00:00:01Z"),
        Some(TimeSpan::Instant(TimePoint::from_nanos(1_000_000_000)))
    );
    assert_eq!(
        parse_lenient_time_span("1970-01-01T01:00+01:00"),
        Some(TimeSpan::Instant(TimePoint::from_nanos(0)))
    );
    assert_eq!(
        parse_lenient_time_span("1969-12-31T23:59:59Z"),
        Some(TimeSpan::Instant(TimePoint::from_nanos(-1_000_000_000)))
    );
}

#[test]
fn parse_interval_that_ends_on_the_date_of_its_start() {
    assert_eq!(
        parse_lenient_time_span("2023-10-05T14:30:00Z/16:30"),
        Some(TimeSpan::Interval {
            start: TimePoint::from_nanos(1_696_516_200_000_000_000),
            duration: TimeDelta::hours(2),
        })
    );
    assert_eq!(
        parse_lenient_time_span("2023-10-05T14:30:00-02:00/15:00:30"),
        Some(TimeSpan::Interval {
            start: TimePoint::from_nanos(1_696_523_400_000_000_000),
            duration: TimeDelta::seconds(1830),
        })
    );
}

#[test]
fn parse_gives_no_interval_that_runs_backwards() {
    assert_eq!(
        parse_lenient_time_span("2023-10-05T16:30:00Z/2023-10-05T14:30:00Z"),
        None
    );
    assert_eq!(
        parse_lenient_time_span("2023-10-05T16:30:00Z/16:29:59"),
        None
    );
    assert_eq!(
        parse_lenient_time_span("2023-10-05T14:30:00+02:00/2023-10-05T14:30:00+03:00"),
        None
    );
    assert_eq!(parse_lenient_time_span("2023-10-05T16:30/16:29"), None);
}

#[test]
fn parse_gives_valid_spans() {
    let empty = parse_lenient_time_span("2023-10-05T16:30:00Z/16:30").unwrap();
    assert_eq!(
        empty,
        TimeSpan::Interval {
            start: TimePoint::from_nanos(1_696_523_400_000_000_000),
            duration: TimeDelta::from_nanos(0),
        }
    );
    assert!(empty.is_valid());
    let second = parse_lenient_time_span("2023-10-05T16:30:00Z/16:30:01").unwrap();
    assert_eq!(
        second,
        TimeSpan::Interval {
            start: TimePoint::from_nanos(1_696_523_400_000_000_000),
            duration: TimeDelta::seconds(1),
        }
    );
    assert!(second.is_valid());
    assert!(second.earliest() <= second.latest());
    assert!(parse_lenient_time_span("2023-10-05T16:30:00Z").unwrap().is_valid());
    assert!(parse_lenient_time_span("2023-10-05T14:30/16:30").unwrap().is_valid());
}

#[test]
fn parse_rejects_what_is_no_time_span() {
    assert_eq!(parse_lenient_time_span(""), None);
    assert_eq!(parse_lenient_time_span("tomorrow"), None);
    assert_eq!(parse_lenient_time_span("2023-10-05T14:30:00Z "), None);
    assert_eq!(parse_lenient_time_span(" 2023-10-05T14:30:00Z"), None);
    assert_eq!(parse_lenient_time_span("2023-10-05T14:30:00Zx"), None);
    assert_eq!(parse_lenient_time_span("2023-10-05T14:30:00Z/"), None);
    assert_eq!(parse_lenient_time_span("2023-10-05T14:3"), None);
    assert_eq!(parse_lenient_time_span("2023-10-05T14:30:0"), None);
    assert_eq!(parse_lenient_time_span("2023-10-05T14:30:00+2"), None);
    assert_eq!(parse_lenient_time_span("2023-10-05t14:30:00Z"), None);
    assert_eq!(parse_lenient_time_span("12345-10-05T14:30:00Z"), None);
    assert_eq!(parse_lenient_time_span("2023-100-05T14:30:00Z"), None);
    assert_eq!(parse_lenient_time_span("2023-10-05T14:30:00Z/2023"), None);
    assert_eq!(parse_lenient_time_span("２023-10-05T14:30:00Z"), None);
}

#[test]
fn parse_rejects_what_the_calendar_does_not_know() {
    assert_eq!(parse_lenient_time_span("2023-02-29T10:00:00Z"), None);
    assert!(parse_lenient_time_span("2024-02-29T10:00:00Z").is_some());
    assert_eq!(parse_lenient_time_span("2023-13-01T10:00:00Z"), None);
    assert_eq!(parse_lenient_time_span("2023-00-10T10:00:00Z"), None);
    assert_eq!(parse_lenient_time_span("2023-04-31T10:00:00Z"), None);
    assert_eq!(parse_lenient_time_span("2023-10-05T24:00:00Z"), None);
    assert_eq!(parse_lenient_time_span("2023-10-05T10:60:00Z"), None);
    assert_eq!(parse_lenient_time_span("2023-10-05T10:00:60Z"), None);
    assert_eq!(parse_lenient_time_span("2023-10-05T10:00:00+24:00"), None);
    assert!(parse_lenient_time_span("2023-10-05T10:00:00+23:59").is_some());
    assert_eq!(
        parse_lenient_time_span("2023-10-05T10:00:00Z/2023-02-30T10:00:00Z"),
        None
    );
    assert_eq!(
        parse_lenient_time_span("2023-02-30T10:00:00Z/2023-10-05T10:00:00Z"),
        None
    );
}

#[test]
fn parse_rejects_what_the_calendar_does_not_know_in_local_time() {
    assert_eq!(parse_lenient_time_span("2023-02-30T10:00:00"), None);
    assert_eq!(parse_lenient_time_span("2023-13-01T10:00"), None);
    assert_eq!(parse_lenient_time_span("2023-10-05T25:00"), None);
    assert_eq!(parse_lenient_time_span("2023-10-05T10:61"), None);
    assert_eq!(parse_lenient_time_span("2023-10-05T10:00:60"), None);
    assert_eq!(parse_lenient_time_span("00-10T10:00"), None);
    assert_eq!(parse_lenient_time_span("2023-10-05T10:00/2023-10-32T11:00"), None);
}

#[test]
fn parse_holds_no_spans_of_whole_dates() {
    assert_eq!(parse_lenient_time_span("2023-10-05"), None);
    assert_eq!(parse_lenient_time_span("10-05"), None);
    assert_eq!(parse_lenient_time_span("2023-10-05/2023-10-07"), None);
    assert_eq!(parse_lenient_time_span("2023-10-05/3"), None);
}

fn date(year: Option<i32>, month: u32, day: u32) -> LexedDate {
    LexedDate { year, month, day }
}

fn time(hour: u32, min: u32, sec: u32) -> LexedTime {
    LexedTime { hour, min, sec }
}

#[test]
fn grammar_reads_an_instant() {
    assert_eq!(
        read_time_span(b"2023-10-05T14:30:07Z"),
        Some(LexedTimeSpan::Instant(LexedInstant {
            date: date(Some(2023), 10, 5),
            time: time(14, 30, 7),
            offset: LexedOffset::Utc,
        }))
    );
    assert_eq!(
        read_time_span(b"1-2T3:04"),
        Some(LexedTimeSpan::Instant(LexedInstant {
            date: date(None, 1, 2),
            time: time(3, 4, 0),
            offset: LexedOffset::LocalTime,
        }))
    );
}

#[test]
fn grammar_reads_fixed_offsets_in_seconds() {
    let offset_of = |input: &str| match read_time_span(input.as_bytes()) {
        Some(LexedTimeSpan::Instant(at)) => Some(at.offset),
        _ => None,
    };
    assert_eq!(
        offset_of("2023-10-05T14:30+02:00"),
        Some(LexedOffset::FixedOffset(7200))
    );
    assert_eq!(
        offset_of("2023-10-05T14:30-02:30"),
        Some(LexedOffset::FixedOffset(-9000))
    );
    assert_eq!(
        offset_of("2023-10-05T14:30+5:45"),
        Some(LexedOffset::FixedOffset(20700))
    );
    assert_eq!(
        offset_of("2023-10-05T14:30-99:99"),
        Some(LexedOffset::FixedOffset(-362340))
    );
    assert_eq!(
        offset_of("2023-10-05T14:30+00:00"),
        Some(LexedOffset::FixedOffset(0))
    );
}

#[test]
fn grammar_reads_intervals_of_instants() {
    let start = LexedInstant {
        date: date(Some(2023), 10, 5),
        time: time(14, 30, 0),
        offset: LexedOffset::FixedOffset(3600),
    };
    assert_eq!(
        read_time_span(b"2023-10-05T14:30+01:00/2023-10-06T09:15:30Z"),
        Some(LexedTimeSpan::InstantIntervalStartEnd {
            start,
            end: LexedInstant {
                date: date(Some(2023), 10, 6),
                time: time(9, 15, 30),
                offset: LexedOffset::Utc,
            },
        })
    );
    assert_eq!(
        read_time_span(b"2023-10-05T14:30+01:00/16:45"),
        Some(LexedTimeSpan::InstantIntervalStartEnd {
            start,
            end: LexedInstant {
                date: date(Some(2023), 10, 5),
                time: time(16, 45, 0),
                offset: LexedOffset::FixedOffset(3600),
            },
        })
    );
}

#[test]
fn grammar_reads_spans_of_whole_dates() {
    assert_eq!(
        read_time_span(b"2023-10-05"),
        Some(LexedTimeSpan::DateIntervalStartDuration {
            start: date(Some(2023), 10, 5),
            duration_days: None,
        })
    );
    assert_eq!(
        read_time_span(b"10-5/11-12"),
        Some(LexedTimeSpan::DateIntervalStartEnd {
            start: date(None, 10, 5),
            end: date(None, 11, 12),
        })
    );
    assert_eq!(read_time_span(b"2023-10-05/3"), None);
    assert_eq!(read_time_span(b"2023-10-05/"), None);
}

#[test]
fn grammar_takes_four_digits_for_a_year_and_no_more() {
    assert_eq!(
        read_time_span(b"0007-1-2"),
        Some(LexedTimeSpan::DateIntervalStartDuration {
            start: date(Some(7), 1, 2),
            duration_days: None,
        })
    );
    assert_eq!(read_time_span(b"123-1-2"), None);
    assert_eq!(read_time_span(b"12345-1-2"), None);
    assert_eq!(
        read_time_span(b"12-34"),
        Some(LexedTimeSpan::DateIntervalStartDuration {
            start: date(None, 12, 34),
            duration_days: None,
        })
    );
}

#[test]
fn parse_instant_counts_from_the_epoch() {
    let at = LexedInstant {
        date: date(Some(1970), 1, 2),
        time: time(0, 0, 5),
        offset: LexedOffset::Utc,
    };
    assert_eq!(
        parse_instant(at),
        Some(TimePoint::from_nanos(86_405_000_000_000))
    );
    let east = LexedInstant {
        offset: LexedOffset::FixedOffset(3600),
        ..at
    };
    assert_eq!(
        parse_instant(east),
        Some(TimePoint::from_nanos(82_805_000_000_000))
    );
    let nowhere = LexedInstant {
        offset: LexedOffset::FixedOffset(86_400),
        ..at
    };
    assert_eq!(parse_instant(nowhere), None);
}

#[test]
fn parse_instant_means_the_current_year_where_none_is_written() {
    let now = Utc::now();
    let at = LexedInstant {
        date: date(None, 6, 15),
        time: time(12, 0, 0),
        offset: LexedOffset::Utc,
    };
    let expected = Utc
        .with_ymd_and_hms(now.year(), 6, 15, 12, 0, 0)
        .unwrap();
    assert_eq!(parse_instant(at), Some(point(expected)));
}

#[test]
fn assemble_needs_the_ends_that_the_span_has() {
    let at = LexedInstant {
        date: date(Some(2023), 10, 5),
        time: time(14, 30, 0),
        offset: LexedOffset::Utc,
    };
    let instant = LexedTimeSpan::Instant(at);
    let interval = LexedTimeSpan::InstantIntervalStartEnd { start: at, end: at };
    let t1 = TimePoint::from_nanos(10);
    let t2 = TimePoint::from_nanos(25);
    assert_eq!(
        assemble_time_span(instant, Some(t1), None),
        Some(TimeSpan::Instant(t1))
    );
    assert_eq!(
        assemble_time_span(instant, Some(t1), Some(t2)),
        Some(TimeSpan::Instant(t1))
    );
    assert_eq!(assemble_time_span(instant, None, Some(t2)), None);
    assert_eq!(
        assemble_time_span(interval, Some(t1), Some(t2)),
        Some(TimeSpan::Interval {
            start: t1,
            duration: TimeDelta::from_nanos(15)
        })
    );
    assert_eq!(assemble_time_span(interval, Some(t2), Some(t1)), None);
    assert_eq!(
        assemble_time_span(interval, Some(t1), Some(t1)),
        Some(TimeSpan::Interval {
            start: t1,
            duration: TimeDelta::from_nanos(0)
        })
    );
    assert_eq!(
        assemble_time_span(
            interval,
            Some(TimePoint::from_nanos(-1)),
            Some(TimePoint::from_nanos(i128::MAX))
        ),
        None
    );
    assert_eq!(
        assemble_time_span(
            interval,
            Some(TimePoint::from_nanos(0)),
            Some(TimePoint::from_nanos(i128::MAX))
        ),
        Some(TimeSpan::Interval {
            start: TimePoint::from_nanos(0),
            duration: TimeDelta::from_nanos(i128::MAX)
        })
    );
    assert_eq!(assemble_time_span(interval, Some(t1), None), None);
    assert_eq!(assemble_time_span(interval, None, Some(t2)), None);
    assert_eq!(
        assemble_time_span(
            interval,
            Some(TimePoint::from_nanos(i128::MIN)),
            Some(TimePoint::from_nanos(1))
        ),
        None
    );
    let dates = LexedTimeSpan::DateIntervalStartEnd {
        start: at.date,
        end: at.date,
    };
    assert_eq!(assemble_time_span(dates, Some(t1), Some(t2)), None);
}

#[test]
fn digits_are_read_up_to_nine() {
    assert_eq!(read_decimal_int(b"123456789012", 0, 1, 9), Some((9, 123_456_789)));
    assert_eq!(read_decimal_int(b"999999999", 0, 9, 9), Some((9, 999_999_999)));
    assert_eq!(read_decimal_int(b"99999999", 0, 9, 9), None);
    assert_eq!(read_decimal_int(b"x0420y", 1, 1, 9), Some((5, 420)));
    assert_eq!(read_decimal_int(b"2023-10", 0, 4, 4), Some((4, 2023)));
    assert_eq!(read_decimal_int(b"2023-10", 5, 1, 2), Some((7, 10)));
    assert_eq!(read_decimal_int(b"2023-10", 4, 1, 2), None);
    assert_eq!(read_decimal_int(b"2023-10", 7, 0, 2), Some((7, 0)));
    assert_eq!(read_decimal_int(b"2023-10", 0, 0, 0), Some((0, 0)));
}
