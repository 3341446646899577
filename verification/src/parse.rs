//! Reading time spans as people write them, such as
//! `2023-10-05T14:30:00Z/16:30`.
//!
//! The text is read by the grammar in [`grammar`]; what a date and a time of
//! day mean in seconds is left to the calendar in [`calendar`]. Where the year
//! is left out, the current year is meant; where the offset is left out, the
//! time zone of the machine.

use vstd::prelude::*;
use vstd::string::StringSliceAdditionalSpecFns;

use crate::domain::TimeSpan;
use crate::parse::calendar::{
    current_year, local_timestamp, offset_seconds, offset_timestamp, utc_seconds, utc_timestamp,
};
use crate::parse::grammar::{
    read_time_span, time_span_of, LexedInstant, LexedOffset, LexedTimeSpan,
};
use crate::time::{TimeDelta, TimePoint, NANOS_PER_SECOND};

pub mod calendar;
pub mod grammar;

verus! {

/// The point in time that lies the given number of whole seconds after the
/// epoch.
pub open spec fn point_at(seconds: Option<int>) -> Option<TimePoint> {
    match seconds {
        Some(t) => Some(TimePoint { nanos: (t * NANOS_PER_SECOND) as i128 }),
        None => None,
    }
}

/// Whether `t` lies a whole number of seconds from the epoch, and that number
/// fits in 64 bits.
pub open spec fn is_whole_second(t: TimePoint) -> bool {
    &&& t@ % (NANOS_PER_SECOND as int) == 0
    &&& i64::MIN * NANOS_PER_SECOND <= t@ <= i64::MAX * NANOS_PER_SECOND
}

/// What an instant that is written with its offset means in the year
/// `year`, in seconds since the epoch; `None` where the calendar knows no such
/// instant. For an instant in local time this says nothing.
pub open spec fn seconds_in_year(instant: LexedInstant, year: i32) -> Option<int> {
    match instant.offset {
        LexedOffset::Utc => utc_seconds(
            year as int,
            instant.date.month as int,
            instant.date.day as int,
            instant.time.hour as int,
            instant.time.min as int,
            instant.time.sec as int,
        ),
        LexedOffset::FixedOffset(offset) => offset_seconds(
            year as int,
            instant.date.month as int,
            instant.date.day as int,
            instant.time.hour as int,
            instant.time.min as int,
            instant.time.sec as int,
            offset as int,
        ),
        LexedOffset::LocalTime => None,
    }
}

/// Whether the text of the instant settles what it means: the year is
/// written, and so is the offset.
pub open spec fn instant_is_settled(instant: LexedInstant) -> bool {
    instant.date.year is Some && !(instant.offset is LocalTime)
}

/// What an instant with a written year and offset means, in seconds since the
/// epoch; `None` where the calendar knows no such instant.
pub open spec fn settled_seconds(instant: LexedInstant) -> Option<int> {
    match instant.date.year {
        Some(year) => seconds_in_year(instant, year),
        None => None,
    }
}

/// Whether the calendar knows the date and the time of day of `instant` in
/// the year `year`.
pub open spec fn calendar_knows(instant: LexedInstant, year: i32) -> bool {
    utc_seconds(
        year as int,
        instant.date.month as int,
        instant.date.day as int,
        instant.time.hour as int,
        instant.time.min as int,
        instant.time.sec as int,
    ) is Some
}

/// Whether `point` may be what `instant` means in the year `year`. Where the
/// offset is written, `point` is what the calendar says. In local time it
/// depends on the time zone, but there is none where the calendar does not
/// know the date or the time of day.
pub open spec fn resolves_in_year(instant: LexedInstant, year: i32, point: Option<TimePoint>) -> bool {
    match instant.offset {
        LexedOffset::LocalTime => !calendar_knows(instant, year) ==> point is None,
        _ => point == point_at(seconds_in_year(instant, year)),
    }
}

/// Whether `point` may be what `instant` means. It is a whole second, and it
/// is what the instant may mean in some year: in the year that is written, if
/// one is.
pub open spec fn resolves(instant: LexedInstant, point: Option<TimePoint>) -> bool {
    &&& point matches Some(t) ==> is_whole_second(t)
    &&& match instant.date.year {
        Some(year) => resolves_in_year(instant, year, point),
        None => exists|year: i32| #[trigger] resolves_in_year(instant, year, point),
    }
}

/// The time span that `lexed` stands for, given the points in time that its
/// start and its end mean. An instant needs its start, an interval of
/// instants both ends, and its duration runs from the start to the end. An
/// interval whose end lies before its start stands for nothing, and neither
/// do spans of whole dates.
pub open spec fn time_span_from(
    lexed: LexedTimeSpan,
    start: Option<TimePoint>,
    end: Option<TimePoint>,
) -> Option<TimeSpan> {
    match lexed {
        LexedTimeSpan::Instant(_) => match start {
            Some(at) => Some(TimeSpan::Instant(at)),
            None => None,
        },
        LexedTimeSpan::InstantIntervalStartEnd { .. } => match (start, end) {
            (Some(from), Some(to)) => if 0 <= to@ - from@ <= i128::MAX {
                Some(
                    TimeSpan::Interval {
                        start: from,
                        duration: TimeDelta { nanos: (to@ - from@) as i128 },
                    },
                )
            } else {
                None
            },
            _ => None,
        },
        _ => None,
    }
}

/// Whether the text of the time span settles what it means: every instant in
/// it is written with its year and its offset.
pub open spec fn time_span_is_settled(lexed: LexedTimeSpan) -> bool {
    match lexed {
        LexedTimeSpan::Instant(at) => instant_is_settled(at),
        LexedTimeSpan::InstantIntervalStartEnd { start, end } => instant_is_settled(start)
            && instant_is_settled(end),
        _ => true,
    }
}

/// What a settled time span means.
pub open spec fn settled_time_span(lexed: LexedTimeSpan) -> Option<TimeSpan> {
    match lexed {
        LexedTimeSpan::Instant(at) => time_span_from(lexed, point_at(settled_seconds(at)), None),
        LexedTimeSpan::InstantIntervalStartEnd { start, end } => time_span_from(
            lexed,
            point_at(settled_seconds(start)),
            point_at(settled_seconds(end)),
        ),
        _ => None,
    }
}

/// The point in time that `instant` means where `year` is the year of its
/// date, whatever year is written.
pub fn instant_in_year(instant: LexedInstant, year: i32) -> (r: Option<TimePoint>)
    ensures
        resolves_in_year(instant, year, r),
        r matches Some(t) ==> is_whole_second(t),
{
    let date = instant.date;
    let time = instant.time;
    let seconds = match instant.offset {
        LexedOffset::Utc => utc_timestamp(year, date.month, date.day, time.hour, time.min, time.sec),
        LexedOffset::FixedOffset(offset) => offset_timestamp(
            year,
            date.month,
            date.day,
            time.hour,
            time.min,
            time.sec,
            offset,
        ),
        LexedOffset::LocalTime => local_timestamp(
            year,
            date.month,
            date.day,
            time.hour,
            time.min,
            time.sec,
        ),
    };
    match seconds {
        Some(seconds) => {
            let at = TimePoint::from_timestamp(seconds, 0);
            assert(at@ == seconds * NANOS_PER_SECOND);
            Some(at)
        },
        None => None,
    }
}

/// The point in time that `instant` means. A year left out is the current
/// year, an offset left out is the time zone of the machine: then the result
/// depends on when and where this runs.
pub fn parse_instant(instant: LexedInstant) -> (r: Option<TimePoint>)
    ensures
        resolves(instant, r),
        instant_is_settled(instant) ==> r == point_at(settled_seconds(instant)),
{
    let year: i32 = match instant.date.year {
        Some(year) => year,
        None => current_year(),
    };
    let r = instant_in_year(instant, year);
    assert(resolves_in_year(instant, year, r));
    r
}

/// Puts together the time span that `lexed` stands for from the points in
/// time that its start and its end mean. What comes out is a valid span: an
/// interval whose end lies before its start gives `None`.
pub fn assemble_time_span(
    lexed: LexedTimeSpan,
    start: Option<TimePoint>,
    end: Option<TimePoint>,
) -> (r: Option<TimeSpan>)
    ensures
        r == time_span_from(lexed, start, end),
        r matches Some(span) ==> span.valid(),
{
    match lexed {
        LexedTimeSpan::Instant(_) => match start {
            Some(at) => Some(TimeSpan::Instant(at)),
            None => None,
        },
        LexedTimeSpan::InstantIntervalStartEnd { .. } => match (start, end) {
            (Some(from), Some(to)) => match to.checked_since(&from) {
                Some(duration) => if duration.is_negative() {
                    None
                } else {
                    Some(TimeSpan::Interval { start: from, duration })
                },
                None => None,
            },
            _ => None,
        },
        _ => None,
    }
}

/// Whether `start` and `end` may be what the instants of `lexed` mean.
pub open spec fn resolves_ends(
    lexed: LexedTimeSpan,
    start: Option<TimePoint>,
    end: Option<TimePoint>,
) -> bool {
    match lexed {
        LexedTimeSpan::Instant(at) => resolves(at, start),
        LexedTimeSpan::InstantIntervalStartEnd { start: from, end: to } => resolves(from, start)
            && resolves(to, end),
        _ => true,
    }
}

/// Reads a time span from `input`. `None` where `input` is no time span by the
/// grammar, where the calendar knows no such date or time, where the end of
/// an interval lies before its start, and for spans of whole dates, which the
/// store does not hold. What comes out is a valid span. Where every instant in
/// `input` is written with its year and its offset, the result depends on
/// `input` alone.
pub fn parse_lenient_time_span(input: &str) -> (r: Option<TimeSpan>)
    ensures
        match time_span_of(input.spec_bytes()) {
            Some(lexed) => {
                &&& exists|start: Option<TimePoint>, end: Option<TimePoint>|
                    r == #[trigger] time_span_from(lexed, start, end) && resolves_ends(
                        lexed,
                        start,
                        end,
                    )
                &&& time_span_is_settled(lexed) ==> r == settled_time_span(lexed)
            },
            None => r is None,
        },
        r matches Some(span) ==> span.valid(),
{
    let lexed = match read_time_span(input.as_bytes()) {
        Some(lexed) => lexed,
        None => return None,
    };
    let (start, end) = match lexed {
        LexedTimeSpan::Instant(at) => (parse_instant(at), None),
        LexedTimeSpan::InstantIntervalStartEnd { start, end } => (
            parse_instant(start),
            parse_instant(end),
        ),
        _ => (None, None),
    };
    let r = assemble_time_span(lexed, start, end);
    assert(r == time_span_from(lexed, start, end) && resolves_ends(lexed, start, end));
    r
}

} // verus!
