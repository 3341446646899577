//! The grammar of lenient time spans, read from bytes.
//!
//! ```text
//! time_span    = instant "/" instant
//!              / instant "/" time
//!              / instant
//!              / date "/" date
//!              / date "/" days
//!              / date
//! instant      = date "T" time offset
//! date         = (digit{4} "-")? digit{1,2} "-" digit{1,2}
//! time         = digit{1,2} ":" digit{2} (":" digit{2})?
//! offset       = "Z" / fixed_offset / nothing
//! fixed_offset = ("+" / "-") digit{1,2} ":" digit{2}
//! days         = digit{usize::MAX}
//! ```
//!
//! Choice is ordered and repetition is greedy: the first alternative that
//! matches is taken, and a run of digits takes as many as it may. A time span
//! must take up the whole input.

use vstd::prelude::*;

verus! {

pub const PLUS: u8 = 43;

pub const MINUS: u8 = 45;

pub const SLASH: u8 = 47;

pub const COLON: u8 = 58;

pub const UPPER_T: u8 = 84;

pub const UPPER_Z: u8 = 90;

/// A calendar date as written. The year may be left out.
#[derive(Clone, Copy, Debug, PartialEq, Eq, Structural)]
pub struct LexedDate {
    pub year: Option<i32>,
    pub month: u32,
    pub day: u32,
}

/// A time of day as written.
#[derive(Clone, Copy, Debug, PartialEq, Eq, Structural)]
pub struct LexedTime {
    pub hour: u32,
    pub min: u32,
    pub sec: u32,
}

/// The offset from UTC as written.
#[derive(Clone, Copy, Debug, PartialEq, Eq, Structural)]
pub enum LexedOffset {
    Utc,
    /// The time zone offset in seconds; positive values are in the Eastern
    /// hemisphere.
    FixedOffset(i32),
    /// No offset was written: the time is in the local time zone.
    LocalTime,
}

/// A date with a time of day and an offset, as written.
#[derive(Clone, Copy, Debug, PartialEq, Eq, Structural)]
pub struct LexedInstant {
    pub date: LexedDate,
    pub time: LexedTime,
    pub offset: LexedOffset,
}

/// A time span as written.
#[allow(inconsistent_fields)]
#[derive(Clone, Copy, Debug, PartialEq, Eq, Structural)]
pub enum LexedTimeSpan {
    Instant(LexedInstant),
    InstantIntervalStartEnd { start: LexedInstant, end: LexedInstant },
    DateIntervalStartDuration {
        start: LexedDate,
        /// The duration of the event in days.
        duration_days: Option<u32>,
    },
    DateIntervalStartEnd { start: LexedDate, end: LexedDate },
}

/// Whether `b` is an ASCII digit.
pub open spec fn is_digit(b: u8) -> bool {
    48 <= b <= 57
}

/// How many digits stand at `pos`, counting no more than `max`.
pub open spec fn digit_run(s: Seq<u8>, pos: int, max: nat) -> nat
    decreases max,
{
    if max > 0 && 0 <= pos < s.len() && is_digit(s[pos]) {
        1 + digit_run(s, pos + 1, (max - 1) as nat)
    } else {
        0
    }
}

/// The number that the `count` digits from `pos` on spell in base ten.
pub open spec fn decimal_value(s: Seq<u8>, pos: int, count: nat) -> nat
    decreases count,
{
    if count == 0 {
        0
    } else {
        decimal_value(s, pos, (count - 1) as nat) * 10 + (s[pos + count - 1] - 48) as nat
    }
}

/// A run of at least `min` and at most `max` digits at `pos`: where it ends
/// and the number it spells.
pub open spec fn decimal_int(s: Seq<u8>, pos: int, min: nat, max: nat) -> Option<(int, nat)> {
    let count = digit_run(s, pos, max);
    if count >= min {
        Some((pos + count, decimal_value(s, pos, count)))
    } else {
        None
    }
}

/// The byte `b` at `pos`: where it ends.
pub open spec fn literal(s: Seq<u8>, pos: int, b: u8) -> Option<int> {
    if 0 <= pos < s.len() && s[pos] == b {
        Some(pos + 1)
    } else {
        None
    }
}

/// `"+" / "-"`, as the factor 1 or -1.
pub open spec fn sign_rule(s: Seq<u8>, pos: int) -> Option<(int, i32)> {
    if literal(s, pos, PLUS) is Some {
        Some((pos + 1, 1i32))
    } else if literal(s, pos, MINUS) is Some {
        Some((pos + 1, -1i32))
    } else {
        None
    }
}

/// `sign digit{1,2} ":" digit{2}`, as a signed number of seconds.
pub open spec fn fixed_offset_rule(s: Seq<u8>, pos: int) -> Option<(int, i32)> {
    match sign_rule(s, pos) {
        Some((pos1, factor)) => match decimal_int(s, pos1, 1, 2) {
            Some((pos2, hours)) => match literal(s, pos2, COLON) {
                Some(pos3) => match decimal_int(s, pos3, 2, 2) {
                    Some((pos4, mins)) => Some((pos4, (factor * (hours * 3600 + mins * 60)) as i32)),
                    None => None,
                },
                None => None,
            },
            None => None,
        },
        None => None,
    }
}

/// `"Z" / fixed_offset / nothing`. This rule always matches.
pub open spec fn offset_rule(s: Seq<u8>, pos: int) -> (int, LexedOffset) {
    match literal(s, pos, UPPER_Z) {
        Some(pos1) => (pos1, LexedOffset::Utc),
        None => match fixed_offset_rule(s, pos) {
            Some((pos1, seconds)) => (pos1, LexedOffset::FixedOffset(seconds)),
            None => (pos, LexedOffset::LocalTime),
        },
    }
}

/// `":" digit{2}`, the seconds of a time of day.
pub open spec fn seconds_rule(s: Seq<u8>, pos: int) -> Option<(int, nat)> {
    match literal(s, pos, COLON) {
        Some(pos1) => decimal_int(s, pos1, 2, 2),
        None => None,
    }
}

/// `digit{1,2} ":" digit{2} (":" digit{2})?`. Seconds left out are zero.
pub open spec fn time_rule(s: Seq<u8>, pos: int) -> Option<(int, LexedTime)> {
    match decimal_int(s, pos, 1, 2) {
        Some((pos1, hour)) => match literal(s, pos1, COLON) {
            Some(pos2) => match decimal_int(s, pos2, 2, 2) {
                Some((pos3, min)) => match seconds_rule(s, pos3) {
                    Some((pos4, sec)) => Some(
                        (pos4, LexedTime { hour: hour as u32, min: min as u32, sec: sec as u32 }),
                    ),
                    None => Some((pos3, LexedTime { hour: hour as u32, min: min as u32, sec: 0 })),
                },
                None => None,
            },
            None => None,
        },
        None => None,
    }
}

/// `digit{4} "-"`, the year of a date.
pub open spec fn year_rule(s: Seq<u8>, pos: int) -> Option<(int, i32)> {
    match decimal_int(s, pos, 4, 4) {
        Some((pos1, year)) => match literal(s, pos1, MINUS) {
            Some(pos2) => Some((pos2, year as i32)),
            None => None,
        },
        None => None,
    }
}

/// `digit{1,2} "-" digit{1,2}`, the month and the day of a date.
pub open spec fn month_day_rule(s: Seq<u8>, pos: int) -> Option<(int, (u32, u32))> {
    match decimal_int(s, pos, 1, 2) {
        Some((pos1, month)) => match literal(s, pos1, MINUS) {
            Some(pos2) => match decimal_int(s, pos2, 1, 2) {
                Some((pos3, day)) => Some((pos3, (month as u32, day as u32))),
                None => None,
            },
            None => None,
        },
        None => None,
    }
}

/// `(digit{4} "-")? digit{1,2} "-" digit{1,2}`.
pub open spec fn date_rule(s: Seq<u8>, pos: int) -> Option<(int, LexedDate)> {
    match year_rule(s, pos) {
        Some((pos1, year)) => match month_day_rule(s, pos1) {
            Some((pos2, (month, day))) => Some((pos2, LexedDate { year: Some(year), month, day })),
            None => None,
        },
        None => match month_day_rule(s, pos) {
            Some((pos2, (month, day))) => Some((pos2, LexedDate { year: None, month, day })),
            None => None,
        },
    }
}

/// `date "T" time offset`.
pub open spec fn instant_rule(s: Seq<u8>, pos: int) -> Option<(int, LexedInstant)> {
    match date_rule(s, pos) {
        Some((pos1, date)) => match literal(s, pos1, UPPER_T) {
            Some(pos2) => match time_rule(s, pos2) {
                Some((pos3, time)) => {
                    let (pos4, offset) = offset_rule(s, pos3);
                    Some((pos4, LexedInstant { date, time, offset }))
                },
                None => None,
            },
            None => None,
        },
        None => None,
    }
}

/// `instant "/" instant`.
pub open spec fn instant_to_instant(s: Seq<u8>, pos: int) -> Option<(int, LexedTimeSpan)> {
    match instant_rule(s, pos) {
        Some((pos1, start)) => match literal(s, pos1, SLASH) {
            Some(pos2) => match instant_rule(s, pos2) {
                Some((pos3, end)) => Some((pos3, LexedTimeSpan::InstantIntervalStartEnd { start, end })),
                None => None,
            },
            None => None,
        },
        None => None,
    }
}

/// `instant "/" time`: the end is on the date and at the offset of the start.
pub open spec fn instant_to_time(s: Seq<u8>, pos: int) -> Option<(int, LexedTimeSpan)> {
    match instant_rule(s, pos) {
        Some((pos1, start)) => match literal(s, pos1, SLASH) {
            Some(pos2) => match time_rule(s, pos2) {
                Some((pos3, time)) => Some(
                    (
                        pos3,
                        LexedTimeSpan::InstantIntervalStartEnd {
                            start,
                            end: LexedInstant { date: start.date, time, offset: start.offset },
                        },
                    ),
                ),
                None => None,
            },
            None => None,
        },
        None => None,
    }
}

/// `instant`.
pub open spec fn lone_instant(s: Seq<u8>, pos: int) -> Option<(int, LexedTimeSpan)> {
    match instant_rule(s, pos) {
        Some((pos1, start)) => Some((pos1, LexedTimeSpan::Instant(start))),
        None => None,
    }
}

/// `date "/" date`.
pub open spec fn date_to_date(s: Seq<u8>, pos: int) -> Option<(int, LexedTimeSpan)> {
    match date_rule(s, pos) {
        Some((pos1, start)) => match literal(s, pos1, SLASH) {
            Some(pos2) => match date_rule(s, pos2) {
                Some((pos3, end)) => Some((pos3, LexedTimeSpan::DateIntervalStartEnd { start, end })),
                None => None,
            },
            None => None,
        },
        None => None,
    }
}

/// `date "/" days`. The count of days is written with `usize::MAX` digits, no
/// fewer, so no input that fits in memory matches.
pub open spec fn date_for_days(s: Seq<u8>, pos: int) -> Option<(int, LexedTimeSpan)> {
    match date_rule(s, pos) {
        Some((pos1, start)) => match literal(s, pos1, SLASH) {
            Some(pos2) => match decimal_int(s, pos2, usize::MAX as nat, usize::MAX as nat) {
                Some((pos3, days)) => Some(
                    (
                        pos3,
                        LexedTimeSpan::DateIntervalStartDuration {
                            start,
                            duration_days: Some(days as u32),
                        },
                    ),
                ),
                None => None,
            },
            None => None,
        },
        None => None,
    }
}

/// `date`.
pub open spec fn lone_date(s: Seq<u8>, pos: int) -> Option<(int, LexedTimeSpan)> {
    match date_rule(s, pos) {
        Some((pos1, start)) => Some(
            (pos1, LexedTimeSpan::DateIntervalStartDuration { start, duration_days: None }),
        ),
        None => None,
    }
}

/// The first of two outcomes that is a match.
pub open spec fn or_else<T>(preferred: Option<T>, fallback: Option<T>) -> Option<T> {
    if preferred is Some {
        preferred
    } else {
        fallback
    }
}

/// The rule `time_span`: the first of its six alternatives that matches at
/// `pos`.
pub open spec fn time_span_rule(s: Seq<u8>, pos: int) -> Option<(int, LexedTimeSpan)> {
    or_else(
        instant_to_instant(s, pos),
        or_else(
            instant_to_time(s, pos),
            or_else(
                lone_instant(s, pos),
                or_else(date_to_date(s, pos), or_else(date_for_days(s, pos), lone_date(s, pos))),
            ),
        ),
    )
}

/// The time span that the whole of `s` spells, if it spells one. Where the
/// rule matches a part of `s` only, there is none.
pub open spec fn time_span_of(s: Seq<u8>) -> Option<LexedTimeSpan> {
    match time_span_rule(s, 0) {
        Some((end, span)) => if end == s.len() {
            Some(span)
        } else {
            None
        },
        None => None,
    }
}

/// Whether the outcome `got` of reading a rule is the outcome `want` that the
/// grammar gives: the same end and the same value, or no match.
pub open spec fn same_parse<T>(got: Option<(usize, T)>, want: Option<(int, T)>) -> bool {
    match (got, want) {
        (Some(g), Some(w)) => g.0 == w.0 && g.1 == w.1,
        (None, None) => true,
        _ => false,
    }
}

/// A run of digits ends within the input and is no longer than allowed.
pub proof fn lemma_digit_run_fits(s: Seq<u8>, pos: int, max: nat)
    requires
        0 <= pos <= s.len(),
    ensures
        digit_run(s, pos, max) <= max,
        pos + digit_run(s, pos, max) <= s.len(),
    decreases max,
{
    if max > 0 && pos < s.len() && is_digit(s[pos]) {
        lemma_digit_run_fits(s, pos + 1, (max - 1) as nat);
    }
}

/// The greatest number that `digits` digits spell, for up to nine digits.
pub open spec fn greatest_of(digits: nat) -> nat {
    if digits == 0 {
        0
    } else if digits == 1 {
        9
    } else if digits == 2 {
        99
    } else if digits == 3 {
        999
    } else if digits == 4 {
        9_999
    } else if digits == 5 {
        99_999
    } else if digits == 6 {
        999_999
    } else if digits == 7 {
        9_999_999
    } else if digits == 8 {
        99_999_999
    } else {
        999_999_999
    }
}

/// Reads a run of at least `min` and at most `max` digits at `pos`. Nine
/// digits are the most whose number always fits in 32 bits.
pub fn read_decimal_int(s: &[u8], pos: usize, min: usize, max: usize) -> (r: Option<(usize, u32)>)
    requires
        pos <= s.len(),
        max <= 9,
    ensures
        match decimal_int(s@, pos as int, min as nat, max as nat) {
            Some((end, value)) => r == Some((end as usize, value as u32)) && pos + min <= end
                <= s.len() && value <= greatest_of(max as nat),
            None => r is None,
        },
{
    let mut count: usize = 0;
    let mut value: u32 = 0;
    while count < max
        invariant_except_break
            count <= max <= 9,
            pos + count <= s.len(),
            digit_run(s@, pos as int, max as nat) == count + digit_run(
                s@,
                pos + count,
                (max - count) as nat,
            ),
        invariant
            value == decimal_value(s@, pos as int, count as nat),
            value <= greatest_of(count as nat),
            count <= max <= 9,
            pos + count <= s.len(),
        ensures
            digit_run(s@, pos as int, max as nat) == count,
        decreases max - count,
    {
        if pos + count >= s.len() {
            break ;
        }
        let b: u8 = s[pos + count];
        if b < 48 || b > 57 {
            break ;
        }
        value = value * 10 + (b - 48) as u32;
        count = count + 1;
    }
    if count >= min {
        Some((pos + count, value))
    } else {
        None
    }
}

/// Reads the byte `b` at `pos`.
pub fn read_literal(s: &[u8], pos: usize, b: u8) -> (r: Option<usize>)
    requires
        pos <= s.len(),
    ensures
        match literal(s@, pos as int, b) {
            Some(end) => r == Some(end as usize) && end == pos + 1 && end <= s.len(),
            None => r is None,
        },
{
    if pos < s.len() && s[pos] == b {
        Some(pos + 1)
    } else {
        None
    }
}

/// Reads a fixed offset at `pos`.
pub fn read_fixed_offset(s: &[u8], pos: usize) -> (r: Option<(usize, i32)>)
    requires
        pos <= s.len(),
    ensures
        same_parse(r, fixed_offset_rule(s@, pos as int)),
        r matches Some((end, _)) ==> pos < end <= s.len(),
{
    let factor: i32 = if read_literal(s, pos, PLUS).is_some() {
        1
    } else if read_literal(s, pos, MINUS).is_some() {
        -1
    } else {
        return None;
    };
    let (pos2, hours) = match read_decimal_int(s, pos + 1, 1, 2) {
        Some(found) => found,
        None => return None,
    };
    let pos3 = match read_literal(s, pos2, COLON) {
        Some(found) => found,
        None => return None,
    };
    let (pos4, mins) = match read_decimal_int(s, pos3, 2, 2) {
        Some(found) => found,
        None => return None,
    };
    Some((pos4, factor * (hours as i32 * 3600 + mins as i32 * 60)))
}

/// Reads an offset at `pos`. There always is one: it may be empty.
pub fn read_offset(s: &[u8], pos: usize) -> (r: (usize, LexedOffset))
    requires
        pos <= s.len(),
    ensures
        r.0 == offset_rule(s@, pos as int).0,
        r.1 == offset_rule(s@, pos as int).1,
        pos <= r.0 <= s.len(),
{
    match read_literal(s, pos, UPPER_Z) {
        Some(pos1) => (pos1, LexedOffset::Utc),
        None => match read_fixed_offset(s, pos) {
            Some((pos1, seconds)) => (pos1, LexedOffset::FixedOffset(seconds)),
            None => (pos, LexedOffset::LocalTime),
        },
    }
}

/// Reads a time of day at `pos`.
pub fn read_time(s: &[u8], pos: usize) -> (r: Option<(usize, LexedTime)>)
    requires
        pos <= s.len(),
    ensures
        same_parse(r, time_rule(s@, pos as int)),
        r matches Some((end, _)) ==> pos < end <= s.len(),
{
    let (pos1, hour) = match read_decimal_int(s, pos, 1, 2) {
        Some(found) => found,
        None => return None,
    };
    let pos2 = match read_literal(s, pos1, COLON) {
        Some(found) => found,
        None => return None,
    };
    let (pos3, min) = match read_decimal_int(s, pos2, 2, 2) {
        Some(found) => found,
        None => return None,
    };
    let seconds = match read_literal(s, pos3, COLON) {
        Some(pos4) => read_decimal_int(s, pos4, 2, 2),
        None => None,
    };
    match seconds {
        Some((pos5, sec)) => Some((pos5, LexedTime { hour, min, sec })),
        None => Some((pos3, LexedTime { hour, min, sec: 0 })),
    }
}

/// Reads a month and a day at `pos`.
fn read_month_day(s: &[u8], pos: usize) -> (r: Option<(usize, (u32, u32))>)
    requires
        pos <= s.len(),
    ensures
        same_parse(r, month_day_rule(s@, pos as int)),
        r matches Some((end, _)) ==> pos < end <= s.len(),
{
    let (pos1, month) = match read_decimal_int(s, pos, 1, 2) {
        Some(found) => found,
        None => return None,
    };
    let pos2 = match read_literal(s, pos1, MINUS) {
        Some(found) => found,
        None => return None,
    };
    let (pos3, day) = match read_decimal_int(s, pos2, 1, 2) {
        Some(found) => found,
        None => return None,
    };
    Some((pos3, (month, day)))
}

/// Reads a year and the dash after it at `pos`.
fn read_year(s: &[u8], pos: usize) -> (r: Option<(usize, i32)>)
    requires
        pos <= s.len(),
    ensures
        same_parse(r, year_rule(s@, pos as int)),
        r matches Some((end, _)) ==> pos < end <= s.len(),
{
    let (pos1, year) = match read_decimal_int(s, pos, 4, 4) {
        Some(found) => found,
        None => return None,
    };
    match read_literal(s, pos1, MINUS) {
        Some(pos2) => Some((pos2, year as i32)),
        None => None,
    }
}

/// Reads a date at `pos`.
pub fn read_date(s: &[u8], pos: usize) -> (r: Option<(usize, LexedDate)>)
    requires
        pos <= s.len(),
    ensures
        same_parse(r, date_rule(s@, pos as int)),
        r matches Some((end, _)) ==> pos < end <= s.len(),
{
    match read_year(s, pos) {
        Some((pos1, year)) => match read_month_day(s, pos1) {
            Some((pos2, (month, day))) => Some((pos2, LexedDate { year: Some(year), month, day })),
            None => None,
        },
        None => match read_month_day(s, pos) {
            Some((pos2, (month, day))) => Some((pos2, LexedDate { year: None, month, day })),
            None => None,
        },
    }
}

/// Reads an instant at `pos`.
pub fn read_instant(s: &[u8], pos: usize) -> (r: Option<(usize, LexedInstant)>)
    requires
        pos <= s.len(),
    ensures
        same_parse(r, instant_rule(s@, pos as int)),
        r matches Some((end, _)) ==> pos < end <= s.len(),
{
    let (pos1, date) = match read_date(s, pos) {
        Some(found) => found,
        None => return None,
    };
    let pos2 = match read_literal(s, pos1, UPPER_T) {
        Some(found) => found,
        None => return None,
    };
    let (pos3, time) = match read_time(s, pos2) {
        Some(found) => found,
        None => return None,
    };
    let (pos4, offset) = read_offset(s, pos3);
    Some((pos4, LexedInstant { date, time, offset }))
}

/// Reads what may follow the instant `start`, which ends at `pos`, in a time
/// span: a slash and an instant, a slash and a time of day, or nothing.
fn read_after_instant(s: &[u8], from: usize, pos: usize, start: LexedInstant) -> (r: (
    usize,
    LexedTimeSpan,
))
    requires
        from <= pos <= s.len(),
        instant_rule(s@, from as int) == Some((pos as int, start)),
    ensures
        time_span_rule(s@, from as int) == Some((r.0 as int, r.1)),
        r.0 <= s.len(),
{
    match read_literal(s, pos, SLASH) {
        Some(pos2) => match read_instant(s, pos2) {
            Some((pos3, end)) => (pos3, LexedTimeSpan::InstantIntervalStartEnd { start, end }),
            None => match read_time(s, pos2) {
                Some((pos3, time)) => (
                    pos3,
                    LexedTimeSpan::InstantIntervalStartEnd {
                        start,
                        end: LexedInstant { date: start.date, time, offset: start.offset },
                    },
                ),
                None => (pos, LexedTimeSpan::Instant(start)),
            },
        },
        None => (pos, LexedTimeSpan::Instant(start)),
    }
}

/// Reads what may follow the date `start`, which ends at `pos`, in a time
/// span that does not begin with an instant: a slash and a date, or nothing.
fn read_after_date(s: &[u8], from: usize, pos: usize, start: LexedDate) -> (r: (
    usize,
    LexedTimeSpan,
))
    requires
        from < pos <= s.len(),
        date_rule(s@, from as int) == Some((pos as int, start)),
        instant_rule(s@, from as int) is None,
    ensures
        time_span_rule(s@, from as int) == Some((r.0 as int, r.1)),
        r.0 <= s.len(),
{
    match read_literal(s, pos, SLASH) {
        Some(pos2) => match read_date(s, pos2) {
            Some((pos3, end)) => (pos3, LexedTimeSpan::DateIntervalStartEnd { start, end }),
            None => {
                proof {
                    lemma_digit_run_fits(s@, pos2 as int, usize::MAX as nat);
                }
                (pos, LexedTimeSpan::DateIntervalStartDuration { start, duration_days: None })
            },
        },
        None => (pos, LexedTimeSpan::DateIntervalStartDuration { start, duration_days: None }),
    }
}

/// Reads the time span that the whole of `s` spells.
pub fn read_time_span(s: &[u8]) -> (r: Option<LexedTimeSpan>)
    ensures
        r == time_span_of(s@),
{
    let (end, span) = match read_instant(s, 0) {
        Some((pos1, start)) => read_after_instant(s, 0, pos1, start),
        None => match read_date(s, 0) {
            Some((pos1, start)) => read_after_date(s, 0, pos1, start),
            None => return None,
        },
    };
    if end == s.len() {
        Some(span)
    } else {
        None
    }
}

} // verus!
