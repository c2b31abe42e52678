//! The wall clock, and dates as text.

use crate::text::{decimal, decimal_chars, digit_char, push_all, string_of};
use chrono::{Datelike, TimeZone, Timelike};
use vstd::prelude::*;

verus! {

/// A moment on the local calendar.
#[derive(Debug, Clone, Copy, PartialEq, Eq, Structural)]
pub struct LocalMoment {
    /// Seconds since the epoch.
    pub epoch_seconds: i64,
    pub year: i32,
    pub month: u32,
    pub day: u32,
    pub hour: u32,
    pub minute: u32,
    pub second: u32,
}

/// The fields of the moment lie in the ranges of the calendar: months from
/// 1 to 12, days from 1 to 31, hours below 24, minutes and seconds below 60.
pub open spec fn on_calendar(t: LocalMoment) -> bool {
    &&& 1 <= t.month <= 12
    &&& 1 <= t.day <= 31
    &&& t.hour < 24
    &&& t.minute < 60
    &&& t.second < 60
}

/// Reads the clock: `chrono::Local::now`, with the fields of the local
/// calendar taken from the result by the methods of `Datelike` and
/// `Timelike`. Only the ranges of the fields are claimed; which moment is
/// read depends on the clock and on the time zone of the machine.
#[verifier::external_body]
pub(crate) fn local_now() -> (t: LocalMoment)
    ensures
        on_calendar(t),
{
    let now = chrono::Local::now();
    LocalMoment {
        epoch_seconds: now.timestamp(),
        year: now.year(),
        month: now.month(),
        day: now.day(),
        hour: now.hour(),
        minute: now.minute(),
        second: now.second(),
    }
}

/// The first second that the calendar holds: the beginning of the year
/// 262143 before the year nought, on the calendar of universal time.
pub const FIRST_SECOND: i64 = -8_334_601_228_800;

/// The last second that the calendar holds: the end of the year 262142, on
/// the calendar of universal time.
pub const LAST_SECOND: i64 = 8_210_266_876_799;

/// The calendar holds the second.
pub open spec fn calendar_holds(epoch_seconds: i64) -> bool {
    FIRST_SECOND <= epoch_seconds <= LAST_SECOND
}

/// Places a count of seconds since the epoch on the local calendar:
/// `chrono::TimeZone::timestamp_opt` on `chrono::Local`, which gives no
/// moment for a count out of the range of the calendar and a single one for
/// every other. The range is that of the years that `chrono::NaiveDate`
/// holds, counted in seconds. Of the fields only the ranges are claimed:
/// what they hold depends on the time zone of the machine.
#[verifier::external_body]
pub(crate) fn local_moment_at(epoch_seconds: i64) -> (t: Option<LocalMoment>)
    ensures
        t is Some <==> calendar_holds(epoch_seconds),
        t matches Some(m) ==> m.epoch_seconds == epoch_seconds && on_calendar(m),
{
    let at = chrono::Local.timestamp_opt(epoch_seconds, 0).single()?;
    Some(
        LocalMoment {
            epoch_seconds,
            year: at.year(),
            month: at.month(),
            day: at.day(),
            hour: at.hour(),
            minute: at.minute(),
            second: at.second(),
        },
    )
}

/// A number in at least two digits.
pub open spec fn two_digits(n: nat) -> Seq<char> {
    if n < 10 {
        seq!['0', digit_char(n)]
    } else {
        decimal(n)
    }
}

/// A number in at least four digits.
pub open spec fn padded_four(n: nat) -> Seq<char> {
    if n < 10 {
        seq!['0', '0', '0'] + decimal(n)
    } else if n < 100 {
        seq!['0', '0'] + decimal(n)
    } else if n < 1000 {
        seq!['0'] + decimal(n)
    } else {
        decimal(n)
    }
}

/// A year as text: in four digits from the year nought to the year 9999;
/// outside of these with its sign, minus or plus, before at least four digits.
pub open spec fn four_digits(year: int) -> Seq<char> {
    if year < 0 {
        seq!['-'] + padded_four((-year) as nat)
    } else if year >= 10000 {
        seq!['+'] + padded_four(year as nat)
    } else {
        padded_four(year as nat)
    }
}

/// The date of a moment, its parts joined by `sep` where one is given.
pub open spec fn date_text(t: LocalMoment, sep: Option<char>) -> Seq<char> {
    match sep {
        Some(c) => four_digits(t.year as int).push(c) + two_digits(t.month as nat).push(c)
            + two_digits(t.day as nat),
        None => four_digits(t.year as int) + two_digits(t.month as nat) + two_digits(t.day as nat),
    }
}

/// The time of day of a moment, its parts joined by `sep` where one is given.
pub open spec fn time_text(t: LocalMoment, sep: Option<char>) -> Seq<char> {
    match sep {
        Some(c) => two_digits(t.hour as nat).push(c) + two_digits(t.minute as nat).push(c)
            + two_digits(t.second as nat),
        None => two_digits(t.hour as nat) + two_digits(t.minute as nat) + two_digits(t.second as nat),
    }
}

/// A moment as `YYYYMMDD_HHMMSS`.
pub open spec fn compact_stamp(t: LocalMoment) -> Seq<char> {
    date_text(t, None).push('_') + time_text(t, None)
}

/// A moment as `YYYY-MM-DD HH:MM:SS`.
pub open spec fn readable_stamp(t: LocalMoment) -> Seq<char> {
    date_text(t, Some('-')).push(' ') + time_text(t, Some(':'))
}

/// A moment as `YYYY-MM-DD_HH-MM-SS`.
pub open spec fn file_stamp(t: LocalMoment) -> Seq<char> {
    date_text(t, Some('-')).push('_') + time_text(t, Some('-'))
}

/// The month of a moment as `YYYY-MM`.
pub open spec fn month_stamp(t: LocalMoment) -> Seq<char> {
    four_digits(t.year as int).push('-') + two_digits(t.month as nat)
}

fn push_two(out: &mut Vec<char>, n: u32)
    ensures
        final(out)@ == old(out)@ + two_digits(n as nat),
{
    if n < 10 {
        out.push('0');
        out.push(((48 + n) as u8) as char);
        proof {
            assert(out@ =~= old(out)@ + two_digits(n as nat));
        }
    } else {
        let digits = decimal_chars(n as u64);
        push_all(out, &digits);
    }
}

fn push_year(out: &mut Vec<char>, year: i32)
    ensures
        final(out)@ == old(out)@ + four_digits(year as int),
{
    let size: u64 = if year < 0 {
        out.push('-');
        (-(year as i64)) as u64
    } else {
        if year >= 10000 {
            out.push('+');
        }
        year as u64
    };
    let ghost signed = out@;
    if size < 10 {
        out.push('0');
    }
    if size < 100 {
        out.push('0');
    }
    if size < 1000 {
        out.push('0');
    }
    let digits = decimal_chars(size);
    push_all(out, &digits);
    proof {
        assert(out@ =~= signed + padded_four(size as nat));
        assert(out@ =~= old(out)@ + four_digits(year as int));
    }
}

fn push_date(out: &mut Vec<char>, t: &LocalMoment, sep: Option<char>)
    ensures
        final(out)@ == old(out)@ + date_text(*t, sep),
{
    push_year(out, t.year);
    if let Some(c) = sep {
        out.push(c);
    }
    push_two(out, t.month);
    if let Some(c) = sep {
        out.push(c);
    }
    push_two(out, t.day);
    proof {
        assert(out@ =~= old(out)@ + date_text(*t, sep));
    }
}

fn push_time(out: &mut Vec<char>, t: &LocalMoment, sep: Option<char>)
    ensures
        final(out)@ == old(out)@ + time_text(*t, sep),
{
    push_two(out, t.hour);
    if let Some(c) = sep {
        out.push(c);
    }
    push_two(out, t.minute);
    if let Some(c) = sep {
        out.push(c);
    }
    push_two(out, t.second);
    proof {
        assert(out@ =~= old(out)@ + time_text(*t, sep));
    }
}

/// Writes a moment as `YYYYMMDD_HHMMSS`.
pub fn format_compact(t: &LocalMoment) -> (s: String)
    ensures
        s@ == compact_stamp(*t),
{
    let mut out: Vec<char> = Vec::new();
    push_date(&mut out, t, None);
    out.push('_');
    push_time(&mut out, t, None);
    proof {
        assert(out@ =~= compact_stamp(*t));
    }
    string_of(&out)
}

/// Writes a moment as `YYYY-MM-DD HH:MM:SS`.
pub fn format_readable(t: &LocalMoment) -> (s: String)
    ensures
        s@ == readable_stamp(*t),
{
    let mut out: Vec<char> = Vec::new();
    push_date(&mut out, t, Some('-'));
    out.push(' ');
    push_time(&mut out, t, Some(':'));
    proof {
        assert(out@ =~= readable_stamp(*t));
    }
    string_of(&out)
}

/// Writes a moment as `YYYY-MM-DD_HH-MM-SS`.
pub fn format_for_file(t: &LocalMoment) -> (s: String)
    ensures
        s@ == file_stamp(*t),
{
    let mut out: Vec<char> = Vec::new();
    push_date(&mut out, t, Some('-'));
    out.push('_');
    push_time(&mut out, t, Some('-'));
    proof {
        assert(out@ =~= file_stamp(*t));
    }
    string_of(&out)
}

/// Writes the month of a moment as `YYYY-MM`.
pub fn format_month(t: &LocalMoment) -> (s: String)
    ensures
        s@ == month_stamp(*t),
{
    let mut out: Vec<char> = Vec::new();
    push_year(&mut out, t.year);
    out.push('-');
    push_two(&mut out, t.month);
    proof {
        assert(out@ =~= month_stamp(*t));
    }
    string_of(&out)
}

/// The current moment on the local calendar.
pub fn current_moment() -> (t: LocalMoment)
    ensures
        on_calendar(t),
{
    local_now()
}

/// The moment of a count of seconds since the epoch on the local calendar.
/// There is one exactly where the calendar holds the second; it carries the
/// count, and its fields lie in the ranges of the calendar.
pub fn moment_of(epoch_seconds: i64) -> (t: Option<LocalMoment>)
    ensures
        t is Some <==> calendar_holds(epoch_seconds),
        t matches Some(m) ==> m.epoch_seconds == epoch_seconds && on_calendar(m),
{
    local_moment_at(epoch_seconds)
}

} // verus!
