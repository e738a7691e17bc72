//! Local calendar dates and times of transfers, taken from the system clock
//! and time zone through `chrono`, and their texts.

use vstd::prelude::*;
use chrono::{Datelike, TimeZone, Timelike};
use crate::fmt::{decimal, decimal2, push_decimal, push_decimal2};
use crate::text::{chars_of, extend_chars, string_of};

verus! {

/// A day of the proleptic Gregorian calendar.
#[derive(Clone, Copy, Debug, PartialEq, Eq, Structural)]
pub struct CalendarDate {
    pub year: i32,
    pub month: u32,
    pub day: u32,
}

/// A local date and time, to the minute.
#[derive(Clone, Copy, Debug, PartialEq, Eq, Structural)]
pub struct LocalDateTime {
    pub date: CalendarDate,
    pub hour: u32,
    pub minute: u32,
}

/// The field ranges `Datelike` documents: month 1–12, day 1–31.
pub open spec fn date_in_range(d: CalendarDate) -> bool {
    1 <= d.month <= 12 && 1 <= d.day <= 31
}

/// The field ranges `Timelike` documents: hour 0–23, minute 0–59.
pub open spec fn date_time_in_range(t: LocalDateTime) -> bool {
    date_in_range(t.date) && t.hour < 24 && t.minute < 60
}

pub open spec fn is_leap_year(y: int) -> bool {
    (y % 4 == 0 && y % 100 != 0) || y % 400 == 0
}

pub open spec fn days_in_month(y: int, m: int) -> int {
    if m == 2 {
        if is_leap_year(y) {
            29
        } else {
            28
        }
    } else if m == 4 || m == 6 || m == 9 || m == 11 {
        30
    } else {
        31
    }
}

/// The first and last years `chrono::NaiveDate` represents.
pub open spec fn chrono_min_year() -> int {
    -262143
}

pub open spec fn chrono_max_year() -> int {
    262142
}

/// A date `chrono::NaiveDate::from_ymd_opt` accepts.
pub open spec fn valid_date(d: CalendarDate) -> bool {
    &&& chrono_min_year() <= d.year <= chrono_max_year()
    &&& 1 <= d.month <= 12
    &&& 1 <= d.day <= days_in_month(d.year as int, d.month as int)
}

/// The first date `chrono::NaiveDate` represents (January 1, 262144 BCE).
pub open spec fn is_first_date(d: CalendarDate) -> bool {
    d.year == chrono_min_year() && d.month == 1 && d.day == 1
}

/// The calendar day before `d`.
pub open spec fn previous_date(d: CalendarDate) -> CalendarDate {
    if d.day > 1 {
        CalendarDate { year: d.year, month: d.month, day: (d.day - 1) as u32 }
    } else if d.month > 1 {
        CalendarDate {
            year: d.year,
            month: (d.month - 1) as u32,
            day: days_in_month(d.year as int, d.month - 1) as u32,
        }
    } else {
        CalendarDate { year: (d.year - 1) as i32, month: 12, day: 31 }
    }
}

/// The number of days from 1970-01-01 to a day of the proleptic Gregorian
/// calendar (negative before it).
pub open spec fn days_from_civil(year: int, month: int, day: int) -> int {
    let y = if month <= 2 {
        year - 1
    } else {
        year
    };
    let era = y / 400;
    let yoe = y - era * 400;
    let mp = (month + 9) % 12;
    let doy = (153 * mp + 2) / 5 + day - 1;
    let doe = yoe * 365 + yoe / 4 - yoe / 100 + doy;
    era * 146097 + doe - 719468
}

/// A local date and time as seconds since 1970-01-01 00:00 on the same wall
/// clock.
pub open spec fn wall_seconds(t: LocalDateTime) -> int {
    days_from_civil(t.date.year as int, t.date.month as int, t.date.day as int) * 86400 + t.hour * 3600
        + t.minute * 60
}

/// The seconds a stored timestamp stands for when read as `i64`.
pub open spec fn signed_seconds(timestamp: u64) -> int {
    if timestamp <= i64::MAX {
        timestamp as int
    } else {
        timestamp - 0x1_0000_0000_0000_0000
    }
}

/// The instants chrono can date: from -262143-01-01 00:00:00 to
/// 262142-12-31 23:59:59 UTC.
pub open spec fn chrono_placeable(timestamp: u64) -> bool {
    -8334601228800 <= signed_seconds(timestamp) <= 8210266876799
}

/// `t` is how a clock in some time zone shows the instant `secs`: its wall
/// time, to the minute, lies less than a day away from the instant (time-zone
/// offsets are under 86 400 seconds).
pub open spec fn shows_instant(t: LocalDateTime, secs: int) -> bool {
    &&& date_time_in_range(t)
    &&& secs - 86460 < wall_seconds(t) < secs + 86400
}

/// What the local clock can read for `timestamp`: a date and time showing it
/// when chrono can place it, nothing otherwise.
pub open spec fn local_reading(timestamp: u64, t: Option<LocalDateTime>) -> bool {
    match t {
        Some(x) => chrono_placeable(timestamp) && shows_instant(x, signed_seconds(timestamp)),
        None => !chrono_placeable(timestamp),
    }
}

/// Calls `chrono::Local.timestamp_opt(secs, 0).single()` and reads the date
/// and time fields. chrono gives a date exactly when `DateTime::from_timestamp`
/// can place the seconds (which depends on them alone), and then the local
/// wall time is that instant plus a `FixedOffset`, under a day either way.
/// Which time zone, and so which exact reading, is left unsaid.
#[verifier::external_body]
fn local_date_time(timestamp: u64) -> (r: Option<LocalDateTime>)
    ensures
        local_reading(timestamp, r),
{
    match chrono::Local.timestamp_opt(timestamp as i64, 0).single() {
        Some(dt) => Some(LocalDateTime {
            date: CalendarDate { year: dt.year(), month: dt.month(), day: dt.day() },
            hour: dt.hour(),
            minute: dt.minute(),
        }),
        None => None,
    }
}

/// Calls `chrono::Local::now().date_naive()`: today's local date. It depends
/// on the clock and time zone; only the documented field ranges are stated.
#[verifier::external_body]
fn local_today() -> (d: CalendarDate)
    ensures
        date_in_range(d),
{
    let today = chrono::Local::now().date_naive();
    CalendarDate { year: today.year(), month: today.month(), day: today.day() }
}

/// Calls `chrono::NaiveDate::from_ymd_opt` and `NaiveDate::pred_opt`: the
/// previous calendar day of a valid date, and `None` for an invalid date or
/// the first representable one, as chrono documents both functions.
#[verifier::external_body]
fn previous_day(d: CalendarDate) -> (r: Option<CalendarDate>)
    ensures
        valid_date(d) && !is_first_date(d) ==> r == Some(previous_date(d)),
        !valid_date(d) || is_first_date(d) ==> r is None,
{
    match chrono::NaiveDate::from_ymd_opt(d.year, d.month, d.day) {
        Some(date) => match date.pred_opt() {
            Some(p) => Some(CalendarDate { year: p.year(), month: p.month(), day: p.day() }),
            None => None,
        },
        None => None,
    }
}

/// The text of a signed year ("2024", "-44").
pub open spec fn int_text(i: int) -> Seq<char> {
    if i < 0 {
        seq!['-'] + decimal((-i) as nat)
    } else {
        decimal(i as nat)
    }
}

fn push_year(out: &mut Vec<char>, y: i32)
    ensures
        final(out)@ == old(out)@ + int_text(y as int),
{
    if y < 0 {
        out.push('-');
        let m = -(y as i64);
        push_decimal(out, m as u64);
        assert(old(out)@.push('-') + decimal((-y) as nat) =~= old(out)@ + int_text(y as int));
    } else {
        push_decimal(out, y as u64);
    }
}

/// The heading of a history day: "今天", "昨天", "M月D日" within this year,
/// "Y年M月D日" otherwise, and "更早" when the entry's date is unknown.
pub open spec fn date_label_text(
    date: Option<CalendarDate>,
    today: CalendarDate,
    yesterday: Option<CalendarDate>,
) -> Seq<char> {
    match date {
        None => "更早"@,
        Some(d) => if d == today {
            "今天"@
        } else if yesterday == Some(d) {
            "昨天"@
        } else if d.year == today.year {
            decimal(d.month as nat) + "月"@ + decimal(d.day as nat) + "日"@
        } else {
            int_text(d.year as int) + "年"@ + decimal(d.month as nat) + "月"@ + decimal(
                d.day as nat,
            ) + "日"@
        },
    }
}

/// The day heading of an entry dated `date`, given today and yesterday.
pub fn date_label(date: Option<CalendarDate>, today: CalendarDate, yesterday: Option<CalendarDate>) -> (s: String)
    ensures
        s@ == date_label_text(date, today, yesterday),
{
    match date {
        None => String::from_str("更早"),
        Some(d) => {
            if d == today {
                String::from_str("今天")
            } else if yesterday == Some(d) {
                String::from_str("昨天")
            } else {
                let mut v: Vec<char> = Vec::new();
                if d.year != today.year {
                    push_year(&mut v, d.year);
                    extend_chars(&mut v, chars_of("年").as_slice());
                }
                push_decimal(&mut v, d.month as u64);
                extend_chars(&mut v, chars_of("月").as_slice());
                push_decimal(&mut v, d.day as u64);
                extend_chars(&mut v, chars_of("日").as_slice());
                assert(v@ =~= date_label_text(date, today, yesterday));
                string_of(v.as_slice())
            }
        },
    }
}

/// The day before `today` as chrono gives it: none for an invalid date or the
/// first representable one.
pub open spec fn yesterday_of(today: CalendarDate) -> Option<CalendarDate> {
    if valid_date(today) && !is_first_date(today) {
        Some(previous_date(today))
    } else {
        None
    }
}

/// A day heading the local clock can give for `timestamp`: the heading of
/// its local date (none when chrono cannot place it) under some local today,
/// with yesterday the day before today.
pub open spec fn local_day_label(timestamp: u64, s: Seq<char>) -> bool {
    exists|d: Option<LocalDateTime>, t: CalendarDate|
        #![trigger local_reading(timestamp, d), date_label_text(date_of(d), t, yesterday_of(t))]
        date_in_range(t) && local_reading(timestamp, d) && s == date_label_text(date_of(d), t, yesterday_of(t))
}

pub open spec fn date_of(d: Option<LocalDateTime>) -> Option<CalendarDate> {
    match d {
        Some(x) => Some(x.date),
        None => None,
    }
}

/// The day heading of an entry with this timestamp, from the local clock.
pub fn date_group_label(timestamp: u64) -> (s: String)
    ensures
        local_day_label(timestamp, s@),
{
    let reading = local_date_time(timestamp);
    let date = match reading {
        Some(dt) => Some(dt.date),
        None => None,
    };
    let today = local_today();
    let yesterday = previous_day(today);
    assert(yesterday == yesterday_of(today));
    assert(date == date_of(reading));
    let s = date_label(date, today, yesterday);
    assert(date_in_range(today) && local_reading(timestamp, reading) && s@ == date_label_text(
        date_of(reading),
        today,
        yesterday_of(today),
    ));
    s
}

/// "Y/M/D HH:MM" of a local date and time, "-" when unknown.
pub open spec fn date_time_text(t: Option<LocalDateTime>) -> Seq<char> {
    match t {
        None => "-"@,
        Some(dt) => int_text(dt.date.year as int) + seq!['/'] + decimal(dt.date.month as nat)
            + seq!['/'] + decimal(dt.date.day as nat) + seq![' '] + decimal2(dt.hour as nat)
            + seq![':'] + decimal2(dt.minute as nat),
    }
}

/// "HH:MM" of a local time, "-" when unknown.
pub open spec fn time_of_day_text(t: Option<LocalDateTime>) -> Seq<char> {
    match t {
        None => "-"@,
        Some(dt) => decimal2(dt.hour as nat) + seq![':'] + decimal2(dt.minute as nat),
    }
}

/// Writes a local date and time as "Y/M/D HH:MM".
pub fn format_date_time(t: Option<LocalDateTime>) -> (s: String)
    ensures
        s@ == date_time_text(t),
{
    match t {
        None => String::from_str("-"),
        Some(dt) => {
            let mut v: Vec<char> = Vec::new();
            push_year(&mut v, dt.date.year);
            v.push('/');
            push_decimal(&mut v, dt.date.month as u64);
            v.push('/');
            push_decimal(&mut v, dt.date.day as u64);
            v.push(' ');
            push_decimal2(&mut v, dt.hour as u64);
            v.push(':');
            push_decimal2(&mut v, dt.minute as u64);
            assert(v@ =~= date_time_text(t));
            string_of(v.as_slice())
        },
    }
}

/// Writes a local time as "HH:MM".
pub fn format_clock_time(t: Option<LocalDateTime>) -> (s: String)
    ensures
        s@ == time_of_day_text(t),
{
    match t {
        None => String::from_str("-"),
        Some(dt) => {
            let mut v: Vec<char> = Vec::new();
            push_decimal2(&mut v, dt.hour as u64);
            v.push(':');
            push_decimal2(&mut v, dt.minute as u64);
            assert(v@ =~= time_of_day_text(t));
            string_of(v.as_slice())
        },
    }
}

/// The local date and time of a timestamp as "Y/M/D HH:MM" ("-" if chrono
/// cannot place it).
pub fn format_timestamp(timestamp: u64) -> (s: String)
    ensures
        exists|t: Option<LocalDateTime>| #[trigger] local_reading(timestamp, t) && s@ == date_time_text(t),
{
    let t = local_date_time(timestamp);
    let s = format_date_time(t);
    assert(local_reading(timestamp, t) && s@ == date_time_text(t));
    s
}

/// The local time of a timestamp as "HH:MM" ("-" if chrono cannot place it).
pub fn format_time_of_day(timestamp: u64) -> (s: String)
    ensures
        exists|t: Option<LocalDateTime>| #[trigger] local_reading(timestamp, t) && s@ == time_of_day_text(t),
{
    let t = local_date_time(timestamp);
    let s = format_clock_time(t);
    assert(local_reading(timestamp, t) && s@ == time_of_day_text(t));
    s
}

} // verus!
