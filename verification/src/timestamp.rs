//! Points in time, as the page shows them.

use crate::text::{
    all_digits, law_padded_reads_back, lemma_padded_len, numeral_value, padded,
};
use chrono::{Datelike, Timelike};
use vstd::prelude::*;

verus! {

/// How the page writes a point in time.
pub const TIMESTAMP_FORMAT: &'static str = "%Y-%m-%d %H:%M:%S";

/// A date and time of day in UTC, on the proleptic Gregorian calendar.
///
/// A leap second is second 59 with a nanosecond of one billion or more.
#[derive(Debug, Clone, Copy, PartialEq, Eq)]
pub struct UtcDateTime {
    pub year: i32,
    pub month: u32,
    pub day: u32,
    pub hour: u32,
    pub minute: u32,
    pub second: u32,
    pub nanosecond: u32,
}

/// Whether `year` has a 29th of February.
pub open spec fn is_leap_year(year: int) -> bool {
    year % 4 == 0 && (year % 100 != 0 || year % 400 == 0)
}

/// The number of days of a month.
pub open spec fn days_in_month(year: int, month: int) -> int {
    if month == 2 {
        if is_leap_year(year) { 29 } else { 28 }
    } else if month == 4 || month == 6 || month == 9 || month == 11 {
        30
    } else {
        31
    }
}

impl UtcDateTime {
    /// Whether the fields name an existing day and a time on it.
    pub open spec fn wf(self) -> bool {
        &&& -262143 <= self.year <= 262142
        &&& 1 <= self.month <= 12
        &&& 1 <= self.day <= days_in_month(self.year as int, self.month as int)
        &&& self.hour < 24
        &&& self.minute < 60
        &&& self.second < 60
        &&& self.nanosecond < 2_000_000_000
        &&& self.nanosecond >= 1_000_000_000 ==> self.second == 59
    }
}

/// A year: four digits at least, with a sign outside of the years 0 to 9999.
pub open spec fn year_text(year: int) -> Seq<char> {
    if 0 <= year <= 9999 {
        padded(year as nat, 4)
    } else if year < 0 {
        seq!['-'] + padded((-year) as nat, 4)
    } else {
        seq!['+'] + padded(year as nat, 4)
    }
}

/// `t` in the form `2024-05-06 07:08:09`; a leap second is second 60.
pub open spec fn timestamp_text(t: UtcDateTime) -> Seq<char> {
    year_text(t.year as int) + seq!['-'] + padded(t.month as nat, 2) + seq!['-'] + padded(
        t.day as nat,
        2,
    ) + seq![' '] + padded(t.hour as nat, 2) + seq![':'] + padded(t.minute as nat, 2) + seq![':']
        + padded((t.second + t.nanosecond / 1_000_000_000) as nat, 2)
}

/// Whether `t` is a point in time as the server dates its notes: in the years 0 to 9999,
/// in whole milliseconds, and no leap second.
pub open spec fn is_server_time(t: UtcDateTime) -> bool {
    t.wf() && 0 <= t.year <= 9999 && t.nanosecond < 1_000_000_000 && t.nanosecond % 1_000_000 == 0
}

/// `t` in the form `2024-05-06T07:08:09.010Z`, which the server dates its notes in.
pub open spec fn server_time_text(t: UtcDateTime) -> Seq<char> {
    padded(t.year as nat, 4) + seq!['-'] + padded(t.month as nat, 2) + seq!['-'] + padded(
        t.day as nat,
        2,
    ) + seq!['T'] + padded(t.hour as nat, 2) + seq![':'] + padded(t.minute as nat, 2) + seq![':']
        + padded(t.second as nat, 2) + seq!['.'] + padded((t.nanosecond / 1_000_000) as nat, 3)
        + seq!['Z']
}

/// What `chrono::DateTime::parse_from_rfc3339` reads from `text`, taken to UTC:
/// `None` where `text` is no date and time of RFC 3339.
pub uninterp spec fn rfc3339_utc(text: Seq<char>) -> Option<UtcDateTime>;

/// `chrono::DateTime::parse_from_rfc3339`: what it reads depends on the text alone,
/// names an existing day and time, and is the day and time written there where the text
/// has the form that the server dates its notes in.
#[verifier::external_body]
pub(crate) fn parse_rfc3339_utc(text: &str) -> (r: Option<UtcDateTime>)
    ensures
        r == rfc3339_utc(text@),
        r matches Some(t) ==> t.wf(),
        forall|t: UtcDateTime|
            is_server_time(t) && text@ == #[trigger] server_time_text(t) ==> r == Some(t),
{
    let utc = chrono::DateTime::parse_from_rfc3339(text).ok()?.with_timezone(&chrono::Utc);
    Some(UtcDateTime {
        year: utc.year(),
        month: utc.month(),
        day: utc.day(),
        hour: utc.hour(),
        minute: utc.minute(),
        second: utc.second(),
        nanosecond: utc.nanosecond(),
    })
}

/// `chrono::Utc::now`, the current time: of it only that it is an existing day and
/// time is known. It panics on a machine whose clock stands before 1970.
#[verifier::external_body]
pub(crate) fn utc_now() -> (r: UtcDateTime)
    ensures
        r.wf(),
{
    let utc = chrono::Utc::now();
    UtcDateTime {
        year: utc.year(),
        month: utc.month(),
        day: utc.day(),
        hour: utc.hour(),
        minute: utc.minute(),
        second: utc.second(),
        nanosecond: utc.nanosecond(),
    }
}

/// Whether `t` is a point in time that reading the clock can give.
pub closed spec fn is_clock_reading(t: UtcDateTime) -> bool {
    call_ensures(utc_now, (), t)
}

/// Reads the clock.
pub fn read_clock() -> (r: UtcDateTime)
    ensures
        r.wf(),
        is_clock_reading(r),
{
    let clock = utc_now;
    clock()
}

/// `chrono::DateTime::format`, for the format of the page: the fields in decimal,
/// filled up with zeros, with the separators of the format between them.
#[verifier::external_body]
pub(crate) fn format_utc(t: &UtcDateTime, format: &str) -> (r: String)
    requires
        t.wf(),
        format@ == TIMESTAMP_FORMAT@,
    ensures
        r@ == timestamp_text(*t),
{
    let date = chrono::NaiveDate::from_ymd_opt(t.year, t.month, t.day).unwrap();
    let time = chrono::NaiveTime::from_hms_nano_opt(t.hour, t.minute, t.second, t.nanosecond);
    date.and_time(time.unwrap()).and_utc().format(format).to_string()
}

/// A point in time of the years 0 to 9999 takes up nineteen characters, with the same
/// separators in the same places.
pub proof fn law_timestamp_shape(t: UtcDateTime)
    requires
        t.wf(),
        0 <= t.year <= 9999,
    ensures
        ({
            let text = timestamp_text(t);
            &&& text.len() == 19
            &&& text[4] == '-'
            &&& text[7] == '-'
            &&& text[10] == ' '
            &&& text[13] == ':'
            &&& text[16] == ':'
        }),
{
    lemma_padded_len(t.year as nat, 4);
    lemma_padded_len(t.month as nat, 2);
    lemma_padded_len(t.day as nat, 2);
    lemma_padded_len(t.hour as nat, 2);
    lemma_padded_len(t.minute as nat, 2);
    lemma_padded_len((t.second + t.nanosecond / 1_000_000_000) as nat, 2);
}

/// The months have 31, 28, 31, 30, 31, 30, 31, 31, 30, 31, 30 and 31 days, and the second
/// has one more every four years, but for three centuries out of four.
pub proof fn law_calendar(year: int, month: int)
    requires
        1 <= month <= 12,
    ensures
        days_in_month(year, month) == seq![
            31int,
            28,
            31,
            30,
            31,
            30,
            31,
            31,
            30,
            31,
            30,
            31,
        ][month - 1] + (if month == 2 && is_leap_year(year) {
            1int
        } else {
            0
        }),
        is_leap_year(year) <==> year % 400 == 0 || (year % 4 == 0 && year % 100 != 0),
{
}

/// The fields name an existing time wherever the day is on the calendar and the time of
/// day on the clock; second 60 is second 59 with a second's worth of nanoseconds more.
pub proof fn law_existing_times(t: UtcDateTime)
    ensures
        t.wf() <==> {
            &&& -262_144 < t.year < 262_143
            &&& 0 < t.month < 13
            &&& 0 < t.day < days_in_month(t.year as int, t.month as int) + 1
            &&& t.hour <= 23 && t.minute <= 59 && t.second <= 59
            &&& t.nanosecond <= 999_999_999 || (t.second == 59 && t.nanosecond <= 1_999_999_999)
        },
{
}

/// Every field is read back from where it stands in the shown time: two digits each from
/// the end, and before them the year, with a sign outside of the years 0 to 9999.
pub proof fn law_timestamp_reads_back(t: UtcDateTime)
    requires
        t.wf(),
    ensures
        ({
            let text = timestamp_text(t);
            let y = text.len() - 15;
            let shown_second = if t.nanosecond >= 1_000_000_000 {
                60int
            } else {
                t.second as int
            };
            &&& y >= 4
            &&& text[y] == '-'
            &&& numeral_value(text.subrange(y + 1, y + 3)) == t.month
            &&& text[y + 3] == '-'
            &&& numeral_value(text.subrange(y + 4, y + 6)) == t.day
            &&& text[y + 6] == ' '
            &&& numeral_value(text.subrange(y + 7, y + 9)) == t.hour
            &&& text[y + 9] == ':'
            &&& numeral_value(text.subrange(y + 10, y + 12)) == t.minute
            &&& text[y + 12] == ':'
            &&& numeral_value(text.subrange(y + 13, y + 15)) == shown_second
            &&& all_digits(text.subrange(y + 1, y + 3)) && all_digits(text.subrange(y + 4, y + 6))
            &&& all_digits(text.subrange(y + 7, y + 9)) && all_digits(
                text.subrange(y + 10, y + 12),
            ) && all_digits(text.subrange(y + 13, y + 15))
            &&& 0 <= t.year <= 9999 ==> y == 4 && all_digits(text.take(4)) && numeral_value(
                text.take(4),
            ) == t.year
            &&& t.year < 0 ==> y >= 5 && text[0] == '-' && all_digits(text.subrange(1, y))
                && numeral_value(text.subrange(1, y)) == -t.year
            &&& t.year > 9999 ==> y >= 5 && text[0] == '+' && all_digits(text.subrange(1, y))
                && numeral_value(text.subrange(1, y)) == t.year
        }),
{
    let text = timestamp_text(t);
    let y = text.len() - 15;
    let second = (t.second + t.nanosecond / 1_000_000_000) as nat;
    let abs_year = (if t.year < 0 { -t.year } else { t.year as int }) as nat;
    lemma_padded_len(t.month as nat, 2);
    lemma_padded_len(t.day as nat, 2);
    lemma_padded_len(t.hour as nat, 2);
    lemma_padded_len(t.minute as nat, 2);
    lemma_padded_len(second, 2);
    law_padded_reads_back(t.month as nat, 2);
    law_padded_reads_back(t.day as nat, 2);
    law_padded_reads_back(t.hour as nat, 2);
    law_padded_reads_back(t.minute as nat, 2);
    law_padded_reads_back(second, 2);
    law_padded_reads_back(abs_year, 4);
    if 0 <= t.year <= 9999 {
        lemma_padded_len(t.year as nat, 4);
        assert(text.take(4) =~= padded(abs_year, 4));
    } else {
        assert(text.subrange(1, y) =~= padded(abs_year, 4));
    }
    assert(y == year_text(t.year as int).len());
    assert(text.subrange(y + 1, y + 3) =~= padded(t.month as nat, 2));
    assert(text.subrange(y + 4, y + 6) =~= padded(t.day as nat, 2));
    assert(text.subrange(y + 7, y + 9) =~= padded(t.hour as nat, 2));
    assert(text.subrange(y + 10, y + 12) =~= padded(t.minute as nat, 2));
    assert(text.subrange(y + 13, y + 15) =~= padded(second, 2));
}

/// The server dates its notes in whole milliseconds of the years 0 to 9999.
pub proof fn law_server_times(t: UtcDateTime, millisecond: int)
    requires
        t.wf(),
        0 <= t.year <= 9999,
        0 <= millisecond < 1000,
        t.nanosecond == millisecond * 1_000_000,
    ensures
        is_server_time(t),
{
}

/// A date in the form of the server is the shown date, but for the `T` before the time of
/// day and the milliseconds and the `Z` behind it.
pub proof fn law_server_date_resembles_shown_date(t: UtcDateTime)
    requires
        is_server_time(t),
    ensures
        ({
            let date = server_time_text(t);
            let shown = timestamp_text(t);
            &&& date.len() == 24
            &&& shown.len() == 19
            &&& date.take(10) == shown.take(10)
            &&& date[10] == 'T'
            &&& date.subrange(11, 19) == shown.subrange(11, 19)
            &&& date[19] == '.'
            &&& all_digits(date.subrange(20, 23))
            &&& numeral_value(date.subrange(20, 23)) == t.nanosecond / 1_000_000
            &&& date[23] == 'Z'
        }),
{
    let date = server_time_text(t);
    let shown = timestamp_text(t);
    let millisecond = (t.nanosecond / 1_000_000) as nat;
    law_timestamp_shape(t);
    lemma_padded_len(t.year as nat, 4);
    lemma_padded_len(t.month as nat, 2);
    lemma_padded_len(t.day as nat, 2);
    lemma_padded_len(t.hour as nat, 2);
    lemma_padded_len(t.minute as nat, 2);
    lemma_padded_len(t.second as nat, 2);
    lemma_padded_len(millisecond, 3);
    law_padded_reads_back(millisecond, 3);
    assert(date.take(10) =~= shown.take(10));
    assert(date.subrange(11, 19) =~= shown.subrange(11, 19));
    assert(date.subrange(20, 23) =~= padded(millisecond, 3));
}

/// What `read_clock` gives is an existing time, and comes from the clock.
pub(crate) proof fn law_clock_is_read(r: UtcDateTime)
    requires
        call_ensures(read_clock, (), r),
    ensures
        r.wf(),
        call_ensures(utc_now, (), r),
{
}

} // verus!
