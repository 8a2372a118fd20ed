//! Dates and times of the civil calendar, anchored to a fixed offset.

use chrono::Datelike;
use chrono::Timelike;
use crate::common::decimal_digits;
use crate::common::decimal_text;
use crate::text::all_digits;
use crate::text::decimal_value;
use crate::text::is_digit;
use crate::text::chars_of;
use crate::text::is_digit_char;
use vstd::prelude::*;
use vstd::string::StringExecFns;

verus! {

/// Seconds that Hong Kong Time is ahead of UTC.
pub const HKT_OFFSET: i32 = 28800;

/// The offset of Hong Kong Time from UTC, in seconds.
pub fn hkt() -> (r: i32)
    ensures
        r == HKT_OFFSET,
{
    HKT_OFFSET
}

/// A date of the civil calendar.
#[derive(Clone, Copy, Debug, PartialEq, Eq, Structural)]
pub struct Date {
    pub year: i32,
    pub month: u32,
    pub day: u32,
}

/// A date and a time of day, as a clock shows them.
#[derive(Clone, Copy, Debug, PartialEq, Eq, Structural)]
pub struct Civil {
    pub year: i32,
    pub month: u32,
    pub day: u32,
    pub hour: u32,
    pub minute: u32,
    pub second: u32,
}

/// A date and a time as a clock shows them at `offset` seconds east of UTC.
#[derive(Clone, Copy, Debug, PartialEq, Eq, Structural)]
pub struct TimePoint {
    pub year: i32,
    pub month: u32,
    pub day: u32,
    pub hour: u32,
    pub minute: u32,
    pub second: u32,
    pub nanosecond: u32,
    pub offset: i32,
}

/// Whether a year of the proleptic Gregorian calendar has a 29 February.
pub open spec fn is_leap_year(year: int) -> bool {
    year % 4 == 0 && (year % 100 != 0 || year % 400 == 0)
}

/// The number of days of a month of a year.
pub open spec fn days_in_month(year: int, month: int) -> int {
    if month == 2 {
        if is_leap_year(year) {
            29
        } else {
            28
        }
    } else if month == 4 || month == 6 || month == 9 || month == 11 {
        30
    } else {
        31
    }
}

/// Whether the calendar has the day `day` of the month `month` of a year.
pub open spec fn is_calendar_day(year: int, month: int, day: int) -> bool {
    1 <= month <= 12 && 1 <= day <= days_in_month(year, month)
}

impl Date {
    /// The calendar has the date.
    pub open spec fn wf(self) -> bool {
        is_calendar_day(self.year as int, self.month as int, self.day as int)
    }

    /// Tells whether the calendar has the date.
    pub fn is_valid(&self) -> (r: bool)
        ensures
            r == self.wf(),
    {
        let year: i64 = self.year as i64 + 4_000_000_000;
        assert(is_leap_year(self.year as int) == is_leap_year(year as int));
        let leap: bool = year % 4 == 0 && (year % 100 != 0 || year % 400 == 0);
        let days: u32 = if self.month == 2 {
            if leap {
                29
            } else {
                28
            }
        } else if self.month == 4 || self.month == 6 || self.month == 9 || self.month == 11 {
            30
        } else {
            31
        };
        1 <= self.month && self.month <= 12 && 1 <= self.day && self.day <= days
    }
}

impl Civil {
    /// The calendar has the date, and the time is in the range of the clock.
    pub open spec fn wf(self) -> bool {
        is_calendar_day(self.year as int, self.month as int, self.day as int) && self.hour < 24
            && self.minute < 60 && self.second < 60
    }
}

impl TimePoint {
    /// The calendar has the date, the time is in the range of the clock,
    /// and the offset is less than a day.
    pub open spec fn wf(self) -> bool {
        is_calendar_day(self.year as int, self.month as int, self.day as int) && self.hour < 24
            && self.minute < 60 && self.second < 60 && self.nanosecond < 2_000_000_000 && -86400
            < self.offset < 86400
    }

    /// The clock reading `c` in Hong Kong Time.
    pub open spec fn in_hong_kong(c: Civil) -> TimePoint {
        TimePoint {
            year: c.year,
            month: c.month,
            day: c.day,
            hour: c.hour,
            minute: c.minute,
            second: c.second,
            nanosecond: 0,
            offset: HKT_OFFSET,
        }
    }

    /// The start of the day `d` in Hong Kong Time.
    pub open spec fn start_of_day(d: Date) -> TimePoint {
        TimePoint {
            year: d.year,
            month: d.month,
            day: d.day,
            hour: 0,
            minute: 0,
            second: 0,
            nanosecond: 0,
            offset: HKT_OFFSET,
        }
    }
}

/// The number that the digits of a text from `from` up to `to` denote.
pub open spec fn group(s: Seq<char>, from: int, to: int) -> nat {
    decimal_value(s.subrange(from, to))
}

/// The date that eight digits denote: four of the year, two of the month,
/// two of the day; nothing where the calendar has no such day.
pub open spec fn digits_date(s: Seq<char>) -> Option<Date> {
    let year = group(s, 0, 4);
    let month = group(s, 4, 6);
    let day = group(s, 6, 8);
    if is_calendar_day(year as int, month as int, day as int) {
        Some(Date { year: year as i32, month: month as u32, day: day as u32 })
    } else {
        None
    }
}

/// The clock reading that twelve digits denote: eight of the date, two of
/// the hour, two of the minute, at the second 0; nothing where the calendar
/// has no such day or the clock no such time.
pub open spec fn digits_clock(s: Seq<char>) -> Option<Civil> {
    let hour = group(s, 8, 10);
    let minute = group(s, 10, 12);
    match digits_date(s) {
        Some(d) => if hour < 24 && minute < 60 {
            Some(
                Civil {
                    year: d.year,
                    month: d.month,
                    day: d.day,
                    hour: hour as u32,
                    minute: minute as u32,
                    second: 0,
                },
            )
        } else {
            None
        },
        None => None,
    }
}

/// The time that a text denotes as an RFC 3339 date-and-time.
pub uninterp spec fn rfc3339_time(text: Seq<char>) -> Option<TimePoint>;

/// Calls `chrono::NaiveDate::parse_from_str` on eight digits with the
/// format `%Y%m%d` and reads year, month and day off the date. The parser
/// takes four digits for the year and two each for month and day, and
/// succeeds exactly where the proleptic Gregorian calendar has the day.
#[verifier::external_body]
fn parse_date(s: &str, format: &str) -> (r: Option<Date>)
    requires
        s@.len() == 8,
        all_digits(s@),
        format@ == "%Y%m%d"@,
    ensures
        r == digits_date(s@),
{
    match chrono::NaiveDate::parse_from_str(s, format) {
        Ok(d) => Some(Date { year: d.year(), month: d.month(), day: d.day() }),
        Err(_) => None,
    }
}


/// Calls `chrono::NaiveDateTime::parse_from_str` on twelve digits with the
/// format `%Y%m%d%H%M` and reads the fields off the result. The parser takes
/// four digits for the year and two for each other field, takes the second
/// that the text does not give as 0, and succeeds exactly where the calendar
/// has the day, the hour is below 24 and the minute below 60.
#[verifier::external_body]
fn parse_clock(s: &str, format: &str) -> (r: Option<Civil>)
    requires
        s@.len() == 12,
        all_digits(s@),
        format@ == "%Y%m%d%H%M"@,
    ensures
        r == digits_clock(s@),
{
    match chrono::NaiveDateTime::parse_from_str(s, format) {
        Ok(t) => Some(
            Civil {
                year: t.year(),
                month: t.month(),
                day: t.day(),
                hour: t.hour(),
                minute: t.minute(),
                second: t.second(),
            },
        ),
        Err(_) => None,
    }
}

/// Calls `chrono::DateTime::parse_from_rfc3339` and reads off the result the
/// fields of its local clock reading and, with `local_minus_utc`, its offset.
/// The date is one of the calendar and each other field is in its range; a
/// leap second shows in the nanoseconds.
#[verifier::external_body]
fn parse_rfc3339(s: &str) -> (r: Option<TimePoint>)
    ensures
        r == rfc3339_time(s@),
        r is Some ==> r->Some_0.wf(),
{
    match chrono::DateTime::parse_from_rfc3339(s) {
        Ok(t) => Some(
            TimePoint {
                year: t.year(),
                month: t.month(),
                day: t.day(),
                hour: t.hour(),
                minute: t.minute(),
                second: t.second(),
                nanosecond: t.nanosecond(),
                offset: t.offset().local_minus_utc(),
            },
        ),
        Err(_) => None,
    }
}

/// Whether a text is made of digits alone.
pub fn only_digits(s: &str) -> (r: bool)
    ensures
        r == all_digits(s@),
{
    let v: Vec<char> = chars_of(s);
    let mut i: usize = 0;
    while i < v.len()
        invariant
            v@ == s@,
            i <= v.len(),
            forall|k: int| 0 <= k < i ==> crate::text::is_digit(#[trigger] s@[k]),
        decreases v.len() - i,
    {
        if !is_digit_char(v[i]) {
            return false;
        }
        i = i + 1;
    }
    true
}

/// The date that a text `YYYYMMDD` denotes: nothing unless the text is
/// eight digits of a day that the calendar has.
pub open spec fn date_of(s: Seq<char>) -> Option<Date> {
    if s.len() == 8 && all_digits(s) {
        digits_date(s)
    } else {
        None
    }
}

/// The time in Hong Kong that a text `YYYYMMDDHHMM` denotes: nothing unless
/// the text is twelve digits of a day that the calendar has and of a time
/// that the clock has.
pub open spec fn minute_of(s: Seq<char>) -> Option<TimePoint> {
    if s.len() == 12 && all_digits(s) {
        match digits_clock(s) {
            Some(c) => Some(TimePoint::in_hong_kong(c)),
            None => None,
        }
    } else {
        None
    }
}

/// The time in Hong Kong that a local-clock text denotes: the start of the
/// day for `YYYYMMDD`, the minute for `YYYYMMDDHHMM`, nothing for any other
/// text.
pub open spec fn local_time_of(s: Seq<char>) -> Option<TimePoint> {
    if s.len() == 8 {
        match date_of(s) {
            Some(d) => Some(TimePoint::start_of_day(d)),
            None => None,
        }
    } else {
        minute_of(s)
    }
}

/// Ten to the power `n`.
pub open spec fn ten_to(n: nat) -> nat
    decreases n,
{
    if n == 0 {
        1
    } else {
        10 * ten_to((n - 1) as nat)
    }
}

/// A run of `n` digits denotes a number below ten to the power `n`.
pub proof fn lemma_digits_bound(s: Seq<char>)
    requires
        all_digits(s),
    ensures
        decimal_value(s) < ten_to(s.len()),
    decreases s.len(),
{
    if s.len() > 0 {
        let head = s.drop_last();
        assert forall|i: int| 0 <= i < head.len() implies is_digit(#[trigger] head[i]) by {
            assert(head[i] == s[i]);
        }
        lemma_digits_bound(head);
        assert(is_digit(s[s.len() - 1]));
    }
}

/// The year of a date of eight digits is below 10000, so that the date is
/// one that the calendar has.
pub proof fn lemma_digits_date_wf(s: Seq<char>)
    requires
        s.len() >= 8,
        all_digits(s),
    ensures
        digits_date(s) is Some ==> digits_date(s)->Some_0.wf(),
        digits_clock(s) is Some ==> digits_clock(s)->Some_0.wf(),
{
    let year = s.subrange(0, 4);
    assert forall|i: int| 0 <= i < year.len() implies is_digit(#[trigger] year[i]) by {
        assert(year[i] == s[i]);
    }
    lemma_digits_bound(year);
    assert(ten_to(4) == 10000) by {
        reveal_with_fuel(ten_to, 5);
    }
}

/// Decodes a date written as `YYYYMMDD`.
pub fn decode_date(s: &str) -> (r: Option<Date>)
    ensures
        r == date_of(s@),
        r is Some ==> r->Some_0.wf(),
{
    if s.unicode_len() == 8 && only_digits(s) {
        proof {
            lemma_digits_date_wf(s@);
        }
        parse_date(s, "%Y%m%d")
    } else {
        None
    }
}

/// Decodes a minute written as `YYYYMMDDHHMM` on the clock of Hong Kong.
pub fn decode_minute(s: &str) -> (r: Option<TimePoint>)
    ensures
        r == minute_of(s@),
        r is Some ==> r->Some_0.wf(),
{
    if s.unicode_len() == 12 && only_digits(s) {
        proof {
            lemma_digits_date_wf(s@);
        }
        match parse_clock(s, "%Y%m%d%H%M") {
            Some(c) => Some(
                TimePoint {
                    year: c.year,
                    month: c.month,
                    day: c.day,
                    hour: c.hour,
                    minute: c.minute,
                    second: c.second,
                    nanosecond: 0,
                    offset: HKT_OFFSET,
                },
            ),
            None => None,
        }
    } else {
        None
    }
}

/// Decodes a local-clock text, `YYYYMMDD` or `YYYYMMDDHHMM`, as a time in
/// Hong Kong.
pub fn decode_local_time(s: &str) -> (r: Option<TimePoint>)
    ensures
        r == local_time_of(s@),
        r is Some ==> r->Some_0.wf(),
{
    if s.unicode_len() == 8 {
        match decode_date(s) {
            Some(d) => Some(
                TimePoint {
                    year: d.year,
                    month: d.month,
                    day: d.day,
                    hour: 0,
                    minute: 0,
                    second: 0,
                    nanosecond: 0,
                    offset: HKT_OFFSET,
                },
            ),
            None => None,
        }
    } else {
        decode_minute(s)
    }
}

/// Decodes an RFC 3339 date-and-time.
pub fn decode_rfc3339(s: &str) -> (r: Option<TimePoint>)
    ensures
        r == rfc3339_time(s@),
        r is Some ==> r->Some_0.wf(),
{
    parse_rfc3339(s)
}


/// A number in decimal digits, with zeros before it up to `width` digits.
pub open spec fn padded_digits(n: nat, width: nat) -> Seq<char> {
    let d = decimal_digits(n);
    if d.len() >= width {
        d
    } else {
        Seq::new((width - d.len()) as nat, |i: int| '0') + d
    }
}

/// Writes a number in at least `width` decimal digits.
pub fn padded_text(n: u32, width: usize) -> (r: String)
    ensures
        r@ == padded_digits(n as nat, width as nat),
{
    let digits: String = decimal_text(n);
    let len: usize = digits.as_str().unicode_len();
    let mut s: String = String::new();
    let mut k: usize = len;
    proof {
        reveal_strlit("0");
    }
    while k < width
        invariant
            len <= k,
            k <= width || k == len,
            len == digits@.len(),
            "0"@.len() == 1 && "0"@[0] == '0',
            s@ == Seq::new((k - len) as nat, |i: int| '0'),
        decreases width - k,
    {
        let ghost before = s@;
        s.append("0");
        k = k + 1;
        assert(s@ =~= Seq::new((k - len) as nat, |i: int| '0'));
    }
    s.append(digits.as_str());
    assert(s@ =~= padded_digits(n as nat, width as nat));
    s
}

/// The year as a calendar writes it: four digits or more, with a sign
/// before a year that is negative or has more than four digits.
pub open spec fn year_text(year: i32) -> Seq<char> {
    if 0 <= year <= 9999 {
        padded_digits(year as nat, 4)
    } else if year < 0 {
        seq!['-'] + padded_digits((-year) as nat, 4)
    } else {
        seq!['+'] + padded_digits(year as nat, 4)
    }
}

/// Writes the year of a date.
pub fn year_string(year: i32) -> (r: String)
    ensures
        r@ == year_text(year),
{
    proof {
        reveal_strlit("-");
        reveal_strlit("+");
        assert("-"@ =~= seq!['-']);
        assert("+"@ =~= seq!['+']);
    }
    if 0 <= year && year <= 9999 {
        padded_text(year as u32, 4)
    } else if year < 0 {
        let magnitude: u32 = if year == -2147483648 {
            2147483648
        } else {
            (-year) as u32
        };
        let digits: String = padded_text(magnitude, 4);
        String::from_str("-").concat(digits.as_str())
    } else {
        let digits: String = padded_text(year as u32, 4);
        String::from_str("+").concat(digits.as_str())
    }
}

/// A date written as `YYYYMMDD`.
pub open spec fn compact_date_text(d: Date) -> Seq<char> {
    year_text(d.year) + padded_digits(d.month as nat, 2) + padded_digits(d.day as nat, 2)
}

/// A date written as `YYYY-MM-DD`.
pub open spec fn dashed_date_text(d: Date) -> Seq<char> {
    year_text(d.year) + "-"@ + padded_digits(d.month as nat, 2) + "-"@ + padded_digits(
        d.day as nat,
        2,
    )
}

/// Writes a date as `YYYYMMDD`.
pub fn compact_date(d: Date) -> (r: String)
    ensures
        r@ == compact_date_text(d),
{
    let mut s: String = year_string(d.year);
    let month: String = padded_text(d.month, 2);
    let day: String = padded_text(d.day, 2);
    s.append(month.as_str());
    s.append(day.as_str());
    s
}

/// Writes a date as `YYYY-MM-DD`.
pub fn dashed_date(d: Date) -> (r: String)
    ensures
        r@ == dashed_date_text(d),
{
    let mut s: String = year_string(d.year);
    let month: String = padded_text(d.month, 2);
    let day: String = padded_text(d.day, 2);
    s.append("-");
    s.append(month.as_str());
    s.append("-");
    s.append(day.as_str());
    s
}

} // verus!
