//! Calendar dates as plain year, month and day, with the weekday and the
//! text parser taken from chrono.

use chrono::{Datelike, Timelike};
use vstd::prelude::*;
use vstd::string::StringExecFns;

use crate::text::{
    decimal, decimal_string, four_digit_string, four_digits, two_digit_string, two_digits,
};

verus! {

/// The earliest year that chrono's `NaiveDate` holds.
pub const MIN_YEAR: i32 = -262143;

/// The latest year that chrono's `NaiveDate` holds.
pub const MAX_YEAR: i32 = 262142;

/// The format in which attendance exports write their dates.
pub const DATE_FORMAT: &'static str = "%Y-%m-%d";

/// A day of the week.
#[derive(Clone, Copy, Debug, PartialEq, Eq, Structural)]
pub enum Weekday {
    Mon,
    Tue,
    Wed,
    Thu,
    Fri,
    Sat,
    Sun,
}

/// A date of the proleptic Gregorian calendar. Every value is a day that
/// exists, in a year between `MIN_YEAR` and `MAX_YEAR`.
#[derive(Clone, Copy, Debug, PartialEq, Eq, Structural)]
pub struct Date {
    year: i32,
    month: u32,
    day: u32,
}

/// The rule of the Gregorian calendar for leap years.
pub open spec fn is_leap_year(year: int) -> bool {
    year % 4 == 0 && (year % 100 != 0 || year % 400 == 0)
}

/// The number of days of a month.
pub open spec fn days_in_month(year: int, month: int) -> int {
    if month == 2 {
        if is_leap_year(year) {
            29
        } else {
            28
        }
    } else if month == 4 || month == 6 || month == 9 || month == 11 {
        30
    } else {
        31
    }
}

/// The day `day` of month `month` exists in `year`, and chrono can hold it.
pub open spec fn is_calendar_date(year: int, month: int, day: int) -> bool {
    &&& MIN_YEAR <= year <= MAX_YEAR
    &&& 1 <= month <= 12
    &&& 1 <= day <= days_in_month(year, month)
}

/// Chronological order, strict.
pub open spec fn date_lt(a: Date, b: Date) -> bool {
    ||| a.spec_year() < b.spec_year()
    ||| a.spec_year() == b.spec_year() && a.spec_month() < b.spec_month()
    ||| a.spec_year() == b.spec_year() && a.spec_month() == b.spec_month() && a.spec_day()
        < b.spec_day()
}

/// A sequence of dates in which each one is earlier than the next.
pub open spec fn strictly_ascending(dates: Seq<Date>) -> bool {
    forall|i: int, j: int| 0 <= i < j < dates.len() ==> date_lt(dates[i], dates[j])
}

/// What `chrono::NaiveDate::parse_from_str` makes of `text` under `format`:
/// the date it reads, or `None` where it reports an error.
pub uninterp spec fn parsed_date(text: Seq<char>, format: Seq<char>) -> Option<Date>;

/// The day of the week on which chrono places the given day.
pub uninterp spec fn weekday_on(year: int, month: int, day: int) -> Weekday;

fn leap_year(year: i32) -> (r: bool)
    requires
        MIN_YEAR <= year <= MAX_YEAR,
    ensures
        r == is_leap_year(year as int),
{
    let shifted: i64 = year as i64 + 400000;
    shifted % 4 == 0 && (shifted % 100 != 0 || shifted % 400 == 0)
}

fn month_length(year: i32, month: u32) -> (r: u32)
    requires
        MIN_YEAR <= year <= MAX_YEAR,
    ensures
        r == days_in_month(year as int, month as int),
{
    if month == 2 {
        if leap_year(year) {
            29
        } else {
            28
        }
    } else if month == 4 || month == 6 || month == 9 || month == 11 {
        30
    } else {
        31
    }
}

impl Date {
    /// The year of the date.
    pub closed spec fn spec_year(&self) -> i32 {
        self.year
    }

    /// The month of the date, from 1.
    pub closed spec fn spec_month(&self) -> u32 {
        self.month
    }

    /// The day of the month, from 1.
    pub closed spec fn spec_day(&self) -> u32 {
        self.day
    }

    /// What holds of every date: the day exists, in a year that chrono can
    /// hold.
    #[verifier::type_invariant]
    pub open spec fn well_formed(self) -> bool {
        is_calendar_date(self.spec_year() as int, self.spec_month() as int, self.spec_day() as int)
    }

    /// The date with the given year, month and day, where that day exists.
    pub fn from_ymd(year: i32, month: u32, day: u32) -> (r: Option<Date>)
        ensures
            r is Some <==> is_calendar_date(year as int, month as int, day as int),
            r matches Some(d) ==> d.spec_year() == year && d.spec_month() == month && d.spec_day()
                == day,
    {
        if year < MIN_YEAR || year > MAX_YEAR || month < 1 || month > 12 || day < 1 {
            return None;
        }
        if day > month_length(year, month) {
            return None;
        }
        Some(Date { year, month, day })
    }

    /// The year of the date.
    #[verifier::when_used_as_spec(spec_year)]
    pub fn year(&self) -> (r: i32)
        ensures
            r == self.spec_year(),
    {
        self.year
    }

    /// The month of the date, from 1.
    #[verifier::when_used_as_spec(spec_month)]
    pub fn month(&self) -> (r: u32)
        ensures
            r == self.spec_month(),
    {
        self.month
    }

    /// The day of the month, from 1.
    #[verifier::when_used_as_spec(spec_day)]
    pub fn day(&self) -> (r: u32)
        ensures
            r == self.spec_day(),
    {
        self.day
    }

    /// Whether this date is earlier than `other`.
    pub fn is_before(&self, other: &Date) -> (r: bool)
        ensures
            r == date_lt(*self, *other),
    {
        self.year < other.year || (self.year == other.year && (self.month < other.month || (
        self.month == other.month && self.day < other.day)))
    }

    /// Of two different dates one is earlier than the other.
    pub proof fn lemma_order_total(a: Date, b: Date)
        ensures
            a == b || date_lt(a, b) || date_lt(b, a),
            !(date_lt(a, b) && date_lt(b, a)),
            !date_lt(a, a),
    {
    }
}

/// A minute of a day of the calendar.
#[derive(Clone, Copy, Debug, PartialEq, Eq, Structural)]
pub struct DateTime {
    date: Date,
    hour: u32,
    minute: u32,
}

/// What `chrono::NaiveDateTime::parse_from_str` makes of `text` under
/// `format`, to the minute: the day and minute it reads, or `None` where it
/// reports an error.
pub uninterp spec fn parsed_datetime(text: Seq<char>, format: Seq<char>) -> Option<DateTime>;

impl DateTime {
    /// The day.
    pub closed spec fn spec_date(&self) -> Date {
        self.date
    }

    /// The hour of the day, from 0.
    pub closed spec fn spec_hour(&self) -> u32 {
        self.hour
    }

    /// The minute of the hour, from 0.
    pub closed spec fn spec_minute(&self) -> u32 {
        self.minute
    }

    /// What holds of every value: the day exists, the hour is at most 23
    /// and the minute at most 59.
    #[verifier::type_invariant]
    pub open spec fn well_formed(self) -> bool {
        &&& self.spec_date().well_formed()
        &&& self.spec_hour() <= 23
        &&& self.spec_minute() <= 59
    }

    /// The given minute of the given day, where the day has it.
    pub fn new(date: Date, hour: u32, minute: u32) -> (r: Option<DateTime>)
        ensures
            r is Some <==> hour <= 23 && minute <= 59,
            r matches Some(t) ==> t.spec_date() == date && t.spec_hour() == hour && t.spec_minute()
                == minute,
    {
        proof {
            use_type_invariant(&date);
        }
        if hour <= 23 && minute <= 59 {
            Some(DateTime { date, hour, minute })
        } else {
            None
        }
    }

    /// The day.
    #[verifier::when_used_as_spec(spec_date)]
    pub fn date(&self) -> (r: Date)
        ensures
            r == self.spec_date(),
    {
        self.date
    }

    /// The hour of the day, from 0.
    #[verifier::when_used_as_spec(spec_hour)]
    pub fn hour(&self) -> (r: u32)
        ensures
            r == self.spec_hour(),
    {
        self.hour
    }

    /// The minute of the hour, from 0.
    #[verifier::when_used_as_spec(spec_minute)]
    pub fn minute(&self) -> (r: u32)
        ensures
            r == self.spec_minute(),
    {
        self.minute
    }
}

/// A year as chrono writes it for `%Y`: four digits from 0 to 9999; else a
/// sign, then at least four digits.
pub open spec fn year_text(year: int) -> Seq<char> {
    if 0 <= year <= 9999 {
        four_digits(year)
    } else if year < 0 {
        seq!['-'] + at_least_four_digits(-year)
    } else {
        seq!['+'] + at_least_four_digits(year)
    }
}

/// The decimal numeral of `n`, filled with zeros to four digits.
pub open spec fn at_least_four_digits(n: int) -> Seq<char> {
    if n <= 9999 {
        four_digits(n)
    } else {
        decimal(n as nat)
    }
}

/// A minute as chrono writes it for `%Y-%m-%d %H:%M`: year, month and day
/// with hyphens between, a space, hour and minute with a colon between;
/// month, day, hour and minute with two digits each.
pub open spec fn minute_text(t: DateTime) -> Seq<char> {
    year_text(t.spec_date().spec_year() as int) + seq!['-'] + two_digits(
        t.spec_date().spec_month() as int,
    ) + seq!['-'] + two_digits(t.spec_date().spec_day() as int) + seq![' '] + two_digits(
        t.spec_hour() as int,
    ) + seq![':'] + two_digits(t.spec_minute() as int)
}

fn at_least_four_digit_string(n: u64) -> (r: String)
    ensures
        r@ == at_least_four_digits(n as int),
{
    if n <= 9999 {
        four_digit_string(n)
    } else {
        decimal_string(n)
    }
}

fn year_string(year: i32) -> (r: String)
    ensures
        r@ == year_text(year as int),
{
    if 0 <= year && year <= 9999 {
        four_digit_string(year as u64)
    } else if year < 0 {
        proof {
            reveal_strlit("-");
        }
        let mut r = "-".to_owned();
        let digits = at_least_four_digit_string((-(year as i64)) as u64);
        r.append(digits.as_str());
        r
    } else {
        proof {
            reveal_strlit("+");
        }
        let mut r = "+".to_owned();
        let digits = at_least_four_digit_string(year as u64);
        r.append(digits.as_str());
        r
    }
}

/// Writes a minute as year, month, day, hour and minute.
pub fn minute_string(t: &DateTime) -> (r: String)
    ensures
        r@ == minute_text(*t),
{
    proof {
        use_type_invariant(t);
        reveal_strlit("-");
        reveal_strlit(" ");
        reveal_strlit(":");
    }
    let date = t.date();
    proof {
        use_type_invariant(&date);
    }
    let mut r = year_string(date.year());
    r.append("-");
    let month = two_digit_string(date.month() as u64);
    r.append(month.as_str());
    r.append("-");
    let day = two_digit_string(date.day() as u64);
    r.append(day.as_str());
    r.append(" ");
    let hour = two_digit_string(t.hour() as u64);
    r.append(hour.as_str());
    r.append(":");
    let minute = two_digit_string(t.minute() as u64);
    r.append(minute.as_str());
    r
}

/// Taken on trust from chrono: `NaiveDateTime::parse_from_str` reads a day
/// and a time of day, of which year, month, day, hour and minute are kept.
/// What it reads depends on text and format alone and is left to chrono.
/// Claimed beyond that: the day exists, in a year between `MIN_YEAR` and
/// `MAX_YEAR`, the hour is at most 23 and the minute at most 59.
#[verifier::external_body]
fn parse_datetime_with_format(s: &str, format: &str) -> (r: Option<DateTime>)
    ensures
        r == parsed_datetime(s@, format@),
        r matches Some(t) ==> t.well_formed(),
{
    match chrono::NaiveDateTime::parse_from_str(s, format) {
        Ok(t) => Some(
            DateTime {
                date: Date { year: t.year(), month: t.month(), day: t.day() },
                hour: t.hour(),
                minute: t.minute(),
            },
        ),
        Err(_) => None,
    }
}

/// The day and minute written in `s` in the given format, as chrono reads
/// them.
pub fn parse_minute(s: &str, format: &str) -> (r: Option<DateTime>)
    ensures
        r == parsed_datetime(s@, format@),
{
    parse_datetime_with_format(s, format)
}

/// Taken on trust from chrono: `NaiveDate::parse_from_str` reads a date, of
/// which year, month and day are kept. What it reads depends on text and
/// format alone and is left to chrono. Claimed beyond that: the day exists,
/// in a year between `MIN_YEAR` and `MAX_YEAR`.
#[verifier::external_body]
fn parse_with_format(s: &str, format: &str) -> (r: Option<Date>)
    ensures
        r == parsed_date(s@, format@),
        r matches Some(d) ==> d.well_formed(),
{
    match chrono::NaiveDate::parse_from_str(s, format) {
        Ok(d) => Some(Date { year: d.year(), month: d.month(), day: d.day() }),
        Err(_) => None,
    }
}

/// Taken on trust from chrono: `NaiveDate::from_ymd_opt` accepts every day
/// that exists in a year between `MIN_YEAR` and `MAX_YEAR`, and
/// `Datelike::weekday` of the date it makes depends on year, month and day
/// alone. Which weekday that is, is left to chrono.
#[verifier::external_body]
fn weekday_from_chrono(date: &Date) -> (r: Weekday)
    requires
        date.well_formed(),
    ensures
        r == weekday_on(date.spec_year() as int, date.spec_month() as int, date.spec_day() as int),
{
    match chrono::NaiveDate::from_ymd_opt(date.year, date.month, date.day).unwrap().weekday() {
        chrono::Weekday::Mon => Weekday::Mon,
        chrono::Weekday::Tue => Weekday::Tue,
        chrono::Weekday::Wed => Weekday::Wed,
        chrono::Weekday::Thu => Weekday::Thu,
        chrono::Weekday::Fri => Weekday::Fri,
        chrono::Weekday::Sat => Weekday::Sat,
        chrono::Weekday::Sun => Weekday::Sun,
    }
}

/// The date written in `s` as year, month and day, as chrono reads it.
pub fn parse_date(s: &str) -> (r: Option<Date>)
    ensures
        r == parsed_date(s@, DATE_FORMAT@),
{
    parse_with_format(s, DATE_FORMAT)
}

/// The weekday of `date`.
pub fn weekday_of(date: &Date) -> (r: Weekday)
    ensures
        r == weekday_on(date.spec_year() as int, date.spec_month() as int, date.spec_day() as int),
{
    proof {
        use_type_invariant(date);
    }
    weekday_from_chrono(date)
}

/// The name under which a weekday stands in a report.
pub open spec fn weekday_label(w: Weekday) -> Seq<char> {
    match w {
        Weekday::Mon => "星期一"@,
        Weekday::Tue => "星期二"@,
        Weekday::Wed => "星期三"@,
        Weekday::Thu => "星期四"@,
        Weekday::Fri => "星期五"@,
        Weekday::Sat => "星期六"@,
        Weekday::Sun => "星期日"@,
    }
}

/// The name under which a weekday stands in a report.
pub fn weekday_name(w: Weekday) -> (r: &'static str)
    ensures
        r@ == weekday_label(w),
{
    match w {
        Weekday::Mon => "星期一",
        Weekday::Tue => "星期二",
        Weekday::Wed => "星期三",
        Weekday::Thu => "星期四",
        Weekday::Fri => "星期五",
        Weekday::Sat => "星期六",
        Weekday::Sun => "星期日",
    }
}

/// The weekday name of a date.
pub open spec fn weekday_text(date: Date) -> Seq<char> {
    weekday_label(weekday_on(date.spec_year() as int, date.spec_month() as int, date.spec_day() as int))
}

/// The weekday name that heads the column of `date`.
pub fn date_to_weekday(date: &Date) -> (r: &'static str)
    ensures
        r@ == weekday_text(*date),
{
    weekday_name(weekday_of(date))
}

/// The heading of a date column: month and day, without leading zeros.
pub open spec fn date_heading_text(date: Date) -> Seq<char> {
    decimal(date.spec_month() as nat) + "月"@ + decimal(date.spec_day() as nat) + "日"@
}

/// The heading of the column of `date`.
pub fn date_heading(date: &Date) -> (r: String)
    ensures
        r@ == date_heading_text(*date),
{
    let mut r = decimal_string(date.month() as u64);
    r.append("月");
    let day = decimal_string(date.day() as u64);
    r.append(day.as_str());
    r.append("日");
    r
}

} // verus!
