//! Calendar dates of the proleptic Gregorian calendar.

use crate::text::{
    all_digits, decimal_text, decimal_value, digit_char, is_digit, lemma_decimal_text_value,
    lemma_digit_char,
};
use chrono::{Datelike, NaiveDate};
use vstd::prelude::*;

verus! {

/// The earliest year a [`Date`] can hold: the earliest of a
/// `chrono::NaiveDate`.
pub const MIN_YEAR: i32 = -262143;

/// The latest year a [`Date`] can hold: the latest of a
/// `chrono::NaiveDate`.
pub const MAX_YEAR: i32 = 262142;

/// Whether `year` has a 29th of February.
pub open spec fn is_leap_year(year: int) -> bool {
    year % 4 == 0 && (year % 100 != 0 || year % 400 == 0)
}

/// The number of days of `month` in `year`, and 0 where `month` is none of
/// the twelve.
pub open spec fn days_in_month(year: int, month: int) -> int {
    if month == 2 {
        if is_leap_year(year) {
            29
        } else {
            28
        }
    } else if month == 4 || month == 6 || month == 9 || month == 11 {
        30
    } else if 1 <= month <= 12 {
        31
    } else {
        0
    }
}

/// Whether the day `day` of the month `month` of the year `year` exists and
/// lies in the years that a [`Date`] can hold.
pub open spec fn is_calendar_date(year: int, month: int, day: int) -> bool {
    &&& MIN_YEAR <= year <= MAX_YEAR
    &&& 1 <= month <= 12
    &&& 1 <= day <= days_in_month(year, month)
}

/// A date as year, month and day: what a [`Date`] stands for.
pub ghost struct Ymd {
    pub year: int,
    pub month: int,
    pub day: int,
}

/// A day of the calendar. Every value is a day that exists.
#[derive(Clone, Copy, Debug, PartialEq, Eq, Structural)]
pub struct Date {
    year: i32,
    month: u32,
    day: u32,
}

impl View for Date {
    type V = Ymd;

    closed spec fn view(&self) -> Ymd {
        Ymd { year: self.year as int, month: self.month as int, day: self.day as int }
    }
}

/// Whether `year` has a 29th of February.
pub fn leap_year(year: i32) -> (leap: bool)
    ensures
        leap == is_leap_year(year as int),
{
    year % 4 == 0 && (year % 100 != 0 || year % 400 == 0)
}

/// The number of days of `month` in `year`, and 0 where `month` is none of
/// the twelve.
pub fn month_length(year: i32, month: u32) -> (days: u32)
    ensures
        days == days_in_month(year as int, month as int),
{
    if month == 2 {
        if leap_year(year) {
            29
        } else {
            28
        }
    } else if month == 4 || month == 6 || month == 9 || month == 11 {
        30
    } else if 1 <= month && month <= 12 {
        31
    } else {
        0
    }
}

impl Date {
    #[verifier::type_invariant]
    spec fn exists_in_calendar(self) -> bool {
        is_calendar_date(self.year as int, self.month as int, self.day as int)
    }

    /// Whether the value stands for a day that exists. It holds of every
    /// `Date` that a program can hold.
    pub open spec fn valid(self) -> bool {
        is_calendar_date(self@.year, self@.month, self@.day)
    }

    /// The date of the given year, month and day, where that day exists.
    pub fn new(year: i32, month: u32, day: u32) -> (date: Option<Date>)
        ensures
            date is Some <==> is_calendar_date(year as int, month as int, day as int),
            date matches Some(d) ==> d@ == (Ymd {
                year: year as int,
                month: month as int,
                day: day as int,
            }),
    {
        if MIN_YEAR <= year && year <= MAX_YEAR && 1 <= month && month <= 12 && 1 <= day && day
            <= month_length(year, month) {
            Some(Date { year, month, day })
        } else {
            None
        }
    }

    /// The year.
    pub fn year(&self) -> (year: i32)
        ensures
            year == self@.year,
            self.valid(),
    {
        proof {
            use_type_invariant(self);
        }
        self.year
    }

    /// The month, from 1 to 12.
    pub fn month(&self) -> (month: u32)
        ensures
            month == self@.month,
            self.valid(),
    {
        proof {
            use_type_invariant(self);
        }
        self.month
    }

    /// The day of the month, from 1.
    pub fn day(&self) -> (day: u32)
        ensures
            day == self@.day,
            self.valid(),
    {
        proof {
            use_type_invariant(self);
        }
        self.day
    }
}

/// The date that stands for the given year, month and day.
pub closed spec fn date_of(ymd: Ymd) -> Date {
    Date { year: ymd.year as i32, month: ymd.month as u32, day: ymd.day as u32 }
}

/// A date is known by what it stands for.
pub proof fn lemma_date_of_view(date: Date)
    ensures
        date_of(date@) == date,
{
}

/// The view of a date that may be missing.
pub open spec fn date_view(date: Option<Date>) -> Option<Ymd> {
    match date {
        Some(d) => Some(d@),
        None => None,
    }
}

/// The date that three numbers stand for, where there are any.
pub open spec fn ymd_of(parts: Option<(i32, u32, u32)>) -> Option<Ymd> {
    match parts {
        Some(p) => Some(Ymd { year: p.0 as int, month: p.1 as int, day: p.2 as int }),
        None => None,
    }
}

/// A number below 100 in two digits.
pub open spec fn two_digits(n: int) -> Seq<char> {
    seq![digit_char((n / 10) as nat), digit_char((n % 10) as nat)]
}

/// A number below 10000 in four digits.
pub open spec fn four_digits(n: int) -> Seq<char> {
    seq![
        digit_char((n / 1000) as nat),
        digit_char((n / 100 % 10) as nat),
        digit_char((n / 10 % 10) as nat),
        digit_char((n % 10) as nat),
    ]
}

/// A year as text: four digits from 0 to 9999; otherwise a sign and at least
/// four digits.
pub open spec fn year_text(year: int) -> Seq<char> {
    if 0 <= year <= 9999 {
        four_digits(year)
    } else if year < 0 {
        if -year <= 9999 {
            seq!['-'] + four_digits(-year)
        } else {
            seq!['-'] + decimal_text((-year) as nat)
        }
    } else {
        seq!['+'] + decimal_text(year as nat)
    }
}

/// A date as day, month and year, with a dot between them: `15.03.2024`.
pub open spec fn dmy_text(date: Ymd) -> Seq<char> {
    two_digits(date.day) + seq!['.'] + two_digits(date.month) + seq!['.'] + year_text(date.year)
}

/// A date as year, month and day, with a hyphen between them: `2024-03-15`.
pub open spec fn iso_text(date: Ymd) -> Seq<char> {
    year_text(date.year) + seq!['-'] + two_digits(date.month) + seq!['-'] + two_digits(date.day)
}

/// Whether `s` is a year in plain notation: four digits, or a sign and
/// digits.
pub open spec fn is_plain_year(s: Seq<char>) -> bool {
    ||| s.len() == 4 && all_digits(s)
    ||| s.len() >= 2 && (s[0] == '+' || s[0] == '-') && all_digits(s.subrange(1, s.len() as int))
}

/// The year that a plain notation stands for.
pub open spec fn plain_year_value(s: Seq<char>) -> int {
    if s[0] == '-' {
        -(decimal_value(s.subrange(1, s.len() as int)) as int)
    } else if s[0] == '+' {
        decimal_value(s.subrange(1, s.len() as int)) as int
    } else {
        decimal_value(s) as int
    }
}

/// Whether `s` is a date in plain notation: two digits, a dot, two digits, a
/// dot and a year in plain notation.
pub open spec fn is_plain_dmy(s: Seq<char>) -> bool {
    &&& s.len() >= 7
    &&& is_digit(s[0])
    &&& is_digit(s[1])
    &&& s[2] == '.'
    &&& is_digit(s[3])
    &&& is_digit(s[4])
    &&& s[5] == '.'
    &&& is_plain_year(s.subrange(6, s.len() as int))
}

/// The date that a plain notation stands for, where that day exists.
pub open spec fn plain_dmy_date(s: Seq<char>) -> Option<Ymd> {
    let day = decimal_value(s.subrange(0, 2)) as int;
    let month = decimal_value(s.subrange(3, 5)) as int;
    let year = plain_year_value(s.subrange(6, s.len() as int));
    if is_calendar_date(year, month, day) {
        Some(Ymd { year, month, day })
    } else {
        None
    }
}

/// What `chrono::NaiveDate::parse_from_str` makes of `text` under `format`:
/// the date, or nothing where it reports an error.
pub uninterp spec fn date_parse(text: Seq<char>, format: Seq<char>) -> Option<Ymd>;

/// The date that `text` holds under `format`. Under the format of day, month
/// and year a plain notation stands for its date; everything else is left to
/// the parser.
pub open spec fn parsed_date(text: Seq<char>, format: Seq<char>) -> Option<Ymd> {
    if format == "%d.%m.%Y"@ && is_plain_dmy(text) {
        plain_dmy_date(text)
    } else {
        date_parse(text, format)
    }
}

/// Calls `chrono::NaiveDate::parse_from_str` and hands out year, month and
/// day of the date it found. Trusted: the result is the parser's, every date
/// it returns exists, and under `%d.%m.%Y` it reads a plain notation as the
/// digits say (it takes up to two digits for day and month, four for a year
/// without a sign and all that follow a sign, and rejects what is no day of
/// the calendar).
#[verifier::external_body]
fn chrono_parse(text: &str, format: &str) -> (parts: Option<(i32, u32, u32)>)
    ensures
        ymd_of(parts) == (if format@ == "%d.%m.%Y"@ && is_plain_dmy(text@) {
            plain_dmy_date(text@)
        } else {
            date_parse(text@, format@)
        }),
        parts matches Some(p) ==> is_calendar_date(p.0 as int, p.1 as int, p.2 as int),
{
    match NaiveDate::parse_from_str(text, format) {
        Ok(date) => Some((date.year(), date.month(), date.day())),
        Err(_) => None,
    }
}

/// Makes the `chrono::NaiveDate` of the given day with `from_ymd_opt` (which
/// knows every day that exists from the year -262143 to the year 262142),
/// calls `chrono::NaiveDate::format` on it and turns the result into a
/// string. Trusted: under `%d.%m.%Y` the text is the day and the month in two
/// digits each and the year in four, or with a sign where it has more or is
/// negative.
#[verifier::external_body]
fn chrono_format(year: i32, month: u32, day: u32, format: &str) -> (text: String)
    requires
        is_calendar_date(year as int, month as int, day as int),
        format@ == "%d.%m.%Y"@,
    ensures
        text@ == dmy_text(Ymd { year: year as int, month: month as int, day: day as int }),
{
    NaiveDate::from_ymd_opt(year, month, day).unwrap().format(format).to_string()
}

/// Makes the `chrono::NaiveDate` of the given day with `from_ymd_opt` and
/// calls `to_string` on it (its `Display`). Trusted: the text is the year,
/// the month and the day with hyphens between them, the year in four digits,
/// or with a sign where it has more or is negative.
#[verifier::external_body]
fn chrono_to_string(year: i32, month: u32, day: u32) -> (text: String)
    requires
        is_calendar_date(year as int, month as int, day as int),
    ensures
        text@ == iso_text(Ymd { year: year as int, month: month as int, day: day as int }),
{
    NaiveDate::from_ymd_opt(year, month, day).unwrap().to_string()
}

/// What parsing `text` as a `chrono::NaiveDate` gives (its `FromStr`): the
/// date, or nothing where it reports an error.
pub uninterp spec fn date_from_str(text: Seq<char>) -> Option<Ymd>;

/// Calls `str::parse` for a `chrono::NaiveDate` and hands out year, month and
/// day of the date it found. Trusted: the result is the parser's, and every
/// date it returns exists.
#[verifier::external_body]
fn chrono_from_str(text: &str) -> (parts: Option<(i32, u32, u32)>)
    ensures
        ymd_of(parts) == date_from_str(text@),
        parts matches Some(p) ==> is_calendar_date(p.0 as int, p.1 as int, p.2 as int),
{
    match text.parse::<NaiveDate>() {
        Ok(date) => Some((date.year(), date.month(), date.day())),
        Err(_) => None,
    }
}

impl Date {
    /// The date that `text` holds under `format`, if it holds one.
    pub fn parse_from_str(text: &str, format: &str) -> (date: Option<Date>)
        ensures
            date_view(date) == parsed_date(text@, format@),
            date matches Some(d) ==> d.valid(),
    {
        match chrono_parse(text, format) {
            Some((year, month, day)) => Date::new(year, month, day),
            None => None,
        }
    }

    /// The date that `text` holds in the notation of year, month and day,
    /// if it holds one.
    pub fn parse(text: &str) -> (date: Option<Date>)
        ensures
            date_view(date) == date_from_str(text@),
            date matches Some(d) ==> d.valid(),
    {
        match chrono_from_str(text) {
            Some((year, month, day)) => Date::new(year, month, day),
            None => None,
        }
    }

    /// The date as day, month and year: `15.03.2024`.
    pub fn format_dmy(&self) -> (text: String)
        ensures
            text@ == dmy_text(self@),
            self.valid(),
    {
        proof {
            use_type_invariant(self);
        }
        chrono_format(self.year, self.month, self.day, "%d.%m.%Y")
    }

    /// The date as year, month and day: `2024-03-15`.
    pub fn to_iso_string(&self) -> (text: String)
        ensures
            text@ == iso_text(self@),
            self.valid(),
    {
        proof {
            use_type_invariant(self);
        }
        chrono_to_string(self.year, self.month, self.day)
    }
}

/// Two digits denote the number they were written for.
pub proof fn lemma_two_digits(n: int)
    requires
        0 <= n < 100,
    ensures
        two_digits(n).len() == 2,
        all_digits(two_digits(n)),
        decimal_value(two_digits(n)) == n,
{
    let s = two_digits(n);
    lemma_digit_char((n / 10) as nat);
    lemma_digit_char((n % 10) as nat);
    assert(s.drop_last() =~= seq![digit_char((n / 10) as nat)]);
    assert(s.drop_last().drop_last() =~= Seq::<char>::empty());
    assert(decimal_value(s.drop_last().drop_last()) == 0);
    assert(decimal_value(s.drop_last()) == n / 10);
}

/// Four digits denote the number they were written for.
pub proof fn lemma_four_digits(n: int)
    requires
        0 <= n <= 9999,
    ensures
        four_digits(n).len() == 4,
        all_digits(four_digits(n)),
        decimal_value(four_digits(n)) == n,
{
    let s = four_digits(n);
    lemma_digit_char((n / 1000) as nat);
    lemma_digit_char((n / 100 % 10) as nat);
    lemma_digit_char((n / 10 % 10) as nat);
    lemma_digit_char((n % 10) as nat);
    let s3 = s.drop_last();
    let s2 = s3.drop_last();
    let s1 = s2.drop_last();
    assert(s1.drop_last() =~= Seq::<char>::empty());
    assert(decimal_value(s1.drop_last()) == 0);
    assert(decimal_value(s1) == n / 1000);
    assert(decimal_value(s2) == n / 100);
    assert(decimal_value(s3) == n / 10);
}

/// The text of a year is a plain notation of that year.
pub proof fn lemma_year_text_plain(year: int)
    ensures
        is_plain_year(year_text(year)),
        plain_year_value(year_text(year)) == year,
{
    let s = year_text(year);
    if 0 <= year <= 9999 {
        lemma_four_digits(year);
        lemma_digit_char((year / 1000) as nat);
    } else if year < 0 && -year <= 9999 {
        lemma_four_digits(-year);
        assert(s.subrange(1, s.len() as int) =~= four_digits(-year));
    } else if year < 0 {
        lemma_decimal_text_value((-year) as nat);
        assert(s.subrange(1, s.len() as int) =~= decimal_text((-year) as nat));
    } else {
        lemma_decimal_text_value(year as nat);
        assert(s.subrange(1, s.len() as int) =~= decimal_text(year as nat));
    }
}

/// A date written as day, month and year and read again under the same
/// format is the date that was written.
pub proof fn lemma_format_then_parse(date: Ymd)
    requires
        is_calendar_date(date.year, date.month, date.day),
    ensures
        parsed_date(dmy_text(date), "%d.%m.%Y"@) == Some(date),
{
    let s = dmy_text(date);
    lemma_two_digits(date.day);
    lemma_two_digits(date.month);
    lemma_year_text_plain(date.year);
    lemma_digit_char((date.day / 10) as nat);
    lemma_digit_char((date.day % 10) as nat);
    lemma_digit_char((date.month / 10) as nat);
    lemma_digit_char((date.month % 10) as nat);
    assert(s.subrange(0, 2) =~= two_digits(date.day));
    assert(s.subrange(3, 5) =~= two_digits(date.month));
    assert(s.subrange(6, s.len() as int) =~= year_text(date.year));
    assert(is_plain_dmy(s));
}

} // verus!
