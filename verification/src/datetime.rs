//! Calendar dates and date-times as plain values, their validity, their text
//! forms, and the calls into `chrono` that parse, print and subtract them.

use chrono::{Datelike, NaiveDate, NaiveDateTime, Timelike};
use vstd::prelude::*;

verus! {

/// The earliest year that a calendar date may carry.
pub const MIN_YEAR: i32 = -262143i32;

/// The latest year that a calendar date may carry.
pub const MAX_YEAR: i32 = 262142i32;

/// A calendar date of the proleptic Gregorian calendar.
#[derive(Clone, Copy, Debug, PartialEq, Eq, Structural)]
pub struct Date {
    pub year: i32,
    pub month: u32,
    pub day: u32,
}

/// A date with a time of day, without time zone. A `nanosecond` of one
/// second or more marks a leap second, which is only allowed at second 59.
#[derive(Clone, Copy, Debug, PartialEq, Eq, Structural)]
pub struct DateTime {
    pub year: i32,
    pub month: u32,
    pub day: u32,
    pub hour: u32,
    pub minute: u32,
    pub second: u32,
    pub nanosecond: u32,
}

pub open spec fn is_leap_year(year: int) -> bool {
    year % 4 == 0 && (year % 100 != 0 || year % 400 == 0)
}

pub open spec fn days_in_month(year: int, month: int) -> int {
    if month == 2 {
        if is_leap_year(year) { 29 } else { 28 }
    } else if month == 4 || month == 6 || month == 9 || month == 11 {
        30
    } else {
        31
    }
}

impl Date {
    /// The date exists in the calendar and lies in the supported range of years.
    pub open spec fn is_valid(self) -> bool {
        &&& MIN_YEAR <= self.year <= MAX_YEAR
        &&& 1 <= self.month <= 12
        &&& 1 <= self.day <= days_in_month(self.year as int, self.month as int)
    }

    /// The date at the given time of day, or `None` when the hour, minute or
    /// second is out of range.
    pub open spec fn at_spec(self, hour: u32, minute: u32, second: u32) -> Option<DateTime> {
        if hour < 24 && minute < 60 && second < 60 {
            Some(
                DateTime {
                    year: self.year,
                    month: self.month,
                    day: self.day,
                    hour,
                    minute,
                    second,
                    nanosecond: 0,
                },
            )
        } else {
            None
        }
    }

    /// The date at the given time of day (`and_hms_opt` of `chrono`).
    pub fn and_hms(&self, hour: u32, minute: u32, second: u32) -> (res: Option<DateTime>)
        ensures
            res == self.at_spec(hour, minute, second),
            self.is_valid() && res is Some ==> res->Some_0.is_valid(),
    {
        if hour < 24 && minute < 60 && second < 60 {
            Some(
                DateTime {
                    year: self.year,
                    month: self.month,
                    day: self.day,
                    hour,
                    minute,
                    second,
                    nanosecond: 0,
                },
            )
        } else {
            None
        }
    }
}

impl DateTime {
    pub open spec fn date(self) -> Date {
        Date { year: self.year, month: self.month, day: self.day }
    }

    /// The date exists, the time of day is in range, and a leap second only
    /// stands at second 59.
    pub open spec fn is_valid(self) -> bool {
        &&& self.date().is_valid()
        &&& self.hour < 24
        &&& self.minute < 60
        &&& self.second < 60
        &&& self.nanosecond < 2_000_000_000
        &&& (self.nanosecond >= 1_000_000_000 ==> self.second == 59)
    }

    /// A four-digit year and no fraction of a second: the text form of such a
    /// value is exactly `YYYY-MM-DD HH:MM:SS`.
    pub open spec fn is_plain(self) -> bool {
        0 <= self.year <= 9999 && self.nanosecond == 0
    }

    /// Whether this date-time is valid, computed.
    pub fn check(&self) -> (res: bool)
        ensures
            res == self.is_valid(),
    {
        let leap = self.year % 4 == 0 && (self.year % 100 != 0 || self.year % 400 == 0);
        let month_days: u32 = if self.month == 2 {
            if leap { 29 } else { 28 }
        } else if self.month == 4 || self.month == 6 || self.month == 9 || self.month == 11 {
            30
        } else {
            31
        };
        MIN_YEAR <= self.year && self.year <= MAX_YEAR && 1 <= self.month && self.month <= 12
            && 1 <= self.day && self.day <= month_days && self.hour < 24 && self.minute < 60
            && self.second < 60 && self.nanosecond < 2_000_000_000 && (self.nanosecond
            < 1_000_000_000 || self.second == 59)
    }

    /// Seconds since midnight, leap second not counted.
    pub open spec fn seconds_of_day(self) -> int {
        self.hour * 3600 + self.minute * 60 + self.second
    }
}

/// Two decimal digits, zero-padded.
pub open spec fn two_digits(n: int) -> Seq<char> {
    seq![crate::text::digit_char(n / 10), crate::text::digit_char(n % 10)]
}

/// Four decimal digits, zero-padded.
pub open spec fn four_digits(n: int) -> Seq<char> {
    two_digits(n / 100) + two_digits(n % 100)
}

/// `YYYY-MM-DD`
pub open spec fn date_text(d: Date) -> Seq<char> {
    four_digits(d.year as int) + seq!['-'] + two_digits(d.month as int) + seq!['-'] + two_digits(
        d.day as int,
    )
}

/// `YYYY-MM-DD HH:MM`, the form in which a date-time is typed in.
pub open spec fn minute_text(dt: DateTime) -> Seq<char> {
    date_text(dt.date()) + seq![' '] + two_digits(dt.hour as int) + seq![':'] + two_digits(
        dt.minute as int,
    )
}

/// `YYYY-MM-DD HH:MM:SS`, the form in which a date-time is stored.
pub open spec fn second_text(dt: DateTime) -> Seq<char> {
    minute_text(dt) + seq![':'] + two_digits(dt.second as int)
}

/// The order of texts that compares them character by character: the first
/// differing character decides, and a proper prefix comes first.
pub open spec fn text_before(s: Seq<char>, t: Seq<char>) -> bool
    decreases s.len(),
{
    if s.len() == 0 {
        t.len() > 0
    } else if t.len() == 0 {
        false
    } else if s[0] != t[0] {
        (s[0] as int) < (t[0] as int)
    } else {
        text_before(s.drop_first(), t.drop_first())
    }
}

/// `a` lies before `b` in time (leap seconds aside).
pub open spec fn earlier(a: DateTime, b: DateTime) -> bool {
    if a.year != b.year {
        a.year < b.year
    } else if a.month != b.month {
        a.month < b.month
    } else if a.day != b.day {
        a.day < b.day
    } else if a.hour != b.hour {
        a.hour < b.hour
    } else if a.minute != b.minute {
        a.minute < b.minute
    } else {
        a.second < b.second
    }
}

/// Two texts that start with parts of one length compare as those parts, or,
/// when the parts are equal, as what follows them.
proof fn lemma_text_before_concat(p1: Seq<char>, q1: Seq<char>, p2: Seq<char>, q2: Seq<char>)
    requires
        p1.len() == p2.len(),
    ensures
        text_before(p1 + q1, p2 + q2) == if p1 == p2 {
            text_before(q1, q2)
        } else {
            text_before(p1, p2)
        },
        (p1 + q1 == p2 + q2) == (p1 == p2 && q1 == q2),
    decreases p1.len(),
{
    if p1 + q1 == p2 + q2 {
        assert((p1 + q1).subrange(0, p1.len() as int) =~= p1);
        assert((p2 + q2).subrange(0, p1.len() as int) =~= p2);
        assert((p1 + q1).subrange(p1.len() as int, (p1 + q1).len() as int) =~= q1);
        assert((p2 + q2).subrange(p1.len() as int, (p2 + q2).len() as int) =~= q2);
    }
    if p1.len() == 0 {
        assert(p1 + q1 =~= q1);
        assert(p2 + q2 =~= q2);
        assert(p1 =~= p2);
    } else {
        assert((p1 + q1)[0] == p1[0]);
        assert((p2 + q2)[0] == p2[0]);
        assert((p1 + q1).drop_first() =~= p1.drop_first() + q1);
        assert((p2 + q2).drop_first() =~= p2.drop_first() + q2);
        lemma_text_before_concat(p1.drop_first(), q1, p2.drop_first(), q2);
        if p1[0] == p2[0] {
            if p1.drop_first() =~= p2.drop_first() {
                assert forall|i: int| 0 <= i < p1.len() implies p1[i] == p2[i] by {
                    if i > 0 {
                        assert(p1[i] == p1.drop_first()[i - 1]);
                        assert(p2[i] == p2.drop_first()[i - 1]);
                    }
                }
                assert(p1 =~= p2);
            } else {
                assert(p1 != p2) by {
                    if p1 == p2 {
                        assert(p1.drop_first() =~= p2.drop_first());
                    }
                }
            }
        }
    }
}

/// Two-digit numerals compare as the numbers they spell, and spell them
/// apart.
proof fn lemma_two_digits_order(m: int, n: int)
    requires
        0 <= m < 100,
        0 <= n < 100,
    ensures
        text_before(two_digits(m), two_digits(n)) == (m < n),
        (two_digits(m) == two_digits(n)) == (m == n),
{
    let a = two_digits(m);
    let b = two_digits(n);
    assert(a[0] as int == m / 10 + 48);
    assert(b[0] as int == n / 10 + 48);
    assert(a[1] as int == m % 10 + 48);
    assert(b[1] as int == n % 10 + 48);
    assert(a.drop_first().drop_first().len() == 0);
    assert(b.drop_first().drop_first().len() == 0);
    assert(a.drop_first()[0] == a[1]);
    assert(b.drop_first()[0] == b[1]);
    let a1 = a.drop_first();
    let b1 = b.drop_first();
    assert(text_before(a1.drop_first(), b1.drop_first()) == false);
    assert(text_before(a1, b1) == ((a[1] as int) < (b[1] as int)));
    if a == b {
        assert(a[0] == b[0] && a[1] == b[1]);
    }
    if m == n {
        assert(a =~= b);
    }
    if m / 10 == n / 10 && m % 10 == n % 10 {
        assert(a =~= b);
    }
}

/// Four-digit numerals compare as the numbers they spell, and spell them
/// apart.
proof fn lemma_four_digits_order(m: int, n: int)
    requires
        0 <= m < 10000,
        0 <= n < 10000,
    ensures
        text_before(four_digits(m), four_digits(n)) == (m < n),
        (four_digits(m) == four_digits(n)) == (m == n),
{
    lemma_two_digits_order(m / 100, n / 100);
    lemma_two_digits_order(m % 100, n % 100);
    lemma_text_before_concat(two_digits(m / 100), two_digits(m % 100), two_digits(n / 100), two_digits(n % 100));
    if four_digits(m) == four_digits(n) {
        assert(four_digits(m).subrange(0, 2) =~= two_digits(m / 100));
        assert(four_digits(n).subrange(0, 2) =~= two_digits(n / 100));
        assert(four_digits(m).subrange(2, 4) =~= two_digits(m % 100));
        assert(four_digits(n).subrange(2, 4) =~= two_digits(n % 100));
    }
}

/// The stored text of a date-time, cut after each field.
spec fn text_fields(d: DateTime) -> Seq<char> {
    four_digits(d.year as int) + (seq!['-'] + (two_digits(d.month as int) + (seq!['-'] + (
    two_digits(d.day as int) + (seq![' '] + (two_digits(d.hour as int) + (seq![':'] + (
    two_digits(d.minute as int) + (seq![':'] + two_digits(d.second as int))))))))))
}

/// Stored texts compare as the date-times they stand for: of two valid
/// date-times with four-digit years and no fraction of a second, the text of
/// the earlier one comes first, and equal texts stand for equal date-times.
/// This is what lets ranges of periods be selected by comparing their texts.
pub proof fn stored_text_order(a: DateTime, b: DateTime)
    requires
        a.is_valid(),
        a.is_plain(),
        b.is_valid(),
        b.is_plain(),
    ensures
        text_before(second_text(a), second_text(b)) == earlier(a, b),
        (second_text(a) == second_text(b)) == (a == b),
{
    assert(second_text(a) =~= text_fields(a));
    assert(second_text(b) =~= text_fields(b));
    lemma_four_digits_order(a.year as int, b.year as int);
    lemma_two_digits_order(a.month as int, b.month as int);
    lemma_two_digits_order(a.day as int, b.day as int);
    lemma_two_digits_order(a.hour as int, b.hour as int);
    lemma_two_digits_order(a.minute as int, b.minute as int);
    lemma_two_digits_order(a.second as int, b.second as int);
    let sep_dash = seq!['-'];
    let sep_space = seq![' '];
    let sep_colon = seq![':'];
    let s5a = sep_colon + two_digits(a.second as int);
    let s5b = sep_colon + two_digits(b.second as int);
    lemma_text_before_concat(sep_colon, two_digits(a.second as int), sep_colon, two_digits(b.second as int));
    let m4a = two_digits(a.minute as int) + s5a;
    let m4b = two_digits(b.minute as int) + s5b;
    lemma_text_before_concat(two_digits(a.minute as int), s5a, two_digits(b.minute as int), s5b);
    let s4a = sep_colon + m4a;
    let s4b = sep_colon + m4b;
    lemma_text_before_concat(sep_colon, m4a, sep_colon, m4b);
    let h3a = two_digits(a.hour as int) + s4a;
    let h3b = two_digits(b.hour as int) + s4b;
    lemma_text_before_concat(two_digits(a.hour as int), s4a, two_digits(b.hour as int), s4b);
    let s3a = sep_space + h3a;
    let s3b = sep_space + h3b;
    lemma_text_before_concat(sep_space, h3a, sep_space, h3b);
    let d2a = two_digits(a.day as int) + s3a;
    let d2b = two_digits(b.day as int) + s3b;
    lemma_text_before_concat(two_digits(a.day as int), s3a, two_digits(b.day as int), s3b);
    let s2a = sep_dash + d2a;
    let s2b = sep_dash + d2b;
    lemma_text_before_concat(sep_dash, d2a, sep_dash, d2b);
    let m1a = two_digits(a.month as int) + s2a;
    let m1b = two_digits(b.month as int) + s2b;
    lemma_text_before_concat(two_digits(a.month as int), s2a, two_digits(b.month as int), s2b);
    let s1a = sep_dash + m1a;
    let s1b = sep_dash + m1b;
    lemma_text_before_concat(sep_dash, m1a, sep_dash, m1b);
    lemma_text_before_concat(four_digits(a.year as int), s1a, four_digits(b.year as int), s1b);
    assert(text_fields(a) == four_digits(a.year as int) + s1a);
    assert(text_fields(b) == four_digits(b.year as int) + s1b);
}

/// The format of a typed date-time.
pub open spec fn input_datetime_format() -> Seq<char> {
    "%Y-%m-%d %H:%M"@
}

/// The format of a typed date.
pub open spec fn input_date_format() -> Seq<char> {
    "%Y-%m-%d"@
}

/// The format of a stored date-time.
pub open spec fn stored_datetime_format() -> Seq<char> {
    "%Y-%m-%d %H:%M:%S"@
}

/// What `chrono::NaiveDateTime::parse_from_str` gives for a text and a format.
pub uninterp spec fn chrono_parse_datetime(text: Seq<char>, format: Seq<char>) -> Option<DateTime>;

/// What `chrono::NaiveDate::parse_from_str` gives for a text and a format.
pub uninterp spec fn chrono_parse_date(text: Seq<char>, format: Seq<char>) -> Option<Date>;

/// The year as `Display` of `chrono` writes it: four digits from 0 to 9999,
/// else a sign and at least four digits.
pub open spec fn year_text(year: int) -> Seq<char> {
    if 0 <= year <= 9999 {
        four_digits(year)
    } else if year < 0 {
        seq!['-'] + crate::text::padded((-year) as nat, 4)
    } else {
        seq!['+'] + crate::text::padded(year as nat, 4)
    }
}

/// The fraction of a second: nothing for none, else a point and three, six
/// or nine digits, the fewest that show it exactly.
pub open spec fn fraction_text(nano: int) -> Seq<char> {
    if nano == 0 {
        Seq::empty()
    } else if nano % 1_000_000 == 0 {
        seq!['.'] + crate::text::padded((nano / 1_000_000) as nat, 3)
    } else if nano % 1_000 == 0 {
        seq!['.'] + crate::text::padded((nano / 1_000) as nat, 6)
    } else {
        seq!['.'] + crate::text::padded(nano as nat, 9)
    }
}

/// The text of a date-time as `Display` of `chrono::NaiveDateTime` writes it:
/// `YYYY-MM-DD HH:MM:SS` with the fraction of a second, if any, and a leap
/// second written as second 60.
pub open spec fn display_text(dt: DateTime) -> Seq<char> {
    let leap = dt.nanosecond >= 1_000_000_000;
    let second: int = if leap { dt.second + 1 } else { dt.second as int };
    let nano: int = if leap { dt.nanosecond - 1_000_000_000 } else { dt.nanosecond as int };
    year_text(dt.year as int) + seq!['-'] + two_digits(dt.month as int) + seq!['-'] + two_digits(
        dt.day as int,
    ) + seq![' '] + two_digits(dt.hour as int) + seq![':'] + two_digits(dt.minute as int) + seq![
        ':',
    ] + two_digits(second) + fraction_text(nano)
}

/// The days of the years before `year`, counted from the start of year 0 of
/// the proleptic Gregorian calendar (negative before it).
pub open spec fn days_before_year(year: int) -> int {
    365 * year + (year + 3) / 4 - (year + 99) / 100 + (year + 399) / 400
}

/// The days of the months of `year` before `month`.
pub open spec fn days_before_month(year: int, month: int) -> int {
    let common: int = if month <= 1 {
        0
    } else if month == 2 {
        31
    } else if month == 3 {
        59
    } else if month == 4 {
        90
    } else if month == 5 {
        120
    } else if month == 6 {
        151
    } else if month == 7 {
        181
    } else if month == 8 {
        212
    } else if month == 9 {
        243
    } else if month == 10 {
        273
    } else if month == 11 {
        304
    } else {
        334
    };
    if month > 2 && is_leap_year(year) {
        common + 1
    } else {
        common
    }
}

/// The number of a date: its days since the start of year 0.
pub open spec fn day_number(d: Date) -> int {
    days_before_year(d.year as int) + days_before_month(d.year as int, d.month as int) + d.day - 1
}

/// The whole seconds from `earlier` to `later`, as `chrono` counts them
/// (`signed_duration_since`, then `num_seconds`): days of 86400 seconds,
/// the seconds of the day, a leap second counted only when the other time is
/// on the other side of it, and the fraction of a second cut towards zero.
pub open spec fn seconds_between(later: DateTime, earlier: DateTime) -> int {
    let days = day_number(later.date()) - day_number(earlier.date());
    let a = later.seconds_of_day();
    let b = earlier.seconds_of_day();
    let leap: int = if a > b && earlier.nanosecond >= 1_000_000_000 {
        1
    } else if a < b && later.nanosecond >= 1_000_000_000 {
        -1
    } else {
        0
    };
    let frac = later.nanosecond - earlier.nanosecond;
    let secs = days * 86400 + (a - b) + leap + frac / 1_000_000_000;
    let nanos = frac % 1_000_000_000;
    if secs < 0 && nanos > 0 {
        secs + 1
    } else {
        secs
    }
}

/// The text of a date-time with a four-digit year and no fraction of a
/// second is `YYYY-MM-DD HH:MM:SS`.
pub proof fn plain_display_text(dt: DateTime)
    requires
        dt.is_valid(),
        dt.is_plain(),
    ensures
        display_text(dt) == second_text(dt),
{
    assert(display_text(dt) =~= second_text(dt));
}

/// On one date, and without fractions of a second, the seconds between two
/// times are the difference of their seconds of the day.
pub proof fn seconds_between_on_one_date(later: DateTime, earlier: DateTime)
    requires
        later.date() == earlier.date(),
        later.nanosecond == 0,
        earlier.nanosecond == 0,
    ensures
        seconds_between(later, earlier) == later.seconds_of_day() - earlier.seconds_of_day(),
{
}

/// Calls `chrono::NaiveDateTime::parse_from_str` and takes the fields of the
/// result. Claimed of it: the result is the named one; a parsed value is a
/// valid date-time; and a text written exactly as `YYYY-MM-DD HH:MM:SS` (or
/// `YYYY-MM-DD HH:MM` with second zero) in the matching format gives back the
/// date-time it spells. What the error text says is left unsaid.
#[verifier::external_body]
pub(crate) fn parse_naive_datetime(text: &str, format: &str) -> (res: Result<DateTime, String>)
    ensures
        res is Ok <==> chrono_parse_datetime(text@, format@) is Some,
        res is Ok ==> chrono_parse_datetime(text@, format@) == Some(res->Ok_0),
        res is Ok ==> res->Ok_0.is_valid(),
        forall|d: DateTime|
            format@ == stored_datetime_format() && d.is_valid() && d.is_plain() && text@
                == #[trigger] second_text(d) ==> res is Ok && res->Ok_0 == d,
        forall|d: DateTime|
            format@ == input_datetime_format() && d.is_valid() && d.is_plain() && d.second == 0
                && text@ == #[trigger] minute_text(d) ==> res is Ok && res->Ok_0 == d,
{
    match NaiveDateTime::parse_from_str(text, format) {
        Ok(v) => Ok(DateTime {
            year: v.year(),
            month: v.month(),
            day: v.day(),
            hour: v.hour(),
            minute: v.minute(),
            second: v.second(),
            nanosecond: v.nanosecond(),
        }),
        Err(e) => Err(e.to_string()),
    }
}

/// Calls `chrono::NaiveDate::parse_from_str` and takes the fields of the
/// result. Claimed of it: the result is the named one; a parsed value is a
/// valid date; and a text written exactly as `YYYY-MM-DD` in the format
/// `%Y-%m-%d` gives back the date it spells. The error text is left unsaid.
#[verifier::external_body]
pub(crate) fn parse_naive_date(text: &str, format: &str) -> (res: Result<Date, String>)
    ensures
        res is Ok <==> chrono_parse_date(text@, format@) is Some,
        res is Ok ==> chrono_parse_date(text@, format@) == Some(res->Ok_0),
        res is Ok ==> res->Ok_0.is_valid(),
        forall|d: Date|
            format@ == input_date_format() && d.is_valid() && 0 <= d.year <= 9999 && text@
                == #[trigger] date_text(d) ==> res is Ok && res->Ok_0 == d,
{
    match NaiveDate::parse_from_str(text, format) {
        Ok(v) => Ok(Date { year: v.year(), month: v.month(), day: v.day() }),
        Err(e) => Err(e.to_string()),
    }
}

/// Builds the `chrono::NaiveDateTime` of a valid date-time and calls its
/// `Display` (`to_string`). Claimed of it: the text is the one that
/// `display_text` spells.
#[verifier::external_body]
pub(crate) fn naive_datetime_text(dt: &DateTime) -> (res: String)
    requires
        dt.is_valid(),
    ensures
        res@ == display_text(*dt),
{
    NaiveDate::from_ymd_opt(dt.year, dt.month, dt.day)
        .unwrap()
        .and_hms_nano_opt(dt.hour, dt.minute, dt.second, dt.nanosecond)
        .unwrap()
        .to_string()
}

/// Builds the `chrono::NaiveDateTime` of two valid date-times and calls
/// `signed_duration_since` and `num_seconds`. Claimed of it: the result is
/// the one that `seconds_between` counts.
#[verifier::external_body]
pub(crate) fn naive_seconds_between(later: &DateTime, earlier: &DateTime) -> (res: i64)
    requires
        later.is_valid(),
        earlier.is_valid(),
    ensures
        res == seconds_between(*later, *earlier),
{
    let a = NaiveDate::from_ymd_opt(later.year, later.month, later.day).unwrap();
    let a = a.and_hms_nano_opt(later.hour, later.minute, later.second, later.nanosecond).unwrap();
    let b = NaiveDate::from_ymd_opt(earlier.year, earlier.month, earlier.day).unwrap();
    let b =
        b.and_hms_nano_opt(earlier.hour, earlier.minute, earlier.second, earlier.nanosecond).unwrap();
    a.signed_duration_since(b).num_seconds()
}

} // verus!
