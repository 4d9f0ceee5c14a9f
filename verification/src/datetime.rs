use vstd::prelude::*;

use crate::text::{
    lemma_char_no_comma, lemma_concat_no_comma, lemma_nat_text_no_comma, lemma_zero_padded_no_comma, nat_text,
    zero_padded,
};

verus! {

/// The `strftime` pattern of a date-time to the second: `2022-06-20 09:01:00`.
pub const SECONDS_FORMAT: &'static str = "%Y-%m-%d %H:%M:%S";

/// The `strftime` pattern of a date-time to the millisecond:
/// `2022-06-20 09:01:00.000`.
pub const MILLIS_FORMAT: &'static str = "%F %T%.3f";

/// The earliest year that a calendar date may have.
pub const MIN_YEAR: i32 = -262143;

/// The latest year that a calendar date may have.
pub const MAX_YEAR: i32 = 262142;

/// A calendar date and time of day without a time zone, held as its fields.
/// `nano` may reach 2 000 000 000 only in second 59, where it stands for a
/// leap second.
#[derive(Clone, Copy, Debug, PartialEq, Eq, Structural)]
pub struct KLineDateTime {
    pub year: i32,
    pub month: u32,
    pub day: u32,
    pub hour: u32,
    pub minute: u32,
    pub second: u32,
    pub nano: u32,
}

/// Whether `year` is a leap year of the proleptic Gregorian calendar.
pub open spec fn is_leap_year(year: int) -> bool {
    (year % 4 == 0 && year % 100 != 0) || year % 400 == 0
}

/// The number of days of `month` (1 to 12) in `year`.
pub open spec fn days_in_month(year: int, month: int) -> int {
    if month == 2 {
        if is_leap_year(year) {
            29
        } else {
            28
        }
    } else if month == 4 || month == 6 || month == 9 || month == 11 {
        30
    } else {
        31
    }
}

impl KLineDateTime {
    /// The fields name an existing date in the supported range of years and a
    /// time of day.
    pub open spec fn wf(self) -> bool {
        &&& MIN_YEAR <= self.year <= MAX_YEAR
        &&& 1 <= self.month <= 12
        &&& 1 <= self.day <= days_in_month(self.year as int, self.month as int)
        &&& self.hour < 24
        &&& self.minute < 60
        &&& self.second < 60
        &&& (self.nano < 1_000_000_000 || (self.second == 59 && self.nano < 2_000_000_000))
    }

    /// Whether the fields name an existing date-time (`wf`).
    pub fn is_valid(&self) -> (b: bool)
        ensures
            b == self.wf(),
    {
        let leap = (self.year % 4 == 0 && self.year % 100 != 0) || self.year % 400 == 0;
        let days: u32 = if self.month == 2 {
            if leap {
                29
            } else {
                28
            }
        } else if self.month == 4 || self.month == 6 || self.month == 9 || self.month == 11 {
            30
        } else {
            31
        };
        MIN_YEAR <= self.year && self.year <= MAX_YEAR && 1 <= self.month && self.month <= 12 && 1 <= self.day
            && self.day <= days && self.hour < 24 && self.minute < 60 && self.second < 60 && (self.nano
            < 1_000_000_000 || (self.second == 59 && self.nano < 2_000_000_000))
    }

    /// The date-time `year-month-day hour:minute:second`, with no fraction of a
    /// second.
    pub fn from_ymd_hms(year: i32, month: u32, day: u32, hour: u32, minute: u32, second: u32) -> (dt: KLineDateTime)
        ensures
            dt == (KLineDateTime { year, month, day, hour, minute, second, nano: 0 }),
    {
        KLineDateTime { year, month, day, hour, minute, second, nano: 0 }
    }
}

/// The year as chrono's `%Y` writes it: four digits with leading zeros for
/// years 0 to 9999, and an explicit sign otherwise (`+12345`, `-0001`).
pub open spec fn year_text(year: int) -> Seq<char> {
    if 0 <= year <= 9999 {
        zero_padded(year as nat, 4)
    } else if year > 9999 {
        seq!['+'] + nat_text(year as nat)
    } else {
        seq!['-'] + zero_padded((-year) as nat, 4)
    }
}

/// `dt` as `%Y-%m-%d %H:%M:%S` writes it: month, day, hour, minute and second
/// in two digits each; a leap second (`nano` of a second or more) shows as
/// second 60; fractions of a second are dropped.
pub open spec fn seconds_text(dt: KLineDateTime) -> Seq<char> {
    year_text(dt.year as int) + seq!['-'] + zero_padded(dt.month as nat, 2) + seq!['-']
        + zero_padded(dt.day as nat, 2) + seq![' '] + zero_padded(dt.hour as nat, 2) + seq![':']
        + zero_padded(dt.minute as nat, 2) + seq![':']
        + zero_padded((dt.second + dt.nano / 1_000_000_000) as nat, 2)
}

/// `dt` as `%F %T%.3f` writes it: the text to the second, a point and the
/// milliseconds of the current second in three digits.
pub open spec fn millis_text(dt: KLineDateTime) -> Seq<char> {
    seconds_text(dt) + seq!['.'] + zero_padded(((dt.nano / 1_000_000) % 1000) as nat, 3)
}

/// `dt` written with one of the two patterns.
pub open spec fn datetime_text(dt: KLineDateTime, fmt: Seq<char>) -> Seq<char> {
    if fmt == SECONDS_FORMAT@ {
        seconds_text(dt)
    } else {
        millis_text(dt)
    }
}

/// Formats `dt` with chrono: builds the `NaiveDateTime` with
/// `NaiveDate::from_ymd_opt(..).and_hms_nano_opt(..)`, which succeed on every
/// date-time that `wf` admits, and returns `format(fmt).to_string()`. The
/// contract states what chrono's `%Y`, `%m`, `%d`, `%H`, `%M`, `%S`, `%F`,
/// `%T` and `%.3f` write for the two patterns admitted.
#[verifier::external_body]
pub(crate) fn format_datetime(dt: &KLineDateTime, fmt: &str) -> (res: String)
    requires
        dt.wf(),
        fmt@ == SECONDS_FORMAT@ || fmt@ == MILLIS_FORMAT@,
    ensures
        res@ == datetime_text(*dt, fmt@),
{
    let date = chrono::NaiveDate::from_ymd_opt(dt.year, dt.month, dt.day).expect("a valid date");
    let moment = date.and_hms_nano_opt(dt.hour, dt.minute, dt.second, dt.nano).expect("a valid time");
    moment.format(fmt).to_string()
}

/// Law: the text to the second ignores fractions of a second: two
/// date-times that differ only below the second (no leap second) read the
/// same.
pub proof fn law_seconds_text_ignores_fractions(a: KLineDateTime, b: KLineDateTime)
    requires
        a.nano < 1_000_000_000,
        b.nano < 1_000_000_000,
        a.year == b.year,
        a.month == b.month,
        a.day == b.day,
        a.hour == b.hour,
        a.minute == b.minute,
        a.second == b.second,
    ensures
        seconds_text(a) == seconds_text(b),
{
}

/// The two patterns differ.
pub proof fn lemma_formats_differ()
    ensures
        MILLIS_FORMAT@ != SECONDS_FORMAT@,
{
    reveal_strlit("%Y-%m-%d %H:%M:%S");
    reveal_strlit("%F %T%.3f");
    assert(MILLIS_FORMAT@.len() != SECONDS_FORMAT@.len());
}

/// `dt` written to the second, as the query arguments take it.
pub fn datetime_seconds_text(dt: &KLineDateTime) -> (res: String)
    requires
        dt.wf(),
    ensures
        res@ == seconds_text(*dt),
{
    format_datetime(dt, SECONDS_FORMAT)
}

/// The text of a year holds no comma.
pub proof fn lemma_year_text_no_comma(year: int)
    ensures
        !year_text(year).contains(','),
{
    lemma_char_no_comma('+');
    lemma_char_no_comma('-');
    if 0 <= year <= 9999 {
        lemma_zero_padded_no_comma(year as nat, 4);
    } else if year > 9999 {
        lemma_nat_text_no_comma(year as nat);
        lemma_concat_no_comma(seq!['+'], nat_text(year as nat));
    } else {
        lemma_zero_padded_no_comma((-year) as nat, 4);
        lemma_concat_no_comma(seq!['-'], zero_padded((-year) as nat, 4));
    }
}

/// The text of a date-time to the second holds no comma.
pub proof fn lemma_seconds_text_no_comma(dt: KLineDateTime)
    ensures
        !seconds_text(dt).contains(','),
{
    lemma_year_text_no_comma(dt.year as int);
    lemma_char_no_comma('-');
    lemma_char_no_comma(' ');
    lemma_char_no_comma(':');
    let p1 = zero_padded(dt.month as nat, 2);
    let p2 = zero_padded(dt.day as nat, 2);
    let p3 = zero_padded(dt.hour as nat, 2);
    let p4 = zero_padded(dt.minute as nat, 2);
    let p5 = zero_padded((dt.second + dt.nano / 1_000_000_000) as nat, 2);
    lemma_zero_padded_no_comma(dt.month as nat, 2);
    lemma_zero_padded_no_comma(dt.day as nat, 2);
    lemma_zero_padded_no_comma(dt.hour as nat, 2);
    lemma_zero_padded_no_comma(dt.minute as nat, 2);
    lemma_zero_padded_no_comma((dt.second + dt.nano / 1_000_000_000) as nat, 2);
    let t0 = year_text(dt.year as int);
    let t1 = t0 + seq!['-'];
    lemma_concat_no_comma(t0, seq!['-']);
    let t2 = t1 + p1;
    lemma_concat_no_comma(t1, p1);
    let t3 = t2 + seq!['-'];
    lemma_concat_no_comma(t2, seq!['-']);
    let t4 = t3 + p2;
    lemma_concat_no_comma(t3, p2);
    let t5 = t4 + seq![' '];
    lemma_concat_no_comma(t4, seq![' ']);
    let t6 = t5 + p3;
    lemma_concat_no_comma(t5, p3);
    let t7 = t6 + seq![':'];
    lemma_concat_no_comma(t6, seq![':']);
    let t8 = t7 + p4;
    lemma_concat_no_comma(t7, p4);
    let t9 = t8 + seq![':'];
    lemma_concat_no_comma(t8, seq![':']);
    lemma_concat_no_comma(t9, p5);
}

/// The text of a date-time to the millisecond holds no comma.
pub proof fn lemma_millis_text_no_comma(dt: KLineDateTime)
    ensures
        !millis_text(dt).contains(','),
{
    lemma_seconds_text_no_comma(dt);
    lemma_char_no_comma('.');
    lemma_concat_no_comma(seconds_text(dt), seq!['.']);
    lemma_zero_padded_no_comma(((dt.nano / 1_000_000) % 1000) as nat, 3);
    lemma_concat_no_comma(seconds_text(dt) + seq!['.'], zero_padded(((dt.nano / 1_000_000) % 1000) as nat, 3));
}

} // verus!
