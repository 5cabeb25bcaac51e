use vstd::prelude::*;

use crate::digit_val;
use crate::is_digit;
use crate::char_is_digit;

verus! {

/// A local naive date-time, held as plain calendar fields. Forecast
/// timestamps arrive as `YYYY-MM-DD HH:MM:SS` and are republished as
/// `YYYY-MM-DDTHH:MM:SS`.
#[derive(Clone, Copy, Debug, PartialEq, Eq, Structural)]
pub struct ForecastDateTime {
    pub year: u32,
    pub month: u32,
    pub day: u32,
    pub hour: u32,
    pub minute: u32,
    pub second: u32,
}

/// Gregorian leap-year rule.
pub open spec fn is_leap_year(y: int) -> bool {
    y % 4 == 0 && (y % 100 != 0 || y % 400 == 0)
}

/// Days in a month of the Gregorian calendar.
pub open spec fn days_in_month(y: int, m: int) -> int {
    if m == 1 || m == 3 || m == 5 || m == 7 || m == 8 || m == 10 || m == 12 {
        31
    } else if m == 4 || m == 6 || m == 9 || m == 11 {
        30
    } else if is_leap_year(y) {
        29
    } else {
        28
    }
}

/// A well-formed date-time: a real calendar date in years 0000-9999 and a
/// time of day with seconds under 60.
pub open spec fn valid_date_time(dt: ForecastDateTime) -> bool {
    &&& dt.year <= 9999
    &&& 1 <= dt.month <= 12
    &&& 1 <= dt.day <= days_in_month(dt.year as int, dt.month as int)
    &&& dt.hour < 24
    &&& dt.minute < 60
    &&& dt.second < 60
}

/// The character for one decimal digit.
pub open spec fn digit_char(d: int) -> char {
    ((48 + d) as u8) as char
}

/// Shape of a date-time text: `dddd-dd-dd<sep>dd:dd:dd`.
pub open spec fn date_time_text_wf(s: Seq<char>, sep: char) -> bool {
    &&& s.len() == 19
    &&& is_digit(s[0]) && is_digit(s[1]) && is_digit(s[2]) && is_digit(s[3])
    &&& s[4] == '-'
    &&& is_digit(s[5]) && is_digit(s[6])
    &&& s[7] == '-'
    &&& is_digit(s[8]) && is_digit(s[9])
    &&& s[10] == sep
    &&& is_digit(s[11]) && is_digit(s[12])
    &&& s[13] == ':'
    &&& is_digit(s[14]) && is_digit(s[15])
    &&& s[16] == ':'
    &&& is_digit(s[17]) && is_digit(s[18])
}

/// The fields spelled by a well-formed date-time text.
pub open spec fn date_time_of_text(s: Seq<char>) -> ForecastDateTime {
    ForecastDateTime {
        year: (digit_val(s[0]) * 1000 + digit_val(s[1]) * 100 + digit_val(s[2]) * 10 + digit_val(
            s[3],
        )) as u32,
        month: (digit_val(s[5]) * 10 + digit_val(s[6])) as u32,
        day: (digit_val(s[8]) * 10 + digit_val(s[9])) as u32,
        hour: (digit_val(s[11]) * 10 + digit_val(s[12])) as u32,
        minute: (digit_val(s[14]) * 10 + digit_val(s[15])) as u32,
        second: (digit_val(s[17]) * 10 + digit_val(s[18])) as u32,
    }
}

/// What parsing a date-time text returns: the spelled fields when the text
/// is well shaped and names a real date-time, nothing otherwise.
pub open spec fn spec_parse_date_time(s: Seq<char>, sep: char) -> Option<ForecastDateTime> {
    if date_time_text_wf(s, sep) && valid_date_time(date_time_of_text(s)) {
        Some(date_time_of_text(s))
    } else {
        None
    }
}

/// The canonical text of a date-time, `dddd-dd-dd<sep>dd:dd:dd`.
pub open spec fn date_time_text(dt: ForecastDateTime, sep: char) -> Seq<char> {
    seq![
        digit_char(dt.year as int / 1000),
        digit_char((dt.year as int / 100) % 10),
        digit_char((dt.year as int / 10) % 10),
        digit_char(dt.year as int % 10),
        '-',
        digit_char(dt.month as int / 10),
        digit_char(dt.month as int % 10),
        '-',
        digit_char(dt.day as int / 10),
        digit_char(dt.day as int % 10),
        sep,
        digit_char(dt.hour as int / 10),
        digit_char(dt.hour as int % 10),
        ':',
        digit_char(dt.minute as int / 10),
        digit_char(dt.minute as int % 10),
        ':',
        digit_char(dt.second as int / 10),
        digit_char(dt.second as int % 10),
    ]
}

/// Numeric value of one digit character.
pub fn digit_of(c: char) -> (r: u32)
    requires
        is_digit(c),
    ensures
        r == digit_val(c),
{
    (c as u8 - 48) as u32
}

/// The character of one decimal digit.
pub fn char_of_digit(d: u32) -> (r: char)
    requires
        d < 10,
    ensures
        r == digit_char(d as int),
{
    (48 + d as u8) as char
}

/// Executable leap-year rule, exact against the spec.
pub fn leap_year(y: u32) -> (r: bool)
    ensures
        r == is_leap_year(y as int),
{
    y % 4 == 0 && (y % 100 != 0 || y % 400 == 0)
}

/// Executable days-in-month, exact against the spec.
pub fn month_days(y: u32, m: u32) -> (r: u32)
    ensures
        r == days_in_month(y as int, m as int),
{
    if m == 1 || m == 3 || m == 5 || m == 7 || m == 8 || m == 10 || m == 12 {
        31
    } else if m == 4 || m == 6 || m == 9 || m == 11 {
        30
    } else if leap_year(y) {
        29
    } else {
        28
    }
}

impl ForecastDateTime {
    /// Whether the fields name a real calendar date and time of day.
    pub fn is_valid(&self) -> (r: bool)
        ensures
            r == valid_date_time(*self),
    {
        self.year <= 9999 && 1 <= self.month && self.month <= 12 && 1 <= self.day && self.day
            <= month_days(self.year, self.month) && self.hour < 24 && self.minute < 60
            && self.second < 60
    }
}

/// Parse a date-time text with the given separator between date and time.
/// Exactly the texts `spec_parse_date_time` accepts are accepted.
pub fn parse_date_time(s: &Vec<char>, sep: char) -> (r: Option<ForecastDateTime>)
    ensures
        r == spec_parse_date_time(s@, sep),
{
    if s.len() != 19 {
        return None;
    }
    let shape_ok = char_is_digit(s[0]) && char_is_digit(s[1]) && char_is_digit(s[2])
        && char_is_digit(s[3]) && s[4] == '-' && char_is_digit(s[5]) && char_is_digit(s[6]) && s[7]
        == '-' && char_is_digit(s[8]) && char_is_digit(s[9]) && s[10] == sep && char_is_digit(s[11])
        && char_is_digit(s[12]) && s[13] == ':' && char_is_digit(s[14]) && char_is_digit(s[15])
        && s[16] == ':' && char_is_digit(s[17]) && char_is_digit(s[18]);
    if !shape_ok {
        return None;
    }
    let dt = ForecastDateTime {
        year: digit_of(s[0]) * 1000 + digit_of(s[1]) * 100 + digit_of(s[2]) * 10 + digit_of(s[3]),
        month: digit_of(s[5]) * 10 + digit_of(s[6]),
        day: digit_of(s[8]) * 10 + digit_of(s[9]),
        hour: digit_of(s[11]) * 10 + digit_of(s[12]),
        minute: digit_of(s[14]) * 10 + digit_of(s[15]),
        second: digit_of(s[17]) * 10 + digit_of(s[18]),
    };
    if dt.is_valid() {
        Some(dt)
    } else {
        None
    }
}

/// Append the canonical text of a date-time, exact against `date_time_text`.
pub fn push_date_time(out: &mut Vec<char>, dt: &ForecastDateTime, sep: char)
    requires
        valid_date_time(*dt),
    ensures
        final(out)@ == old(out)@ + date_time_text(*dt, sep),
{
    out.push(char_of_digit(dt.year / 1000));
    out.push(char_of_digit((dt.year / 100) % 10));
    out.push(char_of_digit((dt.year / 10) % 10));
    out.push(char_of_digit(dt.year % 10));
    out.push('-');
    out.push(char_of_digit(dt.month / 10));
    out.push(char_of_digit(dt.month % 10));
    out.push('-');
    out.push(char_of_digit(dt.day / 10));
    out.push(char_of_digit(dt.day % 10));
    out.push(sep);
    out.push(char_of_digit(dt.hour / 10));
    out.push(char_of_digit(dt.hour % 10));
    out.push(':');
    out.push(char_of_digit(dt.minute / 10));
    out.push(char_of_digit(dt.minute % 10));
    out.push(':');
    out.push(char_of_digit(dt.second / 10));
    out.push(char_of_digit(dt.second % 10));
    proof {
        assert(final(out)@ =~= old(out)@ + date_time_text(*dt, sep));
    }
}

/// Parsing the canonical text of a valid date-time gives that date-time
/// back, whatever the separator.
pub proof fn lemma_date_time_round_trip(dt: ForecastDateTime, sep: char)
    requires
        valid_date_time(dt),
        !is_digit(sep),
    ensures
        spec_parse_date_time(date_time_text(dt, sep), sep) == Some(dt),
{
    let s = date_time_text(dt, sep);
    assert(date_time_text_wf(s, sep));
    lemma_two_digits(dt.month as int);
    lemma_two_digits(dt.day as int);
    lemma_two_digits(dt.hour as int);
    lemma_two_digits(dt.minute as int);
    lemma_two_digits(dt.second as int);
    lemma_four_digits(dt.year as int);
    assert(date_time_of_text(s) == dt);
}

/// A number under 100 is recovered from its two decimal digits.
pub proof fn lemma_two_digits(n: int)
    requires
        0 <= n < 100,
    ensures
        0 <= n / 10 < 10,
        0 <= n % 10 < 10,
        digit_val(digit_char(n / 10)) * 10 + digit_val(digit_char(n % 10)) == n,
{
}

/// A number under 10000 is recovered from its four decimal digits.
#[verifier::rlimit(60)]
pub proof fn lemma_four_digits(n: int)
    requires
        0 <= n < 10000,
    ensures
        0 <= n / 1000 < 10,
        0 <= (n / 100) % 10 < 10,
        0 <= (n / 10) % 10 < 10,
        0 <= n % 10 < 10,
        digit_val(digit_char(n / 1000)) * 1000 + digit_val(digit_char((n / 100) % 10)) * 100
            + digit_val(digit_char((n / 10) % 10)) * 10 + digit_val(digit_char(n % 10)) == n,
{
}

} // verus!
