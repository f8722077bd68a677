//! The date that a normalized file name carries: its second `_`-separated
//! segment, read as `YYYYMMDD`.
use vstd::prelude::*;
use crate::calendar::{is_valid_ymd, Date};

verus! {

/// Index of the first underscore of `s` at or after `from`, or `s.len()`.
pub open spec fn underscore_from(s: Seq<char>, from: int) -> int
    decreases s.len() - from,
{
    if from < 0 || from >= s.len() {
        s.len() as int
    } else if s[from] == '_' {
        from
    } else {
        underscore_from(s, from + 1)
    }
}

/// The second segment of `s` split on `_`, if `s` holds an underscore.
pub open spec fn second_segment(s: Seq<char>) -> Option<Seq<char>> {
    let i = underscore_from(s, 0);
    if i >= s.len() {
        None
    } else {
        Some(s.subrange(i + 1, underscore_from(s, i + 1)))
    }
}

pub open spec fn is_ascii_digit(c: char) -> bool {
    '0' <= c <= '9'
}

pub open spec fn digit_value(c: char) -> int {
    (c as u32) as int - ('0' as u32) as int
}

/// The number that the decimal digits `s[from..to]` write.
pub open spec fn digits_value(s: Seq<char>, from: int, to: int) -> int
    decreases to - from,
{
    if to <= from {
        0
    } else {
        digits_value(s, from, to - 1) * 10 + digit_value(s[to - 1])
    }
}

pub open spec fn is_eight_digits(s: Seq<char>) -> bool {
    s.len() == 8 && forall|i: int| 0 <= i < 8 ==> is_ascii_digit(#[trigger] s[i])
}

pub open spec fn token_year(s: Seq<char>) -> int {
    digits_value(s, 0, 4)
}

pub open spec fn token_month(s: Seq<char>) -> int {
    digits_value(s, 4, 6)
}

pub open spec fn token_day(s: Seq<char>) -> int {
    digits_value(s, 6, 8)
}

/// Why a date token was refused.
#[derive(Clone, Copy, Debug, PartialEq, Eq, Structural)]
pub enum DateParseError {
    /// The token is not exactly eight ASCII digits.
    NotEightDigits,
    /// The digits do not name a day of the calendar (month 13, February 30).
    NotACalendarDate,
}

/// The result of reading `s` as `YYYYMMDD`.
pub open spec fn parse_date_spec(s: Seq<char>) -> Result<Date, DateParseError> {
    if !is_eight_digits(s) {
        Err(DateParseError::NotEightDigits)
    } else if !is_valid_ymd(token_year(s), token_month(s), token_day(s)) {
        Err(DateParseError::NotACalendarDate)
    } else {
        Ok(Date { year: token_year(s) as i32, month: token_month(s) as u32, day: token_day(s) as u32 })
    }
}

pub open spec fn pow10(n: int) -> int
    decreases n,
{
    if n <= 0 {
        1
    } else {
        10 * pow10(n - 1)
    }
}

proof fn lemma_digits_bounds(s: Seq<char>, from: int, to: int)
    requires
        0 <= from <= to <= s.len(),
        forall|i: int| from <= i < to ==> is_ascii_digit(#[trigger] s[i]),
    ensures
        0 <= digits_value(s, from, to) < pow10(to - from),
    decreases to - from,
{
    if to > from {
        lemma_digits_bounds(s, from, to - 1);
        let v = digits_value(s, from, to - 1);
        let p = pow10(to - 1 - from);
        let d = digit_value(s[to - 1]);
        assert(is_ascii_digit(s[to - 1]));
        assert(0 <= d <= 9);
        assert(0 <= v * 10 + d < 10 * p) by (nonlinear_arith)
            requires
                0 <= v < p,
                0 <= d <= 9,
        ;
    }
}

/// Relies on chrono::NaiveDate::parse_from_str with the format `%Y%m%d`: on
/// eight ASCII digits it reads four digits of year, two of month and two of
/// day, and succeeds exactly when they form a valid date.
#[verifier::external_body]
fn chrono_parse_ymd(token: &str) -> (r: Option<Date>)
    requires
        is_eight_digits(token@),
    ensures
        r is Some <==> is_valid_ymd(token_year(token@), token_month(token@), token_day(token@)),
        r matches Some(d) ==> d.year == token_year(token@) && d.month == token_month(token@)
            && d.day == token_day(token@),
{
    chrono::NaiveDate::parse_from_str(token, "%Y%m%d").ok().map(
        |d| Date {
            year: chrono::Datelike::year(&d),
            month: chrono::Datelike::month(&d),
            day: chrono::Datelike::day(&d),
        },
    )
}

/// Index of the first underscore of `s` at or after `from`, or its length.
fn find_underscore(s: &str, n: usize, from: usize) -> (r: usize)
    requires
        n == s@.len(),
        from <= n,
    ensures
        r == underscore_from(s@, from as int),
        from <= r <= n,
{
    let mut i = from;
    while i < n
        invariant
            n == s@.len(),
            from <= i <= n,
            underscore_from(s@, i as int) == underscore_from(s@, from as int),
        decreases n - i,
    {
        if s.get_char(i) == '_' {
            return i;
        }
        i = i + 1;
    }
    i
}

/// The date token of a normalized name, if the name holds an underscore.
pub fn date_token(file_name: &str) -> (r: Option<&str>)
    ensures
        r matches Some(t) ==> second_segment(file_name@) == Some(t@),
        r is None <==> second_segment(file_name@) is None,
{
    let n = file_name.unicode_len();
    let i = find_underscore(file_name, n, 0);
    if i >= n {
        None
    } else {
        let j = find_underscore(file_name, n, i + 1);
        Some(file_name.substring_char(i + 1, j))
    }
}

/// The second `_`-separated segment of a normalized name.
pub fn extract_date_from_normalized_file_name(file_name: &str) -> (r: &str)
    requires
        second_segment(file_name@) is Some,
    ensures
        second_segment(file_name@) == Some(r@),
{
    match date_token(file_name) {
        Some(t) => t,
        None => file_name,
    }
}

/// Reads an eight-digit token as `YYYYMMDD`.
pub fn parse_normalized_date(date_str: &str) -> (r: Result<Date, DateParseError>)
    ensures
        r == parse_date_spec(date_str@),
        r matches Ok(d) ==> d.wf(),
{
    let n = date_str.unicode_len();
    if n != 8 {
        return Err(DateParseError::NotEightDigits);
    }
    let mut i: usize = 0;
    while i < 8
        invariant
            n == 8 == date_str@.len(),
            i <= 8,
            forall|k: int| 0 <= k < i ==> is_ascii_digit(#[trigger] date_str@[k]),
        decreases 8 - i,
    {
        let c = date_str.get_char(i);
        if !('0' <= c && c <= '9') {
            return Err(DateParseError::NotEightDigits);
        }
        i = i + 1;
    }
    proof {
        lemma_digits_bounds(date_str@, 0, 4);
        lemma_digits_bounds(date_str@, 4, 6);
        lemma_digits_bounds(date_str@, 6, 8);
        reveal_with_fuel(pow10, 5);
    }
    match chrono_parse_ymd(date_str) {
        Some(d) => Ok(d),
        None => Err(DateParseError::NotACalendarDate),
    }
}

/// Whether `parsed_date` lies strictly after `today`; today itself is not
/// in the future.
pub fn is_future_date(parsed_date: Date, today: Date) -> (r: bool)
    ensures
        r == today.precedes(parsed_date),
{
    parsed_date.is_after(&today)
}

} // verus!
