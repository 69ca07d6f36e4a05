//! Readers for values that the service writes in more than one way, or in a format of its own.

use chrono::{Datelike, Timelike};
use vstd::prelude::*;
use vstd::string::StrSliceExecFns;
use crate::decimal::{digit_of, digit_value, is_digit};
use crate::decode::Decode;
use crate::error::{invalid, outcome, unexpected, DecodeError, DecodeErrorView};
use crate::faction::{State, StateView};
use crate::json::{tree, value_as_str, value_is_object, Json};

verus! {

/// A date and a time of day to the second, without a time zone.
#[derive(Debug, Clone, Copy, PartialEq, Eq)]
pub struct Timestamp {
    pub year: i32,
    pub month: u32,
    pub day: u32,
    pub hour: u32,
    pub minute: u32,
    pub second: u32,
}

impl DeepView for Timestamp {
    type V = Timestamp;

    open spec fn deep_view(&self) -> Timestamp {
        *self
    }
}

/// The number that the two digits at `i` and after it spell.
pub open spec fn pair_at(s: Seq<char>, i: int) -> nat {
    digit_value(s[i]) * 10 + digit_value(s[i + 1])
}

/// Whether the text has the form `YYYY-MM-DD HH:MM:SS`: nineteen characters, digits but for the
/// two hyphens, the space and the two colons.
pub open spec fn has_datetime_form(s: Seq<char>) -> bool {
    &&& s.len() == 19
    &&& is_digit(s[0]) && is_digit(s[1]) && is_digit(s[2]) && is_digit(s[3])
    &&& s[4] == '-'
    &&& is_digit(s[5]) && is_digit(s[6])
    &&& s[7] == '-'
    &&& is_digit(s[8]) && is_digit(s[9])
    &&& s[10] == ' '
    &&& is_digit(s[11]) && is_digit(s[12])
    &&& s[13] == ':'
    &&& is_digit(s[14]) && is_digit(s[15])
    &&& s[16] == ':'
    &&& is_digit(s[17]) && is_digit(s[18])
}

/// The year, month, day, hour, minute and second that a text of the form spells.
pub open spec fn spelled(s: Seq<char>) -> Timestamp
    recommends
        has_datetime_form(s),
{
    Timestamp {
        year: (pair_at(s, 0) * 100 + pair_at(s, 2)) as i32,
        month: pair_at(s, 5) as u32,
        day: pair_at(s, 8) as u32,
        hour: pair_at(s, 11) as u32,
        minute: pair_at(s, 14) as u32,
        second: pair_at(s, 17) as u32,
    }
}

/// Whether the year has a 29th of February.
pub open spec fn is_leap_year(year: int) -> bool {
    year % 4 == 0 && (year % 100 != 0 || year % 400 == 0)
}

/// The number of days of a month.
pub open spec fn days_in_month(year: int, month: int) -> int {
    if month == 2 {
        if is_leap_year(year) {
            29
        } else {
            28
        }
    } else if month == 4 || month == 6 || month == 9 || month == 11 {
        30
    } else {
        31
    }
}

/// Whether the fields name a day of the calendar, in the years 1 to 9999, and a time of that
/// day.
pub open spec fn in_calendar(t: Timestamp) -> bool {
    &&& 1 <= t.year <= 9999
    &&& 1 <= t.month <= 12
    &&& 1 <= t.day <= days_in_month(t.year as int, t.month as int)
    &&& t.hour <= 23
    &&& t.minute <= 59
    &&& t.second <= 59
}

/// The format in which the service writes a date and time, in `chrono`'s notation: the year
/// in four digits, then month, day, hour, minute and second in two digits each.
pub const DATETIME_FORMAT: &'static str = "%Y-%m-%d %H:%M:%S";

/// What `chrono` reads from a text in a format, if it reads anything.
pub uninterp spec fn chrono_reading(text: Seq<char>, format: Seq<char>) -> Option<Timestamp>;

/// `chrono::NaiveDateTime::parse_from_str`: the calendar fields of the date and time that it
/// reads from the text in the format, or nothing where it refuses the text. The result depends
/// on the text and the format alone. The format is [`DATETIME_FORMAT`], whose specifiers each
/// read their field as zero-padded decimal digits: a text of the form `YYYY-MM-DD HH:MM:SS`
/// that names a day of the calendar and a time of that day is read to the fields that it
/// spells.
#[verifier::external_body]
pub(crate) fn chrono_read(text: &str, format: &str) -> (r: Option<Timestamp>)
    requires
        format@ == DATETIME_FORMAT@,
    ensures
        r == chrono_reading(text@, format@),
        has_datetime_form(text@) && in_calendar(spelled(text@)) ==> r == Some(spelled(text@)),
{
    match chrono::NaiveDateTime::parse_from_str(text, format) {
        Ok(t) => Some(
            Timestamp {
                year: t.year(),
                month: t.month(),
                day: t.day(),
                hour: t.hour(),
                minute: t.minute(),
                second: t.second(),
            },
        ),
        Err(_) => None,
    }
}

/// What a text is as a date and time, given what `chrono` reads from it: the fields that it
/// spells, where it has the exact form, the fields name a day of the calendar and a time of
/// that day, and `chrono` reads those very fields; an invalid value that carries the text
/// otherwise.
pub open spec fn datetime_result(text: Seq<char>, reading: Option<Timestamp>) -> Result<
    Timestamp,
    DecodeErrorView,
> {
    if has_datetime_form(text) && in_calendar(spelled(text)) && reading == Some(spelled(text)) {
        Ok(spelled(text))
    } else {
        Err(DecodeErrorView::InvalidValue(text))
    }
}

/// What a text is as a date and time: the fields that it spells, where it has the exact form
/// and the fields name a day of the calendar and a time of that day; an invalid value that
/// carries the text otherwise.
pub open spec fn datetime_of(text: Seq<char>) -> Result<Timestamp, DecodeErrorView> {
    if has_datetime_form(text) && in_calendar(spelled(text)) {
        Ok(spelled(text))
    } else {
        Err(DecodeErrorView::InvalidValue(text))
    }
}

/// The two digits at `i` and after it, as a number; nothing where one of them is no digit.
fn pair(text: &str, i: usize) -> (r: Option<u32>)
    requires
        text@.len() == 19,
        i + 1 < 19,
    ensures
        r is Some == (is_digit(text@[i as int]) && is_digit(text@[i + 1])),
        r matches Some(n) ==> n == pair_at(text@, i as int) && n <= 99,
{
    let high = digit_of(text.get_char(i));
    let low = digit_of(text.get_char(i + 1));
    match (high, low) {
        (Some(h), Some(l)) => Some(h as u32 * 10 + l as u32),
        _ => None,
    }
}

/// The fields that a text of the exact form spells; nothing for any other text.
pub fn scan_datetime(text: &str) -> (r: Option<Timestamp>)
    ensures
        r is Some == has_datetime_form(text@),
        r matches Some(t) ==> t == spelled(text@),
{
    if text.unicode_len() != 19 {
        return None;
    }
    if text.get_char(4) != '-' || text.get_char(7) != '-' || text.get_char(10) != ' '
        || text.get_char(13) != ':' || text.get_char(16) != ':' {
        return None;
    }
    let century = pair(text, 0)?;
    let year = pair(text, 2)?;
    let month = pair(text, 5)?;
    let day = pair(text, 8)?;
    let hour = pair(text, 11)?;
    let minute = pair(text, 14)?;
    let second = pair(text, 17)?;
    Some(Timestamp { year: (century * 100 + year) as i32, month, day, hour, minute, second })
}

/// Decides what a text is as a date and time, given what `chrono` read from it.
pub fn check_datetime(text: &str, reading: Option<Timestamp>) -> (r: Result<
    Timestamp,
    DecodeError,
>)
    ensures
        outcome(r) == datetime_result(text@, reading),
        r matches Ok(t) ==> in_calendar(t),
{
    match (scan_datetime(text), reading) {
        (Some(scanned), Some(read)) => {
            if scanned.is_in_calendar() && scanned.year == read.year && scanned.month
                == read.month && scanned.day
                == read.day && scanned.hour == read.hour && scanned.minute == read.minute
                && scanned.second == read.second {
                Ok(scanned)
            } else {
                Err(invalid(text))
            }
        },
        _ => Err(invalid(text)),
    }
}

/// Reads a text of the exact form `YYYY-MM-DD HH:MM:SS`, date and time apart by one space, as a
/// date and time to the second. Any other text, and a text that names no date or time of the
/// calendar, is an invalid value that carries the text.
pub fn parse_datetime(text: &str) -> (r: Result<Timestamp, DecodeError>)
    ensures
        outcome(r) == datetime_of(text@),
        r matches Ok(t) ==> in_calendar(t),
{
    check_datetime(text, chrono_read(text, DATETIME_FORMAT))
}

impl Decode for Timestamp {
    /// A string that is a date and time.
    open spec fn decoded(j: Json) -> Result<Timestamp, DecodeErrorView> {
        match j.as_text() {
            Some(text) => datetime_of(text),
            None => Err(DecodeErrorView::UnexpectedShape("datetime"@)),
        }
    }

    /// The fields name a day of the calendar and a time of that day.
    open spec fn wf(&self) -> bool {
        in_calendar(*self)
    }

    fn from_value(v: &serde_json::Value) -> (r: Result<Timestamp, DecodeError>) {
        match value_as_str(v) {
            Some(text) => parse_datetime(text),
            None => Err(unexpected("datetime")),
        }
    }
}

/// Reads a date and time that the service writes as `YYYY-MM-DD HH:MM:SS`.
pub fn space_seperated_datetime(v: &serde_json::Value) -> (r: Result<Timestamp, DecodeError>)
    ensures
        outcome(r) == Timestamp::decoded(tree(*v)),
        r matches Ok(t) ==> in_calendar(t),
{
    Timestamp::from_value(v)
}

/// The character for a digit.
pub open spec fn digit_char(d: int) -> char
    recommends
        0 <= d <= 9,
{
    (48 + d) as char
}

/// Whether every field has as many digits as the form gives it: four for the year, two for
/// each of the others.
pub open spec fn fits_datetime_form(t: Timestamp) -> bool {
    &&& 0 <= t.year <= 9999
    &&& t.month <= 99
    &&& t.day <= 99
    &&& t.hour <= 99
    &&& t.minute <= 99
    &&& t.second <= 99
}

/// The two digits of a number below a hundred.
pub open spec fn pair_text(n: int) -> Seq<char>
    recommends
        0 <= n <= 99,
{
    seq![digit_char(n / 10), digit_char(n % 10)]
}

/// The text of the form `YYYY-MM-DD HH:MM:SS` that spells the fields.
pub open spec fn rendered(t: Timestamp) -> Seq<char>
    recommends
        fits_datetime_form(t),
{
    pair_text(t.year as int / 100) + pair_text(t.year as int % 100) + seq!['-'] + pair_text(
        t.month as int,
    ) + seq!['-'] + pair_text(t.day as int) + seq![' '] + pair_text(t.hour as int) + seq![':']
        + pair_text(t.minute as int) + seq![':'] + pair_text(t.second as int)
}

/// The text of a digit.
fn digit_text(d: u32) -> (r: &'static str)
    requires
        d <= 9,
    ensures
        r@ == seq![digit_char(d as int)],
{
    proof {
        reveal_strlit("0");
        reveal_strlit("1");
        reveal_strlit("2");
        reveal_strlit("3");
        reveal_strlit("4");
        reveal_strlit("5");
        reveal_strlit("6");
        reveal_strlit("7");
        reveal_strlit("8");
        reveal_strlit("9");
    }
    let r = if d == 0 {
        "0"
    } else if d == 1 {
        "1"
    } else if d == 2 {
        "2"
    } else if d == 3 {
        "3"
    } else if d == 4 {
        "4"
    } else if d == 5 {
        "5"
    } else if d == 6 {
        "6"
    } else if d == 7 {
        "7"
    } else if d == 8 {
        "8"
    } else {
        "9"
    };
    assert(r@ =~= seq![digit_char(d as int)]);
    r
}

/// Adds the two digits of a number below a hundred to a text.
fn push_pair(text: String, n: u32) -> (r: String)
    requires
        n <= 99,
    ensures
        r@ == text@ + pair_text(n as int),
{
    let r = text.concat(digit_text(n / 10)).concat(digit_text(n % 10));
    assert(r@ =~= text@ + pair_text(n as int));
    r
}

impl Timestamp {
    /// Whether the fields name a day of the calendar and a time of that day.
    pub fn is_in_calendar(&self) -> (r: bool)
        ensures
            r == in_calendar(*self),
    {
        if self.year < 1 || self.year > 9999 || self.month < 1 || self.month > 12 {
            return false;
        }
        let year = self.year as u32;
        let leap = year % 4 == 0 && (year % 100 != 0 || year % 400 == 0);
        let days: u32 = if self.month == 2 {
            if leap {
                29
            } else {
                28
            }
        } else if self.month == 4 || self.month == 6 || self.month == 9 || self.month == 11 {
            30
        } else {
            31
        };
        1 <= self.day && self.day <= days && self.hour <= 23 && self.minute <= 59 && self.second
            <= 59
    }

    /// Writes the date and time in the form `YYYY-MM-DD HH:MM:SS`; nothing where a field has
    /// more digits than the form gives it.
    pub fn to_text(&self) -> (r: Option<String>)
        ensures
            r is Some == fits_datetime_form(*self),
            r matches Some(text) ==> text@ == rendered(*self),
    {
        if self.year < 0 || self.year > 9999 || self.month > 99 || self.day > 99 || self.hour > 99
            || self.minute > 99 || self.second > 99 {
            return None;
        }
        let year = self.year as u32;
        proof {
            reveal_strlit("-");
            reveal_strlit(" ");
            reveal_strlit(":");
            assert("-"@ =~= seq!['-']);
            assert(" "@ =~= seq![' ']);
            assert(":"@ =~= seq![':']);
        }
        let text = push_pair(String::new(), year / 100);
        assert(text@ =~= pair_text(self.year as int / 100));
        let text = push_pair(text, year % 100).concat("-");
        let text = push_pair(text, self.month).concat("-");
        let text = push_pair(text, self.day).concat(" ");
        let text = push_pair(text, self.hour).concat(":");
        let text = push_pair(text, self.minute).concat(":");
        let text = push_pair(text, self.second);
        Some(text)
    }
}

/// The characters of the text that is written for the fields, one by one.
proof fn lemma_rendered_chars(t: Timestamp)
    ensures
        ({
            let s = rendered(t);
            &&& s.len() == 19
            &&& s[0] == digit_char(t.year as int / 100 / 10)
            &&& s[1] == digit_char(t.year as int / 100 % 10)
            &&& s[2] == digit_char(t.year as int % 100 / 10)
            &&& s[3] == digit_char(t.year as int % 100 % 10)
            &&& s[4] == '-'
            &&& s[5] == digit_char(t.month as int / 10)
            &&& s[6] == digit_char(t.month as int % 10)
            &&& s[7] == '-'
            &&& s[8] == digit_char(t.day as int / 10)
            &&& s[9] == digit_char(t.day as int % 10)
            &&& s[10] == ' '
            &&& s[11] == digit_char(t.hour as int / 10)
            &&& s[12] == digit_char(t.hour as int % 10)
            &&& s[13] == ':'
            &&& s[14] == digit_char(t.minute as int / 10)
            &&& s[15] == digit_char(t.minute as int % 10)
            &&& s[16] == ':'
            &&& s[17] == digit_char(t.second as int / 10)
            &&& s[18] == digit_char(t.second as int % 10)
        }),
{
    let s2 = pair_text(t.year as int / 100);
    let s4 = s2 + pair_text(t.year as int % 100);
    let s5 = s4 + seq!['-'];
    let s7 = s5 + pair_text(t.month as int);
    let s8 = s7 + seq!['-'];
    let s10 = s8 + pair_text(t.day as int);
    let s11 = s10 + seq![' '];
    let s13 = s11 + pair_text(t.hour as int);
    let s14 = s13 + seq![':'];
    let s16 = s14 + pair_text(t.minute as int);
    let s17 = s16 + seq![':'];
    let s19 = s17 + pair_text(t.second as int);
    assert(s2.len() == 2);
    assert(s4.len() == 4 && s4[0] == s2[0] && s4[1] == s2[1]);
    assert(s5.len() == 5 && forall|i: int| 0 <= i < 4 ==> s5[i] == s4[i]);
    assert(s7.len() == 7 && forall|i: int| 0 <= i < 5 ==> s7[i] == s5[i]);
    assert(s8.len() == 8 && forall|i: int| 0 <= i < 7 ==> s8[i] == s7[i]);
    assert(s10.len() == 10 && forall|i: int| 0 <= i < 8 ==> s10[i] == s8[i]);
    assert(s11.len() == 11 && forall|i: int| 0 <= i < 10 ==> s11[i] == s10[i]);
    assert(s13.len() == 13 && forall|i: int| 0 <= i < 11 ==> s13[i] == s11[i]);
    assert(s14.len() == 14 && forall|i: int| 0 <= i < 13 ==> s14[i] == s13[i]);
    assert(s16.len() == 16 && forall|i: int| 0 <= i < 14 ==> s16[i] == s14[i]);
    assert(s17.len() == 17 && forall|i: int| 0 <= i < 16 ==> s17[i] == s16[i]);
    assert(s19.len() == 19 && forall|i: int| 0 <= i < 17 ==> s19[i] == s17[i]);
    assert(rendered(t) == s19);
}

/// A digit's character is the character of the digit's value.
proof fn lemma_digit_char(c: char)
    requires
        is_digit(c),
    ensures
        digit_value(c) <= 9,
        digit_char(digit_value(c) as int) == c,
{
}

/// The two digits of the number that two digits spell are those digits.
proof fn lemma_pair_digits(a: char, b: char)
    requires
        is_digit(a),
        is_digit(b),
    ensures
        digit_value(a) * 10 + digit_value(b) <= 99,
        digit_char((digit_value(a) * 10 + digit_value(b)) as int / 10) == a,
        digit_char((digit_value(a) * 10 + digit_value(b)) as int % 10) == b,
{
    lemma_digit_char(a);
    lemma_digit_char(b);
}

/// Fields that fit the form are spelled by the text that is written for them.
pub proof fn lemma_rendered_is_read_back(t: Timestamp)
    requires
        fits_datetime_form(t),
    ensures
        has_datetime_form(rendered(t)),
        spelled(rendered(t)) == t,
{
    lemma_rendered_chars(t);
}

/// A text of the form is the text that is written for the fields that it spells.
pub proof fn lemma_spelled_is_written_back(text: Seq<char>)
    requires
        has_datetime_form(text),
    ensures
        fits_datetime_form(spelled(text)),
        rendered(spelled(text)) == text,
{
    lemma_pair_digits(text[0], text[1]);
    lemma_pair_digits(text[2], text[3]);
    lemma_pair_digits(text[5], text[6]);
    lemma_pair_digits(text[8], text[9]);
    lemma_pair_digits(text[11], text[12]);
    lemma_pair_digits(text[14], text[15]);
    lemma_pair_digits(text[17], text[18]);
    let t = spelled(text);
    let written = rendered(t);
    lemma_rendered_chars(t);
    let high = pair_at(text, 0) as int;
    let low = pair_at(text, 2) as int;
    assert(t.year as int == high * 100 + low);
    assert(t.year as int / 100 == high && t.year as int % 100 == low);
    assert(t.month as int == pair_at(text, 5));
    assert(t.day as int == pair_at(text, 8));
    assert(t.hour as int == pair_at(text, 11));
    assert(t.minute as int == pair_at(text, 14));
    assert(t.second as int == pair_at(text, 17));
    assert(written =~= text);
}

/// Every text of the exact form that names a day of the calendar and a time of that day is
/// read to the fields that it spells, which written out are the text again; and every other
/// text is refused as an invalid value that carries the text.
pub proof fn lemma_datetime_reads_what_is_spelled(text: Seq<char>)
    ensures
        has_datetime_form(text) && in_calendar(spelled(text)) ==> datetime_of(text) == Ok::<
            Timestamp,
            DecodeErrorView,
        >(spelled(text)) && rendered(spelled(text)) == text,
        !has_datetime_form(text) || !in_calendar(spelled(text)) ==> datetime_of(text) == Err::<
            Timestamp,
            DecodeErrorView,
        >(DecodeErrorView::InvalidValue(text)),
{
    if has_datetime_form(text) {
        lemma_spelled_is_written_back(text);
    }
}

/// The date and time that is written for fields of the calendar is read to those fields.
pub proof fn lemma_written_is_read(t: Timestamp)
    requires
        in_calendar(t),
    ensures
        datetime_of(rendered(t)) == Ok::<Timestamp, DecodeErrorView>(t),
{
    lemma_rendered_is_read_back(t);
}

/// A kind of record that has a short form: a text that stands for the whole record.
pub trait FromText: Decode {
    /// The record that a text stands for.
    spec fn short_for(text: Seq<char>) -> Self::V;

    /// Makes the record that the text stands for.
    fn from_text(text: &str) -> (r: Self)
        ensures
            r.deep_view() == Self::short_for(text@),
            r.wf(),
    ;
}

impl FromText for String {
    open spec fn short_for(text: Seq<char>) -> Seq<char> {
        text
    }

    fn from_text(text: &str) -> (r: String) {
        text.to_owned()
    }
}

impl FromText for State {
    /// The text is the state's name.
    open spec fn short_for(text: Seq<char>) -> StateView {
        StateView { state: text }
    }

    fn from_text(text: &str) -> (r: State) {
        State { state: text.to_owned() }
    }
}

/// What a document is as a record that the service writes either in its short form, as a
/// string, or in full, as an object.
pub open spec fn string_or_struct_of<T: FromText>(j: Json) -> Result<T::V, DecodeErrorView> {
    match j {
        Json::Text(text) => Ok(T::short_for(text)),
        Json::Object(_) => T::decoded(j),
        _ => Err(DecodeErrorView::UnexpectedShape("string or map"@)),
    }
}

/// Reads a record that the service writes either as a string or as an object.
pub fn string_or_struct<T: FromText>(v: &serde_json::Value) -> (r: Result<T, DecodeError>)
    ensures
        outcome(r) == string_or_struct_of::<T>(tree(*v)),
        r matches Ok(record) ==> record.wf(),
{
    match value_as_str(v) {
        Some(text) => Ok(T::from_text(text)),
        None => {
            if value_is_object(v) {
                T::from_value(v)
            } else {
                Err(unexpected("string or map"))
            }
        },
    }
}

} // verus!
