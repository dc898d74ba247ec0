//! Cell values and the rules that decode them from the text of a document.

use vstd::prelude::*;
use vstd::string::*;
use chrono::{Datelike, Timelike};
use crate::error::{OdsError, OdsErrorView};
use crate::refs::{cell_name, cell_ref};
use crate::strs::{
    chars_of, digit_value, is_digit, is_float, is_float_text, opt_text, str_eq,
};

verus! {

/// The value types that a cell or a value format can declare.
#[derive(Debug, Clone, Copy, PartialEq, Eq, Structural)]
pub enum ValueType {
    Empty,
    Boolean,
    Number,
    Percentage,
    Currency,
    Text,
    DateTime,
    TimeDuration,
}

/// A calendar date.
#[derive(Debug, Clone, Copy, PartialEq, Eq, Structural)]
pub struct Date {
    pub year: i32,
    pub month: u32,
    pub day: u32,
}

/// A time of day.
#[derive(Debug, Clone, Copy, PartialEq, Eq, Structural)]
pub struct Time {
    pub hour: u32,
    pub minute: u32,
    pub second: u32,
    pub nanosecond: u32,
}

/// A timestamp without a time zone.
#[derive(Debug, Clone, Copy, PartialEq, Eq, Structural)]
pub struct DateTime {
    pub date: Date,
    pub time: Time,
}

/// A span of time, forward or backward: whole seconds, and the nanoseconds
/// that are added to them.
#[derive(Debug, Clone, Copy, PartialEq, Eq, Structural)]
pub struct TimeDuration {
    pub seconds: i64,
    pub nanoseconds: u32,
}

/// The value of a cell. A number is kept as the document writes it, a text
/// that is known to write a floating point number.
#[derive(Debug, Clone, PartialEq, Eq)]
pub enum Value {
    Empty,
    Boolean(bool),
    Number(String),
    Percentage(String),
    /// The currency code, then the amount.
    Currency(String, String),
    Text(String),
    DateTime(DateTime),
    TimeDuration(TimeDuration),
}

/// The model of a [`Value`].
pub ghost enum ValueView {
    Empty,
    Boolean(bool),
    Number(Seq<char>),
    Percentage(Seq<char>),
    Currency(Seq<char>, Seq<char>),
    Text(Seq<char>),
    DateTime(DateTime),
    TimeDuration(TimeDuration),
}

impl View for Value {
    type V = ValueView;

    open spec fn view(&self) -> ValueView {
        match self {
            Value::Empty => ValueView::Empty,
            Value::Boolean(b) => ValueView::Boolean(*b),
            Value::Number(n) => ValueView::Number(n@),
            Value::Percentage(n) => ValueView::Percentage(n@),
            Value::Currency(c, n) => ValueView::Currency(c@, n@),
            Value::Text(t) => ValueView::Text(t@),
            Value::DateTime(d) => ValueView::DateTime(*d),
            Value::TimeDuration(d) => ValueView::TimeDuration(*d),
        }
    }
}

impl Value {
    /// The text of a text value, `default` for every other value.
    pub fn as_str_or<'a>(&'a self, default: &'a str) -> (r: &'a str)
        ensures
            r@ == (match self@ {
                ValueView::Text(t) => t,
                _ => default@,
            }),
    {
        match self {
            Value::Text(t) => t.as_str(),
            _ => default,
        }
    }

    /// A copy of the value.
    pub fn copy(&self) -> (r: Value)
        ensures
            r@ == self@,
    {
        match self {
            Value::Empty => Value::Empty,
            Value::Boolean(b) => Value::Boolean(*b),
            Value::Number(n) => Value::Number(n.clone()),
            Value::Percentage(n) => Value::Percentage(n.clone()),
            Value::Currency(c, n) => Value::Currency(c.clone(), n.clone()),
            Value::Text(t) => Value::Text(t.clone()),
            Value::DateTime(d) => Value::DateTime(*d),
            Value::TimeDuration(d) => Value::TimeDuration(*d),
        }
    }
}

/// The first instant of a day.
pub open spec fn midnight() -> Time {
    Time { hour: 0, minute: 0, second: 0, nanosecond: 0 }
}

/// The timestamp at which the day `date` begins.
pub fn date_at_midnight(date: Date) -> (r: DateTime)
    ensures
        r == (DateTime { date, time: midnight() }),
{
    DateTime { date, time: Time { hour: 0, minute: 0, second: 0, nanosecond: 0 } }
}

/// The format of a date value.
pub open spec fn date_format() -> Seq<char> {
    "%Y-%m-%d"@
}

/// The format of a timestamp value.
pub open spec fn datetime_format() -> Seq<char> {
    "%Y-%m-%dT%H:%M:%S%.f"@
}

/// The date that chrono reads from `text` under the format `format`, `None`
/// where it reports an error.
pub uninterp spec fn chrono_date(text: Seq<char>, format: Seq<char>) -> Option<Date>;

/// The timestamp that chrono reads from `text` under the format `format`,
/// `None` where it reports an error.
pub uninterp spec fn chrono_datetime(text: Seq<char>, format: Seq<char>) -> Option<DateTime>;

/// Calls `chrono::NaiveDate::parse_from_str` and hands out the year, month and
/// day of the date it returns, or its error. Nothing is claimed of which texts
/// are dates: the contract only gives the outcome a name. The format is
/// the one of date values.
#[verifier::external_body]
fn chrono_parse_date(text: &str, format: &str) -> (r: Result<Date, chrono::ParseError>)
    requires
        format@ == date_format(),
    ensures
        match r {
            Ok(d) => chrono_date(text@, format@) == Some(d),
            Err(_) => chrono_date(text@, format@) is None,
        },
{
    match chrono::NaiveDate::parse_from_str(text, format) {
        Ok(d) => Ok(Date { year: d.year(), month: d.month(), day: d.day() }),
        Err(e) => Err(e),
    }
}

/// Calls `chrono::NaiveDateTime::parse_from_str` and hands out the fields of
/// the timestamp it returns, or its error. Nothing is claimed of which texts
/// are timestamps: the contract only gives the outcome a name. The format
/// is the one of timestamp values.
#[verifier::external_body]
fn chrono_parse_datetime(text: &str, format: &str) -> (r: Result<DateTime, chrono::ParseError>)
    requires
        format@ == datetime_format(),
    ensures
        match r {
            Ok(d) => chrono_datetime(text@, format@) == Some(d),
            Err(_) => chrono_datetime(text@, format@) is None,
        },
{
    match chrono::NaiveDateTime::parse_from_str(text, format) {
        Ok(d) => Ok(
            DateTime {
                date: Date { year: d.year(), month: d.month(), day: d.day() },
                time: Time {
                    hour: d.hour(),
                    minute: d.minute(),
                    second: d.second(),
                    nanosecond: d.nanosecond(),
                },
            },
        ),
        Err(e) => Err(e),
    }
}

/// The timestamp that a date value stands for: a text of exactly ten
/// characters is a date and means its midnight, every other text is a full
/// timestamp. `None` where the text is neither.
pub open spec fn decoded_datetime(text: Seq<char>) -> Option<DateTime> {
    if text.len() == 10 {
        match chrono_date(text, date_format()) {
            Some(date) => Some(DateTime { date, time: midnight() }),
            None => None,
        }
    } else {
        chrono_datetime(text, datetime_format())
    }
}

/// Decodes a date value.
pub fn parse_datetime(text: &str) -> (r: Result<DateTime, OdsError>)
    ensures
        match r {
            Ok(d) => decoded_datetime(text@) == Some(d),
            Err(e) => decoded_datetime(text@) is None && e@ == OdsErrorView::Chrono,
        },
{
    if text.unicode_len() == 10 {
        match chrono_parse_date(text, "%Y-%m-%d") {
            Ok(date) => Ok(date_at_midnight(date)),
            Err(e) => Err(OdsError::Chrono(e)),
        }
    } else {
        match chrono_parse_datetime(text, "%Y-%m-%dT%H:%M:%S%.f") {
            Ok(d) => Ok(d),
            Err(e) => Err(OdsError::Chrono(e)),
        }
    }
}

/// The fields gathered while a duration text is scanned.
pub ghost struct DurationFields {
    pub hour: nat,
    pub minute: nat,
    pub second: nat,
    pub nanos: nat,
    pub nano_digits: nat,
    pub have_hour: bool,
    pub have_minute: bool,
    pub have_second: bool,
}

/// The fields after one more character. A digit extends the field being
/// read: the hours until an `H` was seen, then the minutes until an `M`, then
/// the seconds until a `.`, then the fraction. Every other character is
/// passed over.
pub open spec fn duration_step(st: DurationFields, c: char) -> DurationFields {
    if is_digit(c) {
        let d = digit_value(c);
        if !st.have_hour {
            DurationFields { hour: st.hour * 10 + d, ..st }
        } else if !st.have_minute {
            DurationFields { minute: st.minute * 10 + d, ..st }
        } else if !st.have_second {
            DurationFields { second: st.second * 10 + d, ..st }
        } else {
            DurationFields { nanos: st.nanos * 10 + d, nano_digits: st.nano_digits + 1, ..st }
        }
    } else if c == 'H' {
        DurationFields { have_hour: true, ..st }
    } else if c == 'M' {
        DurationFields { have_minute: true, ..st }
    } else if c == '.' {
        DurationFields { have_second: true, ..st }
    } else {
        st
    }
}

/// The fields of a whole duration text, scanned from its start.
pub open spec fn duration_fields(text: Seq<char>) -> DurationFields
    decreases text.len(),
{
    if text.len() == 0 {
        DurationFields {
            hour: 0,
            minute: 0,
            second: 0,
            nanos: 0,
            nano_digits: 0,
            have_hour: false,
            have_minute: false,
            have_second: false,
        }
    } else {
        duration_step(duration_fields(text.drop_last()), text.last())
    }
}

/// A fraction of `digits` digits brought to nine digits by zeros on the
/// right; one of nine or more digits stays as it is.
pub open spec fn padded_nanos(nanos: nat, digits: nat) -> nat
    decreases 9 - digits,
{
    if digits >= 9 {
        nanos
    } else {
        padded_nanos(nanos * 10, digits + 1)
    }
}

/// The duration that a duration text stands for: hours, minutes and seconds
/// summed up in seconds, with the nanoseconds of the fraction. `None` where a
/// field does not fit in 32 bits.
pub open spec fn decoded_duration(text: Seq<char>) -> Option<TimeDuration> {
    let f = duration_fields(text);
    let n = padded_nanos(f.nanos, f.nano_digits);
    if f.hour <= u32::MAX && f.minute <= u32::MAX && f.second <= u32::MAX && n <= u32::MAX {
        Some(
            TimeDuration {
                seconds: (f.hour * 3600 + f.minute * 60 + f.second + n / 1_000_000_000) as i64,
                nanoseconds: (n % 1_000_000_000) as u32,
            },
        )
    } else {
        None
    }
}

/// Padding never makes a fraction smaller.
pub proof fn lemma_padded_nanos_grows(nanos: nat, digits: nat)
    ensures
        padded_nanos(nanos, digits) >= nanos,
    decreases 9 - digits,
{
    if digits < 9 {
        lemma_padded_nanos_grows(nanos * 10, digits + 1);
    }
}

/// No field of a scanned prefix exceeds the field of the whole text.
pub proof fn lemma_duration_fields_grow(text: Seq<char>, i: int)
    requires
        0 <= i <= text.len(),
    ensures
        duration_fields(text.take(i)).hour <= duration_fields(text).hour,
        duration_fields(text.take(i)).minute <= duration_fields(text).minute,
        duration_fields(text.take(i)).second <= duration_fields(text).second,
        duration_fields(text.take(i)).nanos <= duration_fields(text).nanos,
    decreases text.len() - i,
{
    if i == text.len() {
        assert(text.take(i) =~= text);
    } else {
        lemma_duration_fields_grow(text, i + 1);
        assert(text.take(i + 1).drop_last() =~= text.take(i));
    }
}

/// Decodes a duration text such as `PT1H30M0.5S`.
pub fn parse_duration(text: &str) -> (r: Result<TimeDuration, OdsError>)
    ensures
        match r {
            Ok(d) => decoded_duration(text@) == Some(d),
            Err(e) => decoded_duration(text@) is None && e@ == OdsErrorView::Duration(text@),
        },
{
    let chars = chars_of(text);
    let n = chars.len();
    let mut hour: u32 = 0;
    let mut minute: u32 = 0;
    let mut second: u32 = 0;
    let mut nanos: u32 = 0;
    let mut digits: usize = 0;
    let mut have_hour = false;
    let mut have_minute = false;
    let mut have_second = false;
    let mut i: usize = 0;
    assert(chars@.take(0) =~= Seq::<char>::empty());
    while i < n
        invariant
            chars@ == text@,
            n == chars@.len(),
            0 <= i <= n,
            digits <= i,
            duration_fields(chars@.take(i as int)) == (DurationFields {
                hour: hour as nat,
                minute: minute as nat,
                second: second as nat,
                nanos: nanos as nat,
                nano_digits: digits as nat,
                have_hour,
                have_minute,
                have_second,
            }),
        decreases n - i,
    {
        let c = chars[i];
        proof {
            assert(chars@.take(i + 1).drop_last() =~= chars@.take(i as int));
            assert(chars@.take(i + 1).last() == c);
            lemma_duration_fields_grow(chars@, i + 1);
            lemma_padded_nanos_grows(
                duration_fields(chars@).nanos,
                duration_fields(chars@).nano_digits,
            );
        }
        if '0' <= c && c <= '9' {
            let d: u32 = c as u32 - '0' as u32;
            if !have_hour {
                if hour > (u32::MAX - d) / 10 {
                    return Err(OdsError::Duration(text.to_owned()));
                }
                hour = hour * 10 + d;
            } else if !have_minute {
                if minute > (u32::MAX - d) / 10 {
                    return Err(OdsError::Duration(text.to_owned()));
                }
                minute = minute * 10 + d;
            } else if !have_second {
                if second > (u32::MAX - d) / 10 {
                    return Err(OdsError::Duration(text.to_owned()));
                }
                second = second * 10 + d;
            } else {
                if nanos > (u32::MAX - d) / 10 {
                    return Err(OdsError::Duration(text.to_owned()));
                }
                nanos = nanos * 10 + d;
                digits += 1;
            }
        } else if c == 'H' {
            have_hour = true;
        } else if c == 'M' {
            have_minute = true;
        } else if c == '.' {
            have_second = true;
        }
        i += 1;
    }
    assert(chars@.take(n as int) =~= chars@);
    let ghost f = duration_fields(text@);
    while digits < 9
        invariant
            f == duration_fields(text@),
            f.hour == hour,
            f.minute == minute,
            f.second == second,
            padded_nanos(nanos as nat, digits as nat) == padded_nanos(f.nanos, f.nano_digits),
        decreases 9 - digits,
    {
        if nanos > u32::MAX / 10 {
            proof {
                lemma_padded_nanos_grows((nanos * 10) as nat, (digits + 1) as nat);
            }
            return Err(OdsError::Duration(text.to_owned()));
        }
        nanos = nanos * 10;
        digits += 1;
    }
    let seconds: i64 = hour as i64 * 3600 + minute as i64 * 60 + second as i64 + (nanos
        / 1_000_000_000) as i64;
    Ok(TimeDuration { seconds, nanoseconds: nanos % 1_000_000_000 })
}

/// The text of the error for a cell that declares a type and has no value.
pub open spec fn missing_value_message(row: u32, col: u32, kind: Seq<char>) -> Seq<char> {
    cell_name(row as nat, col as nat) + " has type "@ + kind + ", but no value!"@
}

/// The error for the cell at (`row`, `col`) that declares the type `kind` and
/// has no value.
pub fn missing_value(row: u32, col: u32, kind: &str) -> (r: OdsError)
    ensures
        r@ == OdsErrorView::Ods(missing_value_message(row, col, kind@)),
{
    let mut msg = cell_ref(row, col);
    msg.append(" has type ");
    msg.append(kind);
    msg.append(", but no value!");
    OdsError::Ods(msg)
}

/// The outcome of decoding a value or of failing to, as models.
pub open spec fn value_result(r: Result<Value, OdsError>) -> Result<ValueView, OdsErrorView> {
    match r {
        Ok(v) => Ok(v@),
        Err(e) => Err(e@),
    }
}

/// The value of a cell, from the type it declares, the value attribute, the
/// text content and the currency attribute, each as far as it is present.
///
/// A cell without a declared type is empty. A text cell takes its content. A
/// cell of every other type needs the value attribute, a currency cell the
/// currency too; without them the error names the cell. A number, a
/// percentage and the amount of a currency must write a floating point
/// number.
pub open spec fn decoded_value(
    value_type: Option<ValueType>,
    value: Option<Seq<char>>,
    content: Option<Seq<char>>,
    currency: Option<Seq<char>>,
    row: u32,
    col: u32,
) -> Result<ValueView, OdsErrorView> {
    match value_type {
        None => Ok(ValueView::Empty),
        Some(ValueType::Empty) => Ok(ValueView::Empty),
        Some(ValueType::Text) => match content {
            Some(c) => Ok(ValueView::Text(c)),
            None => Ok(ValueView::Text(Seq::empty())),
        },
        Some(ValueType::Number) => match value {
            Some(v) => if is_float_text(v) {
                Ok(ValueView::Number(v))
            } else {
                Err(OdsErrorView::ParseFloat(v))
            },
            None => Err(OdsErrorView::Ods(missing_value_message(row, col, "number"@))),
        },
        Some(ValueType::Percentage) => match value {
            Some(v) => if is_float_text(v) {
                Ok(ValueView::Percentage(v))
            } else {
                Err(OdsErrorView::ParseFloat(v))
            },
            None => Err(OdsErrorView::Ods(missing_value_message(row, col, "percentage"@))),
        },
        Some(ValueType::Currency) => match value {
            Some(v) => if !is_float_text(v) {
                Err(OdsErrorView::ParseFloat(v))
            } else {
                match currency {
                    Some(c) => Ok(ValueView::Currency(c, v)),
                    None => Err(
                        OdsErrorView::Ods(missing_value_message(row, col, "currency"@)),
                    ),
                }
            },
            None => Err(OdsErrorView::Ods(missing_value_message(row, col, "currency"@))),
        },
        Some(ValueType::Boolean) => match value {
            Some(v) => Ok(ValueView::Boolean(v == "true"@)),
            None => Err(OdsErrorView::Ods(missing_value_message(row, col, "boolean"@))),
        },
        Some(ValueType::DateTime) => match value {
            Some(v) => match decoded_datetime(v) {
                Some(d) => Ok(ValueView::DateTime(d)),
                None => Err(OdsErrorView::Chrono),
            },
            None => Err(OdsErrorView::Ods(missing_value_message(row, col, "datetime"@))),
        },
        Some(ValueType::TimeDuration) => match value {
            Some(v) => match decoded_duration(v) {
                Some(d) => Ok(ValueView::TimeDuration(d)),
                None => Err(OdsErrorView::Duration(v)),
            },
            None => Err(OdsErrorView::Ods(missing_value_message(row, col, "time-duration"@))),
        },
    }
}

/// A date value of exactly ten characters decodes to the midnight of its
/// date, a longer or shorter one to the timestamp it writes; a number cell
/// without a value fails with an error that begins with the cell's name.
pub proof fn lemma_typed_value_decoding(
    value: Seq<char>,
    content: Option<Seq<char>>,
    currency: Option<Seq<char>>,
    row: u32,
    col: u32,
)
    ensures
        value.len() == 10 ==> (chrono_date(value, date_format()) matches Some(date)
            ==> decoded_value(
            Some(ValueType::DateTime),
            Some(value),
            content,
            currency,
            row,
            col,
        ) == Ok::<ValueView, OdsErrorView>(
            ValueView::DateTime(DateTime { date, time: midnight() }),
        )),
        value.len() != 10 ==> (chrono_datetime(value, datetime_format()) matches Some(d)
            ==> decoded_value(
            Some(ValueType::DateTime),
            Some(value),
            content,
            currency,
            row,
            col,
        ) == Ok::<ValueView, OdsErrorView>(ValueView::DateTime(d))),
        decoded_value(Some(ValueType::Number), None, content, currency, row, col) == Err::<
            ValueView,
            OdsErrorView,
        >(OdsErrorView::Ods(missing_value_message(row, col, "number"@))),
        cell_name(row as nat, col as nat).is_prefix_of(
            missing_value_message(row, col, "number"@),
        ),
{
    let name = cell_name(row as nat, col as nat);
    let msg = missing_value_message(row, col, "number"@);
    assert(msg.subrange(0, name.len() as int) =~= name);
}

/// Decodes the value of the cell at (`row`, `col`).
pub fn parse_value(
    value_type: Option<ValueType>,
    cell_value: Option<String>,
    cell_content: Option<String>,
    cell_currency: Option<String>,
    row: u32,
    col: u32,
) -> (r: Result<Value, OdsError>)
    ensures
        value_result(r) == decoded_value(
            value_type,
            opt_text(cell_value),
            opt_text(cell_content),
            opt_text(cell_currency),
            row,
            col,
        ),
{
    match value_type {
        None => Ok(Value::Empty),
        Some(ValueType::Empty) => Ok(Value::Empty),
        Some(ValueType::Text) => match cell_content {
            Some(c) => Ok(Value::Text(c)),
            None => Ok(Value::Text(String::new())),
        },
        Some(ValueType::Number) => match cell_value {
            Some(v) => if is_float(v.as_str()) {
                Ok(Value::Number(v))
            } else {
                Err(OdsError::ParseFloat(v))
            },
            None => Err(missing_value(row, col, "number")),
        },
        Some(ValueType::Percentage) => match cell_value {
            Some(v) => if is_float(v.as_str()) {
                Ok(Value::Percentage(v))
            } else {
                Err(OdsError::ParseFloat(v))
            },
            None => Err(missing_value(row, col, "percentage")),
        },
        Some(ValueType::Currency) => match cell_value {
            Some(v) => if !is_float(v.as_str()) {
                Err(OdsError::ParseFloat(v))
            } else {
                match cell_currency {
                    Some(c) => Ok(Value::Currency(c, v)),
                    None => Err(missing_value(row, col, "currency")),
                }
            },
            None => Err(missing_value(row, col, "currency")),
        },
        Some(ValueType::Boolean) => match cell_value {
            Some(v) => Ok(Value::Boolean(str_eq(v.as_str(), "true"))),
            None => Err(missing_value(row, col, "boolean")),
        },
        Some(ValueType::DateTime) => match cell_value {
            Some(v) => match parse_datetime(v.as_str()) {
                Ok(d) => Ok(Value::DateTime(d)),
                Err(e) => Err(e),
            },
            None => Err(missing_value(row, col, "datetime")),
        },
        Some(ValueType::TimeDuration) => match cell_value {
            Some(v) => match parse_duration(v.as_str()) {
                Ok(d) => Ok(Value::TimeDuration(d)),
                Err(e) => Err(e),
            },
            None => Err(missing_value(row, col, "time-duration")),
        },
    }
}

/// The value type that a type token of a cell names.
pub open spec fn value_type_of(token: Seq<char>) -> Option<ValueType> {
    if token == "string"@ {
        Some(ValueType::Text)
    } else if token == "float"@ {
        Some(ValueType::Number)
    } else if token == "percentage"@ {
        Some(ValueType::Percentage)
    } else if token == "date"@ {
        Some(ValueType::DateTime)
    } else if token == "time"@ {
        Some(ValueType::TimeDuration)
    } else if token == "boolean"@ {
        Some(ValueType::Boolean)
    } else if token == "currency"@ {
        Some(ValueType::Currency)
    } else {
        None
    }
}

/// The text of the error for a type token that names no value type.
pub open spec fn unknown_type_message(token: Seq<char>) -> Seq<char> {
    "Unknown cell-type "@ + token
}

/// Decodes the type token of a cell.
pub fn decode_value_type(token: &str) -> (r: Result<ValueType, OdsError>)
    ensures
        match r {
            Ok(t) => value_type_of(token@) == Some(t),
            Err(e) => value_type_of(token@) is None && e@ == OdsErrorView::Ods(
                unknown_type_message(token@),
            ),
        },
{
    if str_eq(token, "string") {
        Ok(ValueType::Text)
    } else if str_eq(token, "float") {
        Ok(ValueType::Number)
    } else if str_eq(token, "percentage") {
        Ok(ValueType::Percentage)
    } else if str_eq(token, "date") {
        Ok(ValueType::DateTime)
    } else if str_eq(token, "time") {
        Ok(ValueType::TimeDuration)
    } else if str_eq(token, "boolean") {
        Ok(ValueType::Boolean)
    } else if str_eq(token, "currency") {
        Ok(ValueType::Currency)
    } else {
        let mut msg = "Unknown cell-type ".to_owned();
        msg.append(token);
        Err(OdsError::Ods(msg))
    }
}

} // verus!
