//! The pieces of JSON text that the payload of a job is made of.
//!
//! Numbers and the frame of an object are written here. String literals are
//! left to `serde_json`, which knows what has to be escaped.

use crate::text::join;
use vstd::prelude::*;

verus! {

/// The character for a digit.
pub open spec fn digit(d: int) -> char {
    if d == 0 {
        '0'
    } else if d == 1 {
        '1'
    } else if d == 2 {
        '2'
    } else if d == 3 {
        '3'
    } else if d == 4 {
        '4'
    } else if d == 5 {
        '5'
    } else if d == 6 {
        '6'
    } else if d == 7 {
        '7'
    } else if d == 8 {
        '8'
    } else {
        '9'
    }
}

/// The decimal digits of a number that is not negative, without leading
/// zeros.
pub open spec fn digits(n: nat) -> Seq<char>
    decreases n,
{
    if n < 10 {
        seq![digit(n as int)]
    } else {
        digits(n / 10).push(digit((n % 10) as int))
    }
}

/// A number in decimal, with a minus sign in front where it is negative.
pub open spec fn decimal(n: int) -> Seq<char> {
    if n < 0 {
        seq!['-'] + digits((-n) as nat)
    } else {
        digits(n as nat)
    }
}

/// The JSON string literal that `serde_json` writes for a text: the text
/// between quotes, with what JSON wants escaped escaped.
pub uninterp spec fn json_string(text: Seq<char>) -> Seq<char>;

/// An optional number as JSON: absent is `null`.
pub open spec fn number_or_null(n: Option<i32>) -> Seq<char> {
    match n {
        Some(v) => decimal(v as int),
        None => "null"@,
    }
}

/// An optional text as JSON: absent is `null`.
pub open spec fn string_or_null(text: Option<Seq<char>>) -> Seq<char> {
    match text {
        Some(t) => json_string(t),
        None => "null"@,
    }
}

/// Writes a text as a JSON string literal.
///
/// The body makes a `serde_json::Value` of the text with `Value::from` and
/// formats it with `to_string`. Nothing is proved of the literal. The
/// contract only gives it its name, and so claims no more than that
/// `serde_json` writes the same literal for the same text.
#[verifier::external_body]
pub(crate) fn quote(text: &str) -> (literal: String)
    ensures
        literal@ == json_string(text@),
{
    serde_json::Value::from(text).to_string()
}

/// The text of one digit.
fn digit_text(d: u32) -> (text: &'static str)
    requires
        d < 10,
    ensures
        text@ == seq![digit(d as int)],
{
    proof {
        reveal_strlit("0");
        reveal_strlit("1");
        reveal_strlit("2");
        reveal_strlit("3");
        reveal_strlit("4");
        reveal_strlit("5");
        reveal_strlit("6");
        reveal_strlit("7");
        reveal_strlit("8");
        reveal_strlit("9");
    }
    match d {
        0 => "0",
        1 => "1",
        2 => "2",
        3 => "3",
        4 => "4",
        5 => "5",
        6 => "6",
        7 => "7",
        8 => "8",
        _ => "9",
    }
}

/// The decimal digits of a number.
fn digits_text(n: u32) -> (text: String)
    ensures
        text@ == digits(n as nat),
    decreases n,
{
    if n < 10 {
        digit_text(n).to_owned()
    } else {
        let front = digits_text(n / 10);
        join(front.as_str(), digit_text(n % 10))
    }
}

/// Writes a number in decimal.
pub fn number(n: i32) -> (text: String)
    ensures
        text@ == decimal(n as int),
{
    if n < 0 {
        let size: u32 = (-(n as i64)) as u32;
        let tail = digits_text(size);
        proof {
            reveal_strlit("-");
        }
        join("-", tail.as_str())
    } else {
        digits_text(n as u32)
    }
}

/// Writes an optional number: absent is `null`.
pub fn write_number_or_null(n: Option<i32>) -> (text: String)
    ensures
        text@ == number_or_null(n),
{
    match n {
        Some(v) => number(v),
        None => "null".to_owned(),
    }
}

/// Writes an optional text as a string literal: absent is `null`.
pub fn write_string_or_null(t: &Option<String>) -> (text: String)
    ensures
        text@ == string_or_null(crate::text::opt_text(*t)),
{
    match t {
        Some(v) => quote(v.as_str()),
        None => "null".to_owned(),
    }
}

} // verus!
