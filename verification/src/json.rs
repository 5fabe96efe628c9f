//! The two kinds of JSON value that a token's documents hold: strings and
//! unsigned integers.

use crate::error::{EncodeFailure, Error};
use serde_json::Error as JsonError;
use vstd::prelude::*;

verus! {

/// The JSON string literal that `serde_json` writes for `text`: the opening
/// quote, the escaped characters and the closing quote.
pub uninterp spec fn json_string(text: Seq<char>) -> Seq<char>;

/// `serde_json::to_string`, on a string slice.
///
/// The call returns the JSON string literal of `text`, which is a function of
/// the text alone. It does not fail: the serializer fails only where a value's
/// own `Serialize` fails, where a map has a key that is no string, or where
/// its writer fails, and here the value is a string slice and the writer a
/// vector in memory.
#[verifier::external_body]
fn to_json_string(text: &str) -> (res: Result<String, JsonError>)
    ensures
        res is Ok,
        res matches Ok(literal) ==> literal@ == json_string(text@),
{
    serde_json::to_string(text)
}

/// What `quote` returns for each outcome of the serializer.
pub open spec fn quoted(outcome: Result<String, JsonError>) -> Result<Seq<char>, Error> {
    match outcome {
        Ok(literal) => Ok(literal@),
        Err(e) => Err(Error::SerdeJsonError(EncodeFailure::Json(e))),
    }
}

/// Files the serializer's outcome under this library's error type.
pub fn quote_outcome(outcome: Result<String, JsonError>) -> (res: Result<String, Error>)
    ensures
        match res {
            Ok(literal) => quoted(outcome) == Ok::<Seq<char>, Error>(literal@),
            Err(e) => quoted(outcome) == Err::<Seq<char>, Error>(e),
        },
{
    match outcome {
        Ok(literal) => Ok(literal),
        Err(e) => Err(Error::from(e)),
    }
}

/// Writes `text` as a JSON string literal.
///
/// The result is the literal of `text`. The serializer's answer is a
/// `Result`, and so is this one, but no text makes it fail.
pub fn quote(text: &str) -> (res: Result<String, Error>)
    ensures
        res matches Ok(literal) && literal@ == json_string(text@),
{
    quote_outcome(to_json_string(text))
}

/// The character of a decimal digit.
pub open spec fn digit(d: nat) -> char
    recommends
        d < 10,
{
    if d == 0 {
        '0'
    } else if d == 1 {
        '1'
    } else if d == 2 {
        '2'
    } else if d == 3 {
        '3'
    } else if d == 4 {
        '4'
    } else if d == 5 {
        '5'
    } else if d == 6 {
        '6'
    } else if d == 7 {
        '7'
    } else if d == 8 {
        '8'
    } else {
        '9'
    }
}

/// The decimal numeral of `n`, without sign or leading zero, as JSON writes an
/// unsigned integer.
pub open spec fn decimal(n: nat) -> Seq<char>
    decreases n,
{
    if n < 10 {
        seq![digit(n)]
    } else {
        decimal(n / 10).push(digit(n % 10))
    }
}

/// The one-character text of a decimal digit.
fn digit_text(d: u64) -> (text: &'static str)
    requires
        d < 10,
    ensures
        text@ == seq![digit(d as nat)],
{
    proof {
        reveal_strlit("0");
        reveal_strlit("1");
        reveal_strlit("2");
        reveal_strlit("3");
        reveal_strlit("4");
        reveal_strlit("5");
        reveal_strlit("6");
        reveal_strlit("7");
        reveal_strlit("8");
        reveal_strlit("9");
    }
    if d == 0 {
        "0"
    } else if d == 1 {
        "1"
    } else if d == 2 {
        "2"
    } else if d == 3 {
        "3"
    } else if d == 4 {
        "4"
    } else if d == 5 {
        "5"
    } else if d == 6 {
        "6"
    } else if d == 7 {
        "7"
    } else if d == 8 {
        "8"
    } else {
        "9"
    }
}

/// Appends the decimal numeral of `n` to `out`.
pub fn push_decimal(out: &mut String, n: u64)
    ensures
        final(out)@ == old(out)@ + decimal(n as nat),
    decreases n,
{
    if n >= 10 {
        push_decimal(out, n / 10);
    }
    out.append(digit_text(n % 10));
}

} // verus!
