//! Integers as cache payloads: JSON text, written and read by `serde_json`.

use crate::error::CacheError;
use vstd::prelude::*;

verus! {

#[verifier::external_type_specification]
#[verifier::external_body]
pub struct ExJsonError(serde_json::Error);

/// The digit that stands for a number below ten.
pub open spec fn digit(n: nat) -> char {
    (48 + n) as char
}

/// The decimal digits of a number, without leading zeros.
pub open spec fn digits(n: nat) -> Seq<char>
    decreases n,
{
    if n < 10 {
        seq![digit(n)]
    } else {
        digits(n / 10).push(digit(n % 10))
    }
}

/// The JSON text of an `i64`: its decimal digits, after a minus sign where
/// it is negative.
pub open spec fn json_of_i64(value: i64) -> Seq<char> {
    if value < 0 {
        seq!['-'] + digits((-value) as nat)
    } else {
        digits(value as nat)
    }
}

/// The `i64` that `serde_json::from_str` reads from a text, or `None` where
/// it reports an error.
pub uninterp spec fn i64_of_json(text: Seq<char>) -> Option<i64>;

/// `serde_json::to_string` on an `i64`.
///
/// The serializer formats the number with `itoa`, as decimal digits with a
/// minus sign for a negative number, and writes them to a byte vector. That
/// write cannot fail, so the result is always `Ok`. What is written is read
/// back by `serde_json::from_str` as the same number.
#[verifier::external_body]
fn json_write(value: i64) -> (written: Result<String, serde_json::Error>)
    ensures
        written is Ok,
        written->Ok_0@ == json_of_i64(value),
        i64_of_json(written->Ok_0@) == Some(value),
{
    serde_json::to_string(&value)
}

/// `serde_json::from_str` with `i64` as the target.
#[verifier::external_body]
fn json_read(text: &str) -> (read: Result<i64, serde_json::Error>)
    ensures
        match read {
            Ok(value) => i64_of_json(text@) == Some(value),
            Err(_) => i64_of_json(text@) is None,
        },
{
    serde_json::from_str::<i64>(text)
}

/// The message of a `serde_json::Error`, from its `Display`.
#[verifier::external_body]
fn json_error_text(error: &serde_json::Error) -> String {
    format!("{}", error)
}

/// The payload that stands for `value`.
pub fn encode_i64(value: i64) -> (text: String)
    ensures
        text@ == json_of_i64(value),
        i64_of_json(text@) == Some(value),
{
    match json_write(value) {
        Ok(text) => text,
        Err(_) => vstd::pervasive::unreached(),
    }
}

/// The number that a payload stands for. A payload that is not the JSON text
/// of an `i64` is `Malformed`.
pub fn decode_i64(text: &str) -> (r: Result<i64, CacheError>)
    ensures
        match r {
            Ok(value) => i64_of_json(text@) == Some(value),
            Err(e) => i64_of_json(text@) is None && e is Malformed,
        },
{
    match json_read(text) {
        Ok(value) => Ok(value),
        Err(e) => Err(CacheError::Malformed(json_error_text(&e))),
    }
}

} // verus!
