//! Values as they are written for the wire: texts, and times in ISO 8601.

use vstd::prelude::*;
use crate::json::{Value, ValueView};

verus! {

/// A point in time, counted in nanoseconds since the start of 1970, written in
/// ISO 8601; nothing where the time is outside the years that can be written.
pub uninterp spec fn iso8601_text(nanos: i128) -> Option<Seq<char>>;

/// The point in time that a text in ISO 8601 names, counted in nanoseconds
/// since the start of 1970 and read as universal time; nothing where the text
/// is not in that form.
pub uninterp spec fn iso8601_nanos(text: Seq<char>) -> Option<i128>;

/// Writes a point in time in ISO 8601.
///
/// Trusted: stands for `OffsetDateTime::from_unix_timestamp_nanos` followed by
/// `OffsetDateTime::format` with `Iso8601::DEFAULT` of the time crate. The first
/// refuses a time outside the range of the crate, the second writes the date,
/// the time and the offset. Both depend on their argument alone, so the contract
/// names the result.
#[verifier::external_body]
fn format_iso8601(nanos: i128) -> (text: Option<String>)
    ensures
        match text {
            Some(t) => iso8601_text(nanos) == Some(t@),
            None => iso8601_text(nanos) is None,
        },
{
    match time::OffsetDateTime::from_unix_timestamp_nanos(nanos) {
        Ok(at) => at.format(&time::format_description::well_known::Iso8601::DEFAULT).ok(),
        Err(_) => None,
    }
}

/// Reads a point in time from ISO 8601.
///
/// Trusted: stands for `PrimitiveDateTime::parse` with `Iso8601::DEFAULT` of the
/// time crate, followed by `assume_utc` and `unix_timestamp_nanos`. The result
/// depends on the text alone, so the contract names it.
#[verifier::external_body]
fn parse_iso8601(text: &str) -> (nanos: Option<i128>)
    ensures
        nanos == iso8601_nanos(text@),
{
    match time::PrimitiveDateTime::parse(
        text,
        &time::format_description::well_known::Iso8601::DEFAULT,
    ) {
        Ok(at) => Some(at.assume_utc().unix_timestamp_nanos()),
        Err(_) => None,
    }
}

/// Why a value could not be written or read.
#[derive(Debug)]
pub struct WireError {
    pub message: String,
}

/// The text of a time that was written, or the error for one that could not be.
pub open spec fn written_time(text: Option<Seq<char>>) -> Result<Seq<char>, Seq<char>> {
    match text {
        Some(t) => Ok(t),
        None => Err("Failed to serialize date time into iso."@),
    }
}

/// The time in microseconds for the nanoseconds that were read, or the error
/// for a text that could not be read or a time that microseconds cannot count.
pub open spec fn read_time(nanos: Option<i128>) -> Result<i64, Seq<char>> {
    match nanos {
        Some(n) => if i64::MIN <= n / 1000 <= i64::MAX {
            Ok((n / 1000) as i64)
        } else {
            Err("Failed to parse into date time."@)
        },
        None => Err("Failed to parse into date time."@),
    }
}

/// The view of a result with a text or an error.
pub open spec fn text_result(result: Result<String, WireError>) -> Result<Seq<char>, Seq<char>> {
    match result {
        Ok(t) => Ok(t@),
        Err(e) => Err(e.message@),
    }
}

/// The view of a result with a time or an error.
pub open spec fn time_result(result: Result<i64, WireError>) -> Result<i64, Seq<char>> {
    match result {
        Ok(t) => Ok(t),
        Err(e) => Err(e.message@),
    }
}

/// Decides on a time that was written.
pub fn serialized_time(text: Option<String>) -> (result: Result<String, WireError>)
    ensures
        text_result(result) == written_time(
            match text {
                Some(t) => Some(t@),
                None => None,
            },
        ),
{
    match text {
        Some(t) => Ok(t),
        None => Err(WireError { message: "Failed to serialize date time into iso.".to_owned() }),
    }
}

/// Decides on a time that was read: whole microseconds, rounded towards the
/// past.
pub fn deserialized_time(nanos: Option<i128>) -> (result: Result<i64, WireError>)
    ensures
        time_result(result) == read_time(nanos),
{
    match nanos {
        Some(n) => {
            let floor: i128 = if n >= 0 || n % 1000 == 0 {
                n / 1000
            } else {
                n / 1000 - 1
            };
            if floor >= -9223372036854775808i128 && floor <= 9223372036854775807i128 {
                Ok(floor as i64)
            } else {
                Err(WireError { message: "Failed to parse into date time.".to_owned() })
            }
        },
        None => Err(WireError { message: "Failed to parse into date time.".to_owned() }),
    }
}

/// Writes a time, counted in microseconds since the start of 1970, in ISO 8601
/// and universal time.
pub fn primitive_date_iso_serialize(x: i64) -> (result: Result<String, WireError>)
    ensures
        text_result(result) == written_time(iso8601_text((x * 1000) as i128)),
{
    let nanos: i128 = (x as i128) * 1000;
    serialized_time(format_iso8601(nanos))
}

/// Reads a time in ISO 8601 as microseconds since the start of 1970.
pub fn primitive_date_iso_deserialize(text: &str) -> (result: Result<i64, WireError>)
    ensures
        time_result(result) == read_time(iso8601_nanos(text@)),
{
    deserialized_time(parse_iso8601(text))
}

/// Writes a value as the text that it prints as.
pub fn string_serialize(x: &str) -> (value: Value)
    ensures
        value@ == ValueView::String(x@),
{
    Value::text(x)
}

} // verus!
