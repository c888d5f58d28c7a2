//! What a record gets from outside the request: the time and a fresh identifier.

use vstd::prelude::*;
use crate::domain::StorageError;

verus! {

/// The RFC 3339 text, in UTC, of an instant given in nanoseconds since the Unix epoch. The outer
/// option is empty for an instant that the calendar does not reach, the inner one for an instant
/// that RFC 3339 has no text for.
pub uninterp spec fn calendar_text(nanos: int) -> Option<Option<Seq<char>>>;

/// `time::OffsetDateTime::from_unix_timestamp_nanos` and, on the instant that it gives, `format`
/// with `Rfc3339`. What comes out is a function of the nanoseconds alone, under the name
/// `calendar_text`; and the calendar reaches the epoch itself.
#[verifier::external_body]
fn instant_text(nanos: i128) -> (result: Option<Result<String, time::error::Format>>)
    ensures
        result matches Some(Ok(text)) ==> calendar_text(nanos as int) == Some(Some(text@)),
        result matches Some(Err(error)) ==> calendar_text(nanos as int) == Some(
            None::<Seq<char>>,
        ),
        result is None ==> calendar_text(nanos as int) is None,
        nanos == 0 ==> result is Some,
{
    time::OffsetDateTime::from_unix_timestamp_nanos(nanos)
        .ok()
        .map(|instant| instant.format(&time::format_description::well_known::Rfc3339))
}

/// The RFC 3339 text of an instant; nothing where RFC 3339 has none for it. An instant that the
/// calendar does not reach stands for the epoch.
pub open spec fn rfc3339_text(nanos: int) -> Option<Seq<char>> {
    match calendar_text(nanos) {
        Some(text) => text,
        None => calendar_text(0)->0,
    }
}

/// `time::OffsetDateTime::now_utc` and `unix_timestamp_nanos`: what the clock says, in nanoseconds
/// since the Unix epoch. Where the target has a system clock it is that one; on `wasm32` it is
/// JavaScript's, by the `wasm-bindgen` feature of `time`, without which `now_utc` has no clock there.
/// Nothing is claimed of what it says.
#[verifier::external_body]
pub(crate) fn wall_clock_now() -> (nanos: i128) {
    time::OffsetDateTime::now_utc().unix_timestamp_nanos()
}

/// The text came from the instant, or the error from its having none.
pub open spec fn stamped(result: Result<String, StorageError>, nanos: int) -> bool {
    match rfc3339_text(nanos) {
        Some(text) => result matches Ok(stamp) && stamp@ == text,
        None => result matches Err(error) && error is Time,
    }
}

/// Writes an instant, given in nanoseconds since the Unix epoch, as RFC 3339 has it.
pub fn format_timestamp(nanos: i128) -> (result: Result<String, StorageError>)
    ensures
        stamped(result, nanos as int),
{
    let written = match instant_text(nanos) {
        Some(written) => written,
        None => instant_text(0).unwrap(),
    };
    match written {
        Ok(text) => Ok(text),
        Err(error) => Err(StorageError::Time(error)),
    }
}

/// Writes an instant where there is one.
pub fn optional_timestamp(nanos: Option<i128>) -> (result: Result<Option<String>, StorageError>)
    ensures
        match nanos {
            None => result == Ok::<Option<String>, StorageError>(None),
            Some(instant) => match rfc3339_text(instant as int) {
                Some(text) => result matches Ok(Some(stamp)) && stamp@ == text,
                None => result matches Err(error) && error is Time,
            },
        },
{
    match nanos {
        None => Ok(None),
        Some(instant) => match format_timestamp(instant) {
            Ok(text) => Ok(Some(text)),
            Err(error) => Err(error),
        },
    }
}

/// The present time, as RFC 3339 has it: by the system's clock, or by JavaScript's on `wasm32`.
pub fn now() -> (result: Result<String, StorageError>)
    ensures
        exists|nanos: int| stamped(result, nanos),
{
    let nanos = wall_clock_now();
    let result = format_timestamp(nanos);
    assert(stamped(result, nanos as int));
    result
}

/// A digit of lower-case hexadecimal.
pub open spec fn is_lower_hex(c: char) -> bool {
    ('0' <= c && c <= '9') || ('a' <= c && c <= 'f')
}

/// The hyphenated text of a random identifier: thirty-six characters, of which four are hyphens,
/// the others lower-case hexadecimal digits, and the version digit a four.
pub open spec fn is_random_id(text: Seq<char>) -> bool {
    &&& text.len() == 36
    &&& text[14] == '4'
    &&& forall|i: int|
        0 <= i < 36 ==> if i == 8 || i == 13 || i == 18 || i == 23 {
            #[trigger] text[i] == '-'
        } else {
            is_lower_hex(text[i])
        }
}

/// `uuid::Uuid::new_v4` and its `to_string`. Nothing is claimed of the random digits; the shape
/// is that of the hyphenated form of a version-four identifier.
#[verifier::external_body]
fn random_id() -> (text: String)
    ensures
        is_random_id(text@),
{
    uuid::Uuid::new_v4().to_string()
}

/// A fresh identifier for a receipt.
pub fn new_receipt_id() -> (text: String)
    ensures
        is_random_id(text@),
{
    random_id()
}

} // verus!
