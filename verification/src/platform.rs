//! Small std facilities that vstd does not specify: building a string from
//! ASCII bytes, the system clock and `Duration`.
use crate::text::{is_ascii_bytes, utf8};
use vstd::prelude::*;

verus! {

#[verifier::external_type_specification]
#[verifier::external_body]
pub struct ExSystemTime(std::time::SystemTime);

/// `String::from_utf8` on bytes that are all ASCII, hence valid UTF-8.
/// Trusted: the string holds exactly these bytes, as std documents.
#[verifier::external_body]
pub(crate) fn ascii_string(bytes: Vec<u8>) -> (text: String)
    requires
        is_ascii_bytes(bytes@),
    ensures
        utf8(text@) == bytes@,
{
    match String::from_utf8(bytes) {
        Ok(text) => text,
        Err(_) => String::new(),
    }
}

/// `String::from_utf8`: the bytes as a string when they are valid UTF-8,
/// otherwise the error's text. Trusted as std documents it, with vstd's
/// `valid_utf8` standing for UTF-8 validity.
#[verifier::external_body]
pub(crate) fn string_from_utf8(bytes: Vec<u8>) -> (text: Result<String, String>)
    ensures
        match text {
            Ok(s) => vstd::utf8::valid_utf8(bytes@) && utf8(s@) == bytes@,
            Err(_) => !vstd::utf8::valid_utf8(bytes@),
        },
{
    match String::from_utf8(bytes) {
        Ok(text) => Ok(text),
        Err(error) => Err(error.to_string()),
    }
}

/// `SystemTime::now()`. Nothing is stated of the result: it is the clock.
#[verifier::external_body]
pub(crate) fn system_time_now() -> (now: std::time::SystemTime) {
    std::time::SystemTime::now()
}

/// `SystemTime::duration_since(UNIX_EPOCH)`: the time elapsed since the
/// Unix epoch, `None` when `time` precedes it. Nothing is stated of the value.
#[verifier::external_body]
pub(crate) fn duration_since_unix_epoch(time: std::time::SystemTime) -> (elapsed: Option<std::time::Duration>) {
    match time.duration_since(std::time::UNIX_EPOCH) {
        Ok(elapsed) => Some(elapsed),
        Err(_) => None,
    }
}

/// The `Duration` of `millis` milliseconds (`Duration::from_millis`).
pub uninterp spec fn millis_duration(millis: u64) -> std::time::Duration;

/// The whole seconds of a `Duration` (`Duration::as_secs`).
pub uninterp spec fn duration_seconds(duration: std::time::Duration) -> u64;

/// `Duration::from_millis`, which never fails. Trusted: the result is
/// `millis_duration(millis)`.
#[verifier::external_body]
pub(crate) fn duration_from_millis(millis: u64) -> (duration: std::time::Duration)
    ensures
        duration == millis_duration(millis),
{
    std::time::Duration::from_millis(millis)
}

/// Whole seconds of `duration` (`Duration::as_secs`). Trusted: the result
/// is `duration_seconds(*duration)`.
#[verifier::external_body]
pub(crate) fn duration_as_secs(duration: &std::time::Duration) -> (seconds: u64)
    ensures
        seconds == duration_seconds(*duration),
{
    duration.as_secs()
}

} // verus!
