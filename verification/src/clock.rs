//! Readings of the machine's clocks.

use vstd::prelude::*;
use std::time::{Duration, Instant, SystemTime, UNIX_EPOCH};

verus! {

/// `std::time::Instant`, a reading of the monotonic clock. Opaque here.
#[verifier::external_type_specification]
#[verifier::external_body]
pub struct ExInstant(Instant);

/// `std::time::SystemTime`, a reading of the wall clock. Opaque here.
#[verifier::external_type_specification]
#[verifier::external_body]
pub struct ExSystemTime(SystemTime);

/// `Instant::now` reads the monotonic clock. Nothing is claimed of the
/// instant it returns.
pub assume_specification[ Instant::now ]() -> (start: Instant);

/// `Instant::elapsed` gives the time that has passed since the instant was
/// taken. Nothing is claimed of the duration.
pub assume_specification[ Instant::elapsed ](start: &Instant) -> (elapsed: Duration);

/// `Duration::as_micros` gives the whole microseconds of a duration. Nothing
/// is claimed of the number.
pub assume_specification[ Duration::as_micros ](duration: &Duration) -> (micros: u128);

/// `Duration::as_secs` gives the whole seconds of a duration. Nothing is
/// claimed of the number.
pub assume_specification[ Duration::as_secs ](duration: &Duration) -> (secs: u64);

/// `Duration::subsec_nanos` gives the part of a duration below one second,
/// in nanoseconds. Nothing is claimed of the number.
pub assume_specification[ Duration::subsec_nanos ](duration: &Duration) -> (nanos: u32);

/// `SystemTime::now` reads the wall clock. Nothing is claimed of the time it
/// returns.
pub assume_specification[ SystemTime::now ]() -> (now: SystemTime);

/// `SystemTime::duration_since` against the Unix epoch: the time from the
/// epoch to `time`, or nothing where it reports that `time` lies before the
/// epoch. Nothing is claimed of the result.
#[verifier::external_body]
fn since_epoch(time: &SystemTime) -> (elapsed: Option<Duration>)
{
    match time.duration_since(UNIX_EPOCH) {
        Ok(elapsed) => Some(elapsed),
        Err(_) => None,
    }
}

/// What `chrono` writes for the time `secs` seconds and `nanos` nanoseconds
/// after the Unix epoch: its RFC 3339 text in UTC, or nothing where `chrono`
/// has no date for that time.
pub uninterp spec fn rfc3339_text(secs: i64, nanos: u32) -> Option<Seq<char>>;

/// `chrono::DateTime::from_timestamp` rendered by `DateTime::to_rfc3339`:
/// the RFC 3339 text in UTC of the time `secs` seconds and `nanos`
/// nanoseconds after the Unix epoch, or nothing where `from_timestamp`
/// returns nothing. The text is a function of the two numbers alone.
#[verifier::external_body]
fn render_rfc3339(secs: i64, nanos: u32) -> (text: Option<String>)
    ensures
        match text {
            Some(text) => rfc3339_text(secs, nanos) == Some(text@),
            None => rfc3339_text(secs, nanos) is None,
        },
{
    match chrono::DateTime::from_timestamp(secs, nanos) {
        Some(time) => Some(time.to_rfc3339()),
        None => None,
    }
}

/// A count of microseconds as a sample: itself, or `u64::MAX` if it is
/// larger than that.
pub open spec fn capped(micros: u128) -> u64 {
    if micros > u64::MAX {
        u64::MAX
    } else {
        micros as u64
    }
}

/// A count of microseconds as a sample, capped at `u64::MAX`.
pub fn cap_micros(micros: u128) -> (sample: u64)
    ensures
        sample == capped(micros),
{
    if micros > u64::MAX as u128 {
        u64::MAX
    } else {
        micros as u64
    }
}

/// Whole microseconds elapsed since `start`, capped at `u64::MAX`.
pub fn elapsed_micros(start: &Instant) -> (micros: u64)
{
    cap_micros(start.elapsed().as_micros())
}

/// The timestamp for a wall clock that stands `since_epoch` whole seconds
/// after the Unix epoch, or before it where there is no such number: the
/// seconds, and `0` for a clock before the epoch.
pub open spec fn stamped(since_epoch: Option<u64>) -> u64 {
    match since_epoch {
        Some(secs) => secs,
        None => 0,
    }
}

/// The timestamp for a wall clock that stands `since_epoch` whole seconds
/// after the Unix epoch, or before it.
pub fn timestamp_of(since_epoch: Option<u64>) -> (secs: u64)
    ensures
        secs == stamped(since_epoch),
{
    match since_epoch {
        Some(secs) => secs,
        None => 0,
    }
}

/// Whole seconds from the Unix epoch to now; `0` while the wall clock is set
/// before the epoch.
pub fn current_timestamp() -> (secs: u64)
{
    let now = SystemTime::now();
    let elapsed = match since_epoch(&now) {
        Some(elapsed) => Some(elapsed.as_secs()),
        None => None,
    };
    timestamp_of(elapsed)
}

/// A count of seconds as `chrono` takes it: itself, or `i64::MAX` if it is
/// larger than that.
pub open spec fn signed(secs: u64) -> i64 {
    if secs > i64::MAX {
        i64::MAX
    } else {
        secs as i64
    }
}

/// The text of a rendered time, and the empty text where there is none.
pub open spec fn text_of(rendered: Option<Seq<char>>) -> Seq<char> {
    match rendered {
        Some(text) => text,
        None => Seq::empty(),
    }
}

/// The RFC 3339 text of the time `secs` seconds and `nanos` nanoseconds
/// after the Unix epoch; empty where `chrono` has no date for that time.
pub open spec fn stamp_text(secs: u64, nanos: u32) -> Seq<char> {
    text_of(rfc3339_text(signed(secs), nanos))
}

/// The text of a rendered time, and the empty text where there is none.
pub fn text_or_empty(rendered: Option<String>) -> (text: String)
    ensures
        text@ == text_of(
            match rendered {
                Some(text) => Some(text@),
                None => None,
            },
        ),
{
    match rendered {
        Some(text) => text,
        None => String::new(),
    }
}

/// The RFC 3339 text of the time `secs` seconds and `nanos` nanoseconds
/// after the Unix epoch; empty where `chrono` has no date for that time.
pub fn rfc3339(secs: u64, nanos: u32) -> (text: String)
    ensures
        text@ == stamp_text(secs, nanos),
{
    let secs: i64 = if secs > i64::MAX as u64 {
        i64::MAX
    } else {
        secs as i64
    };
    text_or_empty(render_rfc3339(secs, nanos))
}

/// The current wall clock time as RFC 3339 text; the epoch itself while the
/// wall clock is set before the epoch.
pub fn timestamp_rfc3339() -> (stamp: String)
{
    let now = SystemTime::now();
    match since_epoch(&now) {
        Some(elapsed) => rfc3339(elapsed.as_secs(), elapsed.subsec_nanos()),
        None => rfc3339(0, 0),
    }
}

} // verus!
