//! The wall clock, in whole seconds since the Unix epoch.

use vstd::prelude::*;

verus! {

#[verifier::external_type_specification]
#[verifier::external_body]
pub struct ExSystemTime(std::time::SystemTime);

#[verifier::external_type_specification]
#[verifier::external_body]
pub struct ExSystemTimeError(std::time::SystemTimeError);

/// `std::time::SystemTime::now`: the current reading of the system clock.
/// Trusted; nothing is claimed about the reading.
#[verifier::external_body]
fn system_now() -> (now: std::time::SystemTime) {
    std::time::SystemTime::now()
}

/// `std::time::SystemTime::duration_since`, measured from
/// `std::time::UNIX_EPOCH`: the time elapsed between the epoch and `time`, or
/// an error when `time` lies before the epoch. Trusted; nothing is claimed
/// about the outcome.
#[verifier::external_body]
fn since_unix_epoch(time: &std::time::SystemTime) -> (elapsed: Result<
    std::time::Duration,
    std::time::SystemTimeError,
>) {
    time.duration_since(std::time::UNIX_EPOCH)
}

/// `std::time::Duration::as_secs`: the whole seconds in a duration. Trusted;
/// a duration is opaque here, so nothing is claimed about the number.
#[verifier::external_body]
fn whole_seconds(elapsed: &std::time::Duration) -> (seconds: u64) {
    elapsed.as_secs()
}

/// The signed number with the same 64 bits as `seconds`: `seconds` itself
/// while it fits, and `seconds - 2^64` above that.
pub open spec fn timestamp_of(seconds: u64) -> int {
    if seconds <= i64::MAX {
        seconds as int
    } else {
        seconds - 0x1_0000_0000_0000_0000
    }
}

/// Reinterprets a count of seconds as a signed timestamp, bit for bit.
pub fn timestamp_from_seconds(seconds: u64) -> (timestamp: i64)
    ensures
        timestamp == timestamp_of(seconds),
{
    if seconds <= 0x7fff_ffff_ffff_ffff {
        seconds as i64
    } else {
        ((seconds - 0x8000_0000_0000_0000) as i64) + i64::MIN
    }
}

/// The timestamp for a reading of the clock: the seconds since the epoch as a
/// timestamp, and zero where the clock reads a time before the epoch and so
/// gives no such count.
pub open spec fn reading_timestamp(reading: Option<u64>) -> int {
    match reading {
        Some(seconds) => timestamp_of(seconds),
        None => 0,
    }
}

/// The timestamp for a reading of the clock; see [`reading_timestamp`].
pub fn timestamp_from_reading(reading: Option<u64>) -> (timestamp: i64)
    ensures
        timestamp == reading_timestamp(reading),
{
    match reading {
        Some(seconds) => timestamp_from_seconds(seconds),
        None => 0,
    }
}

/// The current time in whole seconds since the Unix epoch; zero when the
/// clock reads a time before the epoch.
///
/// The value is whatever the system clock says. What holds of every reading
/// is that the result is the timestamp for it, as [`timestamp_from_reading`]
/// gives it.
pub fn unix_now() -> (now: i64)
    ensures
        exists|reading: Option<u64>| now == #[trigger] reading_timestamp(reading),
{
    let time = system_now();
    let reading = match since_unix_epoch(&time) {
        Ok(elapsed) => Some(whole_seconds(&elapsed)),
        Err(_) => None,
    };
    timestamp_from_reading(reading)
}

} // verus!
