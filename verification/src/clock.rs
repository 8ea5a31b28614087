//! Clock readings in milliseconds: wall-clock time since the Unix epoch, and
//! monotonic time since a fixed instant.
use std::time::{Duration, Instant, SystemTime, UNIX_EPOCH};
use vstd::prelude::*;

verus! {

#[verifier::external_type_specification]
#[verifier::external_body]
pub struct ExSystemTime(SystemTime);

#[verifier::external_type_specification]
#[verifier::external_body]
pub struct ExInstant(Instant);

/// `SystemTime::now`. Trusted only to return some point in time: the clock
/// is read, so nothing is stated of the value.
#[verifier::external_body]
fn system_time_now() -> SystemTime {
    SystemTime::now()
}

/// `SystemTime::duration_since` the Unix epoch; `None` when the clock reads
/// earlier than the epoch. Nothing is stated of the value, which depends on
/// the clock reading passed in.
#[verifier::external_body]
fn since_unix_epoch(t: SystemTime) -> Option<Duration> {
    t.duration_since(UNIX_EPOCH).ok()
}

/// `Duration::as_millis`. The duration is opaque here, so nothing is stated
/// of the number of milliseconds.
#[verifier::external_body]
fn duration_millis(d: Duration) -> u128 {
    d.as_millis()
}

/// `Instant::now`. Trusted only to return some instant of the monotonic
/// clock; nothing is stated of it.
#[verifier::external_body]
pub(crate) fn instant_now() -> Instant {
    Instant::now()
}

/// `Instant::elapsed`: the time since `base` on the monotonic clock. It
/// depends on the clock, so nothing is stated of it.
#[verifier::external_body]
fn instant_elapsed(base: &Instant) -> Duration {
    base.elapsed()
}

/// A reading in milliseconds (`None` for a wall clock before the epoch) as
/// a `u64`: 0 before the epoch, otherwise the milliseconds cut to their low
/// 64 bits.
pub open spec fn millis_or_zero_spec(since: Option<u128>) -> u64 {
    match since {
        Some(ms) => (ms % 0x1_0000_0000_0000_0000) as u64,
        None => 0,
    }
}

/// Turns a reading in milliseconds into a `u64`: 0 when there is none
/// (before the epoch), otherwise its low 64 bits.
pub fn millis_or_zero(since: Option<u128>) -> (r: u64)
    ensures
        r == millis_or_zero_spec(since),
{
    match since {
        Some(ms) => (ms % 0x1_0000_0000_0000_0000u128) as u64,
        None => 0,
    }
}

/// Milliseconds since the Unix epoch, 0 when the clock reads before it, kept
/// to the low 64 bits. Which reading the clock gives is not stated.
pub fn now_ms() -> (r: u64)
    ensures
        exists|since: Option<u128>| r == #[trigger] millis_or_zero_spec(since),
{
    let since = match since_unix_epoch(system_time_now()) {
        Some(d) => Some(duration_millis(d)),
        None => None,
    };
    let r = millis_or_zero(since);
    assert(r == millis_or_zero_spec(since));
    r
}

/// Milliseconds of the monotonic clock since `base`, kept to the low 64
/// bits. Which reading the clock gives is not stated.
pub fn monotonic_ms(base: &Instant) -> (r: u64)
    ensures
        exists|ms: u128| r == #[trigger] millis_or_zero_spec(Some(ms)),
{
    let ms = duration_millis(instant_elapsed(base));
    let r = millis_or_zero(Some(ms));
    assert(r == millis_or_zero_spec(Some(ms)));
    r
}

} // verus!
