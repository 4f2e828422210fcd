//! The system clock.
use vstd::prelude::*;

verus! {

/// `SystemTime::elapsed` on `UNIX_EPOCH`: the time since the Unix epoch by
/// the system clock, as whole seconds and the nanoseconds of the second
/// begun, or `None` when the clock stands before the epoch. Of the reading
/// only its form is promised.
#[verifier::external_body]
pub(crate) fn since_unix_epoch() -> (r: Option<(u64, u32)>)
    ensures
        r matches Some((_, nanos)) ==> nanos < 1_000_000_000,
{
    match std::time::UNIX_EPOCH.elapsed() {
        Ok(d) => Some((d.as_secs(), d.subsec_nanos())),
        Err(_) => None,
    }
}

/// A reading of the clock in the form `since_unix_epoch` gives it.
pub open spec fn is_clock_reading(reading: Option<(u64, u32)>) -> bool {
    reading matches Some((_, nanos)) ==> nanos < 1_000_000_000
}

/// The whole milliseconds of a clock reading, cast to `i64` as `as` casts;
/// 0 for a clock before the epoch.
pub open spec fn reading_millis(reading: Option<(u64, u32)>) -> i64 {
    match reading {
        Some((secs, nanos)) => (secs * 1000 + nanos / 1_000_000) as i64,
        None => 0,
    }
}

/// The whole seconds of a clock reading, cast to `i64` as `as` casts; 0 for
/// a clock before the epoch.
pub open spec fn reading_secs(reading: Option<(u64, u32)>) -> i64 {
    match reading {
        Some((secs, _)) => secs as i64,
        None => 0,
    }
}

/// The whole milliseconds of a clock reading, as `Duration::as_millis`
/// cast to `i64` gives them; 0 for a clock before the epoch.
pub fn millis_of(reading: Option<(u64, u32)>) -> (r: i64)
    ensures
        r == reading_millis(reading),
{
    match reading {
        Some((secs, nanos)) => {
            let millis = (secs as u128) * 1000 + (nanos / 1_000_000) as u128;
            millis as i64
        },
        None => 0,
    }
}

/// The whole seconds of a clock reading, as `Duration::as_secs` cast to
/// `i64` gives them; 0 for a clock before the epoch.
pub fn secs_of(reading: Option<(u64, u32)>) -> (r: i64)
    ensures
        r == reading_secs(reading),
{
    match reading {
        Some((secs, _)) => secs as i64,
        None => 0,
    }
}

/// Whole milliseconds since the Unix epoch (cast to `i64`), or 0 when the
/// clock stands before the epoch.
pub(crate) fn unix_time_millis() -> (r: i64)
    ensures
        exists|reading: Option<(u64, u32)>| is_clock_reading(reading) && r == #[trigger] reading_millis(reading),
{
    let reading = since_unix_epoch();
    millis_of(reading)
}

/// Whole seconds since the Unix epoch (cast to `i64`), or 0 when the clock
/// stands before the epoch.
pub(crate) fn unix_time_secs() -> (r: i64)
    ensures
        exists|reading: Option<(u64, u32)>| is_clock_reading(reading) && r == #[trigger] reading_secs(reading),
{
    let reading = since_unix_epoch();
    secs_of(reading)
}

} // verus!
