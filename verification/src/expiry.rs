//! The one rule by which a cache entry counts as expired. The check made
//! when an entry is read and the background sweep both go by it.
//!
//! An entry expires when its age exceeds the time to live. Ages are handed
//! around in whole seconds, rounded up, so that nothing of an age is lost
//! that could decide the comparison with a time to live in whole seconds.

use crate::config::Config;
use vstd::prelude::*;

verus! {

/// Seconds in a minute: the time to live is configured in minutes, ages are
/// measured in seconds.
pub const SECONDS_PER_MINUTE: u64 = 60;

/// Nanoseconds in a second.
pub const NANOS_PER_SECOND: u32 = 1_000_000_000;

/// The time to live in seconds.
pub open spec fn ttl_seconds(ttl_minutes: u64) -> int {
    ttl_minutes as int * 60
}

/// An entry is expired when its age exceeds the time to live. The age is in
/// whole seconds, rounded up.
pub open spec fn is_expired(age_secs: u64, ttl_minutes: u64) -> bool {
    age_secs as int > ttl_seconds(ttl_minutes)
}

/// An elapsed time in nanoseconds, from its whole seconds and the
/// nanoseconds beyond them.
pub open spec fn elapsed_nanos(secs: u64, subsec_nanos: u32) -> int {
    secs as int * 1_000_000_000 + subsec_nanos as int
}

/// An elapsed time in whole seconds, rounded up, and held at the largest
/// number of seconds there is.
pub open spec fn rounded_up_seconds(secs: u64, subsec_nanos: u32) -> int {
    let seconds = (elapsed_nanos(secs, subsec_nanos) + 999_999_999) / 1_000_000_000;
    if seconds > u64::MAX {
        u64::MAX as int
    } else {
        seconds
    }
}

/// The age of an entry in whole seconds, rounded up, from the time elapsed
/// since it was last written: the whole seconds of that time and the
/// nanoseconds beyond them.
pub fn age_in_seconds(secs: u64, subsec_nanos: u32) -> (age_secs: u64)
    ensures
        age_secs == rounded_up_seconds(secs, subsec_nanos),
{
    let whole: u32 = subsec_nanos / NANOS_PER_SECOND;
    let rest: u32 = subsec_nanos % NANOS_PER_SECOND;
    let more: u64 = if rest > 0 {
        whole as u64 + 1
    } else {
        whole as u64
    };
    if more > u64::MAX - secs {
        u64::MAX
    } else {
        secs + more
    }
}

/// Whether an entry of this age, in whole seconds rounded up, has outlived
/// a time to live given in minutes. No time to live is too long to be
/// compared with.
pub fn expired(age_secs: u64, ttl_minutes: u64) -> (yes: bool)
    ensures
        yes == is_expired(age_secs, ttl_minutes),
{
    if ttl_minutes > u64::MAX / SECONDS_PER_MINUTE {
        false
    } else {
        age_secs > ttl_minutes * SECONDS_PER_MINUTE
    }
}

/// Checks an entry's age, in whole seconds rounded up, against the
/// configured time to live. Returns `false` if the entry has expired: the
/// caller then has to delete it.
pub fn check_file_ttl(config: &Config, age_secs: u64) -> (fresh: bool)
    ensures
        fresh == !is_expired(age_secs, config.cache_ttl),
{
    !expired(age_secs, config.cache_ttl)
}

/// Rounding the age up loses nothing: an entry counts as expired exactly
/// when the time elapsed since it was written, to the nanosecond, exceeds
/// the time to live. At exactly the time to live it is still fresh.
pub proof fn expiry_is_exact(secs: u64, subsec_nanos: u32, ttl_minutes: u64)
    ensures
        rounded_up_seconds(secs, subsec_nanos) > ttl_seconds(ttl_minutes) <==> elapsed_nanos(
            secs,
            subsec_nanos,
        ) > ttl_seconds(ttl_minutes) * 1_000_000_000,
        elapsed_nanos(secs, subsec_nanos) == ttl_seconds(ttl_minutes) * 1_000_000_000
            ==> rounded_up_seconds(secs, subsec_nanos) == ttl_seconds(ttl_minutes),
{
    let ttl = ttl_seconds(ttl_minutes);
    let seconds = (elapsed_nanos(secs, subsec_nanos) + 999_999_999) / 1_000_000_000;
    assert(seconds > ttl <==> elapsed_nanos(secs, subsec_nanos) > ttl * 1_000_000_000);
    assert(seconds <= u64::MAX + 5);
    assert(ttl % 60 == 0);
    assert(ttl > u64::MAX ==> ttl >= u64::MAX + 45);
}

/// Expiry is monotonic in age: an expired entry stays expired as it grows
/// older, under the same time to live.
pub proof fn expiry_is_monotonic(age_secs: u64, later_age_secs: u64, ttl_minutes: u64)
    requires
        age_secs <= later_age_secs,
        is_expired(age_secs, ttl_minutes),
    ensures
        is_expired(later_age_secs, ttl_minutes),
{
}

} // verus!
