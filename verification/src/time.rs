//! Durations: the library holds `core::time::Duration` values and makes
//! them through the trusted constructors below.
use core::time::Duration;
use vstd::prelude::*;

verus! {

/// The duration of `ms` milliseconds, as `Duration::from_millis` gives it.
pub uninterp spec fn millis_duration(ms: u64) -> Duration;

/// The duration of `us` microseconds, as `Duration::from_micros` gives it.
pub uninterp spec fn micros_duration(us: u64) -> Duration;

/// Calls `Duration::from_millis`; its result is named `millis_duration(ms)`
/// (a function of `ms` alone). What that duration is, is not stated here.
#[verifier::external_body]
pub(crate) fn duration_from_millis(ms: u64) -> (d: Duration)
    ensures
        d == millis_duration(ms),
{
    Duration::from_millis(ms)
}

/// Calls `Duration::from_micros`; its result is named `micros_duration(us)`
/// (a function of `us` alone). What that duration is, is not stated here.
#[verifier::external_body]
pub(crate) fn duration_from_micros(us: u64) -> (d: Duration)
    ensures
        d == micros_duration(us),
{
    Duration::from_micros(us)
}

} // verus!
