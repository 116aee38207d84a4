//! The wall clock. Nothing here is proved: these are the calls into the
//! `instant` crate and into std's `Duration`, and what is claimed of them is
//! claimed on trust.

use vstd::prelude::*;

verus! {

/// `instant::Instant`, a point on a monotonic clock. Nothing is known of
/// what a value holds.
#[verifier::external_type_specification]
#[verifier::external_body]
pub struct ExInstant(instant::Instant);

/// What `instant::Instant::saturating_duration_since` gives for `later`
/// and `earlier`: the time from the one to the other, which depends on the
/// two instants alone.
pub uninterp spec fn spec_duration_between(
    earlier: instant::Instant,
    later: instant::Instant,
) -> core::time::Duration;

/// What `core::time::Duration::as_nanos` gives: the whole duration in
/// nanoseconds.
pub uninterp spec fn spec_as_nanos(duration: core::time::Duration) -> u128;

/// The time from `earlier` to `later` in nanoseconds, as far as 64 bits
/// hold it.
pub open spec fn spec_nanos_between(earlier: instant::Instant, later: instant::Instant) -> u64 {
    let nanos = spec_as_nanos(spec_duration_between(earlier, later));
    if nanos > u64::MAX {
        u64::MAX
    } else {
        nanos as u64
    }
}

/// Calls `instant::Instant::now`. The result is the present moment, of which
/// nothing can be promised.
#[verifier::external_body]
pub(crate) fn now() -> instant::Instant {
    instant::Instant::now()
}

/// Calls `instant::Instant::saturating_duration_since` on `later`. Where
/// `earlier` is in fact the later of the two, the outside function gives
/// zero rather than failing. The contract only gives the result its name.
#[verifier::external_body]
pub(crate) fn duration_between(earlier: &instant::Instant, later: &instant::Instant) -> (d:
    core::time::Duration)
    ensures
        d == spec_duration_between(*earlier, *later),
{
    later.saturating_duration_since(*earlier)
}

/// Calls `core::time::Duration::as_nanos`. The contract only gives the
/// result its name.
#[verifier::external_body]
pub(crate) fn as_nanos(duration: &core::time::Duration) -> (nanos: u128)
    ensures
        nanos == spec_as_nanos(*duration),
{
    duration.as_nanos()
}

/// The time from `earlier` to `later` in nanoseconds, stopping at the top
/// of the range.
pub fn nanos_between(earlier: &instant::Instant, later: &instant::Instant) -> (nanos: u64)
    ensures
        nanos == spec_nanos_between(*earlier, *later),
{
    let duration = duration_between(earlier, later);
    let nanos = as_nanos(&duration);
    if nanos > 0xffff_ffff_ffff_ffff {
        0xffff_ffff_ffff_ffff
    } else {
        nanos as u64
    }
}

} // verus!
