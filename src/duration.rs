use std::time::Duration;
use vstd::prelude::*;

verus! {

/// The length of a `Duration` in whole nanoseconds, as `Duration::as_nanos`
/// reports it.
pub uninterp spec fn duration_nanos(d: Duration) -> nat;

/// The largest length a `Duration` can hold, in nanoseconds
/// (`Duration::MAX`: `u64::MAX` seconds and 999 999 999 nanoseconds).
pub open spec fn max_duration_nanos() -> int {
    u64::MAX as int * 1_000_000_000 + 999_999_999
}

/// Relies on `Duration`'s `Clone`: `Duration` is `Copy`, so a clone is the
/// same span.
pub assume_specification[ <Duration as Clone>::clone ](d: &Duration) -> (r: Duration)
    ensures
        r == *d,
;

/// Relies on `Duration::new`: a span of `secs` seconds and `nanos`
/// nanoseconds. It panics only when the nanoseconds carry over past
/// `u64::MAX` seconds, which `nanos < 1_000_000_000` rules out.
#[verifier::external_body]
pub(crate) fn duration_new(secs: u64, nanos: u32) -> (r: Duration)
    requires
        nanos < 1_000_000_000,
    ensures
        duration_nanos(r) as int == secs as int * 1_000_000_000 + nanos as int,
{
    Duration::new(secs, nanos)
}

/// Relies on `Duration::checked_add`: the sum of the two spans, or `None`
/// when it does not fit in a `Duration`.
#[verifier::external_body]
pub(crate) fn duration_checked_add(a: Duration, b: Duration) -> (r: Option<Duration>)
    ensures
        match r {
            Some(s) => duration_nanos(s) == duration_nanos(a) + duration_nanos(b),
            None => duration_nanos(a) + duration_nanos(b) > max_duration_nanos(),
        },
{
    a.checked_add(b)
}

} // verus!
