//! What the library reads from a `std::time::Duration`.

use std::time::Duration;
use vstd::prelude::*;

verus! {

/// The whole seconds of a duration, as `Duration::as_secs` reports them.
pub uninterp spec fn duration_secs(d: Duration) -> u64;

/// The part of a duration below one second, in nanoseconds, as
/// `Duration::subsec_nanos` reports it.
pub uninterp spec fn duration_subsec_nanos(d: Duration) -> u32;

/// `Duration::as_secs` returns the number of whole seconds.
pub assume_specification[ Duration::as_secs ](d: &Duration) -> (secs: u64)
    ensures
        secs == duration_secs(*d),
;

/// `Duration::subsec_nanos` returns the fractional part in nanoseconds,
/// which is always below one second.
pub assume_specification[ Duration::subsec_nanos ](d: &Duration) -> (nanos: u32)
    ensures
        nanos == duration_subsec_nanos(*d),
        nanos < 1_000_000_000,
;

/// `Duration::is_zero` holds exactly when the duration spans no time.
pub assume_specification[ Duration::is_zero ](d: &Duration) -> (zero: bool)
    ensures
        zero == (duration_secs(*d) == 0 && duration_subsec_nanos(*d) == 0),
;

/// The length of a duration in nanoseconds.
pub open spec fn duration_nanos(d: Duration) -> nat {
    (duration_secs(d) * 1_000_000_000 + duration_subsec_nanos(d)) as nat
}

/// Whether a timeout is one that a request can have: none at all, or a
/// span that is longer than nothing.
pub open spec fn is_positive(timeout: Option<Duration>) -> bool {
    timeout matches Some(d) ==> duration_nanos(d) > 0
}

} // verus!
