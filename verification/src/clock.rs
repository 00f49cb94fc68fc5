//! Trusted boundary to the standard library's monotonic clock.
//!
//! A clock reading depends on when it is taken, so nothing is claimed about
//! any of these results. The verified code that turns them into integers
//! works for every value that may come back.

use std::time::Duration;
use std::time::Instant;
use vstd::prelude::*;

verus! {

#[verifier::external_type_specification]
#[verifier::external_body]
pub struct ExInstant(Instant);

/// `Instant::now`: the current reading of the monotonic clock.
#[verifier::external_body]
pub(crate) fn instant_now() -> (now: Instant) {
    Instant::now()
}

/// `Instant::duration_since`: the time from `earlier` to `later`, or zero if
/// `earlier` is in fact the later of the two. Never panics.
#[verifier::external_body]
pub(crate) fn duration_between(later: &Instant, earlier: &Instant) -> (span: Duration) {
    later.duration_since(*earlier)
}

/// `Duration::as_nanos`: the whole span in nanoseconds.
#[verifier::external_body]
pub(crate) fn duration_nanos(span: &Duration) -> (nanos: u128) {
    span.as_nanos()
}

} // verus!
