//! The monotonic clock, as far as the library reads it.

use vstd::prelude::*;
use std::time::Duration;
use std::time::Instant;

verus! {

/// `std::time::Instant`, carried through verified code as an opaque value.
#[verifier::external_type_specification]
#[verifier::external_body]
pub struct ExInstant(std::time::Instant);

/// Calls `Instant::now`. Trusted, and nothing is claimed of the reading: it
/// depends on when the call is made.
#[verifier::external_body]
pub(crate) fn now() -> Instant {
    Instant::now()
}

/// The time that passes from `earlier` to `later`, and none where `later` is
/// not after `earlier`: what `Instant::saturating_duration_since` returns for
/// the two instants.
pub uninterp spec fn span_between(earlier: Instant, later: Instant) -> Duration;

/// Calls `Instant::saturating_duration_since` on `later`, with `earlier` as its
/// argument. Trusted: the result is taken to depend on the two instants alone,
/// so that it can go by the name `span_between`; nothing else is claimed of it.
#[verifier::external_body]
pub(crate) fn span(earlier: &Instant, later: &Instant) -> (span: Duration)
    ensures
        span == span_between(*earlier, *later),
{
    later.saturating_duration_since(*earlier)
}

} // verus!
