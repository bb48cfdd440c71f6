//! Time as the engine reads it: a start instant and the durations since.

use std::time::Duration;
use std::time::Instant;
use vstd::prelude::*;

verus! {

/// `std::time::Instant`, a reading of the monotonic clock. The engine keeps
/// one from its start and never looks into it.
#[verifier::external_type_specification]
#[verifier::external_body]
pub struct ExInstant(Instant);

/// The length of a duration in whole nanoseconds.
pub uninterp spec fn nanoseconds(span: Duration) -> nat;

/// `Duration::as_nanos` returns the length of the duration in nanoseconds.
pub assume_specification[ Duration::as_nanos ](span: &Duration) -> (nanos: u128)
    ensures
        nanos == nanoseconds(*span),
;

/// `Duration::from_secs` makes the duration of that many whole seconds, which
/// is a thousand million nanoseconds for each.
pub assume_specification[ Duration::from_secs ](secs: u64) -> (span: Duration)
    ensures
        nanoseconds(span) == secs * 1_000_000_000,
;

/// `Instant::now` reads the clock. Nothing is promised of what it reads.
pub assume_specification[ Instant::now ]() -> Instant;

/// `Instant::elapsed` gives the time since the instant was read. Nothing is
/// promised of its length.
pub assume_specification[ Instant::elapsed ](start: &Instant) -> Duration;

} // verus!
