//! The monotonic clock that stamps cache entries.
//!
//! Points in time are plain numbers: the nanoseconds that passed since a
//! registry was made. Only the three functions below touch the system clock.
use vstd::prelude::*;
use std::time::Duration;
use std::time::Instant;

verus! {

#[verifier::external_type_specification]
#[verifier::external_body]
pub struct ExInstant(Instant);

/// The length of a `Duration` in whole nanoseconds: what
/// `Duration::as_nanos` returns for it.
pub uninterp spec fn duration_nanos(d: Duration) -> nat;

/// `Instant::now`: the current reading of the monotonic clock. Nothing is
/// claimed about the reading.
#[verifier::external_body]
pub(crate) fn clock_start() -> (r: Instant) {
    Instant::now()
}

/// `Instant::elapsed`: the time that passed since `epoch` was read. Nothing
/// is claimed about the result: it differs from call to call.
#[verifier::external_body]
pub(crate) fn clock_elapsed(epoch: &Instant) -> (r: Duration) {
    epoch.elapsed()
}

/// `Duration::as_nanos`: the whole nanoseconds in `d`. The result depends on
/// `d` alone, and is what `duration_nanos` names.
#[verifier::external_body]
pub(crate) fn duration_as_nanos(d: &Duration) -> (r: u128)
    ensures
        r == duration_nanos(*d),
{
    d.as_nanos()
}

} // verus!
