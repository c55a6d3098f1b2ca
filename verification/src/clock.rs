//! The monotonic clock, read at the edges of the time-dependent logic.
use vstd::prelude::*;
use std::time::{Duration, Instant};

verus! {

#[verifier::external_type_specification]
#[verifier::external_body]
pub struct ExInstant(std::time::Instant);

/// `Instant::now`. A reading of the monotonic clock; nothing is claimed of
/// the value, which depends on the time of the call.
#[verifier::external_body]
pub(crate) fn clock_now() -> (r: Instant) {
    Instant::now()
}

/// `Instant::elapsed`: the time since `origin`. Nothing is claimed of the
/// value, which depends on the time of the call.
#[verifier::external_body]
pub(crate) fn elapsed_since(origin: &Instant) -> (r: Duration) {
    origin.elapsed()
}

/// `Duration::as_nanos`. Nothing is claimed: a `Duration` is opaque here.
#[verifier::external_body]
pub(crate) fn duration_nanos(d: &Duration) -> (r: u128) {
    d.as_nanos()
}

/// Whole nanoseconds since `origin` on the monotonic clock, `u64::MAX` past
/// what a `u64` holds.
pub(crate) fn nanos_since(origin: &Instant) -> (r: u64) {
    let n = duration_nanos(&elapsed_since(origin));
    if n > 0xFFFF_FFFF_FFFF_FFFFu128 { 0xFFFF_FFFF_FFFF_FFFFu64 } else { n as u64 }
}

} // verus!
