//! Monotonic clock readings, taken through `std::time::Instant`.

use vstd::prelude::*;

verus! {

#[verifier::external_type_specification]
#[verifier::external_body]
pub struct ExInstant(std::time::Instant);

/// The largest value `Duration::as_nanos` can return: `Duration::MAX` is
/// `u64::MAX` seconds plus 999_999_999 nanoseconds.
pub const MAX_DURATION_NANOS: u128 = 18_446_744_073_709_551_615_999_999_999u128;

/// Calls `std::time::Instant::now`. Nothing is claimed of the reading: it
/// depends on the time of the call.
#[verifier::external_body]
pub(crate) fn instant_now() -> (r: std::time::Instant) {
    std::time::Instant::now()
}

/// Calls `std::time::Instant::elapsed`: the time since `since`. Nothing is
/// claimed of it: it depends on the time of the call.
#[verifier::external_body]
fn instant_elapsed(since: &std::time::Instant) -> (r: std::time::Duration) {
    since.elapsed()
}

/// Calls `std::time::Duration::as_nanos`: the whole nanoseconds in `d`. All
/// that is claimed is the bound that every `Duration` obeys.
#[verifier::external_body]
fn duration_nanos(d: &std::time::Duration) -> (r: u128)
    ensures
        r <= MAX_DURATION_NANOS,
{
    d.as_nanos()
}

/// Nanoseconds elapsed since `since`.
pub(crate) fn elapsed_nanos(since: &std::time::Instant) -> (r: u128)
    ensures
        r <= MAX_DURATION_NANOS,
{
    duration_nanos(&instant_elapsed(since))
}

} // verus!
