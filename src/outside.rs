use vstd::prelude::*;

verus! {

/// `std::time::Instant`, opaque: a traffic aggregate holds one as the origin
/// of its clock readings.
#[verifier::external_type_specification]
#[verifier::external_body]
pub struct ExInstant(std::time::Instant);

/// Relies on `rand::thread_rng` and `Rng::gen_range` on `0..bound`: the draw
/// lies in that half-open range (it panics on an empty one, which `requires`
/// leaves out).
#[verifier::external_body]
pub(crate) fn random_below(bound: usize) -> (r: usize)
    requires
        bound > 0,
    ensures
        r < bound,
{
    rand::Rng::gen_range(&mut rand::thread_rng(), 0..bound)
}

/// Relies on `std::time::Instant::now`: a reading of the monotonic clock,
/// used as the origin of the simulation's own clock.
#[verifier::external_body]
pub(crate) fn clock_origin() -> (r: std::time::Instant) {
    std::time::Instant::now()
}

/// Relies on `Instant::elapsed` and `Duration::as_micros`: the whole
/// microseconds since `origin`. Nothing is promised of the value, which
/// depends on the time of the call.
#[verifier::external_body]
pub(crate) fn micros_since(origin: &std::time::Instant) -> (r: u64) {
    origin.elapsed().as_micros() as u64
}

} // verus!
