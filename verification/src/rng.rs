use vstd::prelude::*;
use bracket_lib::random::RandomNumberGenerator;

verus! {

/// The dice-oriented random number generator of bracket_lib (bracket-random's
/// `RandomNumberGenerator`), an xorshift generator seeded from entropy. Opaque
/// to the verifier: nothing is assumed of the values it produces beyond what
/// each wrapper below states.
#[verifier::external_type_specification]
#[verifier::external_body]
pub struct ExRandomNumberGenerator(RandomNumberGenerator);

/// Relies on bracket_lib's `RandomNumberGenerator::new`: builds a fresh
/// generator seeded from the host's entropy source (or the clock as a
/// fallback). Nothing is promised of the stream it will produce.
#[verifier::external_body]
pub(crate) fn rng_new() -> RandomNumberGenerator {
    RandomNumberGenerator::new()
}

/// Relies on bracket_lib's `RandomNumberGenerator::range`: returns a value
/// drawn uniformly from `[min, max)`, inclusive of `min` and exclusive of
/// `max`. The call panics on an empty range, so one is required non-empty
/// here. Which value comes back is random; only the range is stated.
#[verifier::external_body]
pub(crate) fn rng_range(rng: &mut RandomNumberGenerator, min: i32, max: i32) -> (r: i32)
    requires
        min < max,
    ensures
        min <= r < max,
{
    rng.range(min, max)
}

} // verus!
