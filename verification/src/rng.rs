use vstd::prelude::*;

verus! {

#[verifier::external_type_specification]
#[verifier::external_body]
pub struct ExRandomNumberGenerator(bracket_lib::random::RandomNumberGenerator);

/// Relies on bracket_random's RandomNumberGenerator::range, which draws a
/// value uniformly from the half-open range [min, max) (and would panic on an
/// empty range). Nothing more is claimed of the draw than its bounds.
#[verifier::external_body]
pub(crate) fn rng_range(
    rng: &mut bracket_lib::random::RandomNumberGenerator,
    min: i32,
    max: i32,
) -> (r: i32)
    requires
        min < max,
    ensures
        min <= r < max,
{
    rng.range(min, max)
}

} // verus!
