//! The random source: a seedable generator of the `rand` crate, handed in by
//! the caller, from which all stochastic variation is drawn.

use vstd::prelude::*;
use rand::Rng;
use rand::rngs::StdRng;
use crate::fixed::SCALE;

verus! {

/// `StdRng` of the `rand` crate: the generator that the caller seeds and hands
/// in. Nothing is known of its state; it is only carried to the draws.
#[verifier::external_type_specification]
#[verifier::external_body]
pub struct ExStdRng(rand::rngs::StdRng);

/// `x` is a possible draw from the span from `low` to `high`: at least `low`
/// and below `high`, or `low` itself where the span is empty.
pub open spec fn in_span(x: int, low: int, high: int) -> bool {
    if low < high {
        low <= x < high
    } else {
        x == low
    }
}

/// `Rng::random_range` of the `rand` crate on the half-open range from `low`
/// to `high`. The call panics on an empty range, which the precondition rules
/// out; what it returns lies in the range. Nothing else is claimed: which
/// value comes is up to the generator.
#[verifier::external_body]
fn random_range(rng: &mut StdRng, low: i64, high: i64) -> (r: i64)
    requires
        low < high,
    ensures
        low <= r < high,
{
    rng.random_range(low..high)
}

/// A draw from the span from `low` to `high`, `high` excluded. An empty span
/// yields `low` without consulting the generator.
pub fn uniform(rng: &mut StdRng, low: i64, high: i64) -> (r: i64)
    ensures
        in_span(r as int, low as int, high as int),
        low >= high ==> *final(rng) == *old(rng),
{
    if low < high {
        random_range(rng, low, high)
    } else {
        low
    }
}

/// A draw from minus one up to, but not including, one.
pub fn unit_noise(rng: &mut StdRng) -> (r: i64)
    ensures
        -SCALE <= r < SCALE,
{
    uniform(rng, -SCALE, SCALE)
}

} // verus!
