//! Random numbers, drawn from the thread-local generator of `rand`.

use crate::rational::Rational;
use rand::Rng;
use vstd::prelude::*;

verus! {

/// The number of equally spaced values that a sample of the unit interval
/// can take: two to the power 53.
pub const UNIT_STEPS: u64 = 9007199254740992;

/// `Rng::random_range` on the half-open range from zero to `bound`: some
/// number below `bound`. It panics on an empty range.
#[verifier::external_body]
fn random_below(bound: u64) -> (k: u64)
    requires
        bound > 0,
    ensures
        k < bound,
{
    rand::rng().random_range(0..bound)
}

/// The `k`-th of the values that a sample of the unit interval can take.
pub open spec fn step(k: nat) -> real {
    k as real / UNIT_STEPS as real
}

/// Whether `u` is a multiple of `1 / UNIT_STEPS` in the half-open unit
/// interval.
pub open spec fn unit_step(u: real) -> bool {
    exists|k: nat| k < UNIT_STEPS && u == #[trigger] step(k)
}

/// A random multiple of `1 / UNIT_STEPS` in the half-open unit interval.
pub fn unit_sample() -> (u: Rational)
    ensures
        0real <= u@ < 1real,
        unit_step(u@),
{
    let k = random_below(UNIT_STEPS);
    let u = Rational::new(k as i64, UNIT_STEPS as i64);
    assert(u@ == step(k as nat));
    u
}

} // verus!
