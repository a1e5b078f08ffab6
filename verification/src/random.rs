//! The random source that generation and cosmetic animation draw from.

use rand::Rng;
use vstd::prelude::*;

verus! {

/// Draws an integer from `low..=high` with `rand`'s thread-local generator,
/// through `Rng::random_range`. That method panics on an empty range, which
/// the precondition excludes; of the value drawn, only that it lies in the
/// range is claimed.
#[verifier::external_body]
pub(crate) fn random_range(low: i64, high: i64) -> (r: i64)
    requires
        low <= high,
    ensures
        low <= r <= high,
{
    rand::rng().random_range(low..=high)
}

/// Rolls a die with `sides` faces, numbered from zero.
pub fn roll(sides: u32) -> (r: u32)
    requires
        sides > 0,
    ensures
        r < sides,
{
    let r = random_range(0, sides as i64 - 1);
    r as u32
}

} // verus!
