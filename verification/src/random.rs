//! The one place where the library reaches into the random number generator.

use vstd::prelude::*;

verus! {

/// Relies on rand::random_range: a uniformly random value drawn from the
/// given range, here `0..3`. Nothing beyond the bound can be promised of a
/// random draw.
#[verifier::external_body]
pub(crate) fn random_index() -> (r: usize)
    ensures
        r < 3,
{
    rand::random_range(0..3)
}

} // verus!
